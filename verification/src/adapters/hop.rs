//! The proportional-plus-liquidity-fee provider.
//!
//! Charges a bonder fee of `bonder_fee_bps` basis points (10 by default,
//! capped at 10% when reconfigured) plus a liquidity-provider fee of 4
//! basis points, with fixed estimates of 300 seconds and 150,000 gas
//! units. Each admitted asset carries its bridge and AMM endpoints and
//! its minimum amount.

use vstd::prelude::*;
use vstd::pervasive::VecAdditionalExecFns;
use vstd::string::StringExecFns;

use crate::address::Address;
use crate::arith::{sat_mul, saturating_mul};
use crate::error::SwitchError;
use crate::table::{
    assoc_find, addr_key_find, lemma_assoc_find_at, lemma_assoc_find_none, lemma_assoc_find_push,
    lemma_assoc_find_update,
};
use super::{BridgeRoute, BPS_DENOMINATOR, MAX_FEE_BPS};

verus! {

/// Fixed time estimate, in seconds.
pub const HOP_ESTIMATED_TIME: u128 = 300;

/// Fixed gas estimate.
pub const HOP_ESTIMATED_GAS: u128 = 150_000;

/// Default bonder fee: 10 basis points.
pub const HOP_DEFAULT_BONDER_FEE_BPS: u128 = 10;

/// Liquidity-provider fee: 4 basis points.
pub const HOP_LP_FEE_BPS: u128 = 4;

/// Per-asset record: the asset's bridge and AMM endpoints and its
/// configured minimum amount.
#[derive(Clone, Copy, Debug)]
pub struct HopTokenConfig {
    pub hop_bridge: Address,
    pub hop_amm: Address,
    pub min_amount: u128,
}

/// The proportional-plus-liquidity-fee provider.
pub struct HopBridgeAdapter {
    pub owner: Address,
    pub tokens: Vec<(Address, HopTokenConfig)>,
    pub bonder_fee_bps: u128,
}

impl HopBridgeAdapter {
    /// Whether the provider admits the asset.
    pub open spec fn supports(&self, token: Address) -> bool {
        assoc_find(self.tokens@, token) is Some
    }

    /// The configured minimum amount for the asset.
    pub open spec fn min_amount_of(&self, token: Address) -> u128 {
        match assoc_find(self.tokens@, token) {
            Some(c) => c.min_amount,
            None => 0,
        }
    }

    /// Bonder fee plus liquidity-provider fee, each proportional with a
    /// saturating product, their sum saturating.
    pub open spec fn fee_spec(&self, amount: u128) -> u128 {
        ((sat_mul(amount, self.bonder_fee_bps) / BPS_DENOMINATOR) as u128).saturating_add(
            (sat_mul(amount, HOP_LP_FEE_BPS) / BPS_DENOMINATOR) as u128,
        )
    }

    /// Whether a transfer passes the admission checks: admitted asset and
    /// amount at or above the minimum (admission configures the
    /// endpoints).
    pub open spec fn transfer_admissible(&self, token: Address, amount: u128) -> bool {
        self.supports(token) && amount >= self.min_amount_of(token)
    }

    /// The first failing admission check of a transfer.
    pub open spec fn transfer_error(&self, token: Address, amount: u128) -> SwitchError {
        if !self.supports(token) {
            SwitchError::UnsupportedAsset
        } else {
            SwitchError::BelowMinimum
        }
    }

    /// A fresh provider administered by `owner`, admitting nothing, at
    /// the default bonder fee.
    pub fn new(owner: Address) -> (r: HopBridgeAdapter)
        ensures
            r.owner == owner,
            r.tokens@ =~= Seq::<(Address, HopTokenConfig)>::empty(),
            r.bonder_fee_bps == HOP_DEFAULT_BONDER_FEE_BPS,
    {
        HopBridgeAdapter { owner, tokens: Vec::new(), bonder_fee_bps: HOP_DEFAULT_BONDER_FEE_BPS }
    }

    /// Admits an asset with its endpoints and minimum amount (last write
    /// wins). Requires the administrative authority and non-null asset,
    /// bridge and AMM identifiers.
    pub fn add_supported_token(
        &mut self,
        caller: Address,
        token: Address,
        hop_bridge: Address,
        hop_amm: Address,
        min_amount: u128,
    ) -> (r: Result<(), SwitchError>)
        ensures
            caller != old(self).owner ==> r == Err::<(), SwitchError>(SwitchError::NotOwner)
                && *final(self) == *old(self),
            caller == old(self).owner && (token.is_null() || hop_bridge.is_null()
                || hop_amm.is_null()) ==> r == Err::<(), SwitchError>(SwitchError::ZeroAddress)
                && *final(self) == *old(self),
            caller == old(self).owner && !token.is_null() && !hop_bridge.is_null()
                && !hop_amm.is_null() ==> {
                &&& r == Ok::<(), SwitchError>(())
                &&& assoc_find(final(self).tokens@, token) == Some(
                    HopTokenConfig { hop_bridge, hop_amm, min_amount },
                )
                &&& forall|t: Address|
                    t != token ==> assoc_find(final(self).tokens@, t) == assoc_find(
                        old(self).tokens@,
                        t,
                    )
                &&& final(self).owner == old(self).owner
                &&& final(self).bonder_fee_bps == old(self).bonder_fee_bps
            },
    {
        if !(caller == self.owner) {
            return Err(SwitchError::NotOwner);
        }
        if token.is_zero() {
            return Err(SwitchError::ZeroAddress);
        }
        if hop_bridge.is_zero() {
            return Err(SwitchError::ZeroAddress);
        }
        if hop_amm.is_zero() {
            return Err(SwitchError::ZeroAddress);
        }
        let config = HopTokenConfig { hop_bridge, hop_amm, min_amount };
        let ghost entries = self.tokens@;
        match addr_key_find(&self.tokens, &token) {
            Some(i) => {
                self.tokens.set(i, (token, config));
                proof {
                    assert forall|t: Address| #[trigger]
                        assoc_find(self.tokens@, t) == (if t == token {
                            Some(config)
                        } else {
                            assoc_find(entries, t)
                        }) by {
                        lemma_assoc_find_update(entries, i as int, token, config, t);
                    }
                }
            },
            None => {
                self.tokens.push((token, config));
                proof {
                    assert forall|t: Address| #[trigger]
                        assoc_find(self.tokens@, t) == (if t == token {
                            Some(config)
                        } else {
                            assoc_find(entries, t)
                        }) by {
                        lemma_assoc_find_push(entries, token, config, t);
                    }
                }
            },
        }
        Ok(())
    }

    /// Reconfigures the bonder fee, capped at 10%. Requires the
    /// administrative authority.
    pub fn set_bonder_fee(&mut self, caller: Address, fee_bps: u128) -> (r: Result<
        (),
        SwitchError,
    >)
        ensures
            caller != old(self).owner ==> r == Err::<(), SwitchError>(SwitchError::NotOwner)
                && *final(self) == *old(self),
            caller == old(self).owner && fee_bps > MAX_FEE_BPS ==> r == Err::<(), SwitchError>(
                SwitchError::FeeTooHigh,
            ) && *final(self) == *old(self),
            caller == old(self).owner && fee_bps <= MAX_FEE_BPS ==> {
                &&& r == Ok::<(), SwitchError>(())
                &&& final(self).bonder_fee_bps == fee_bps
                &&& final(self).owner == old(self).owner
                &&& final(self).tokens == old(self).tokens
            },
    {
        if !(caller == self.owner) {
            return Err(SwitchError::NotOwner);
        }
        if fee_bps > MAX_FEE_BPS {
            return Err(SwitchError::FeeTooHigh);
        }
        self.bonder_fee_bps = fee_bps;
        Ok(())
    }

    /// The bridge endpoint registered for an asset.
    pub fn get_hop_bridge(&self, token: Address) -> (r: Result<Address, SwitchError>)
        ensures
            r == match assoc_find(self.tokens@, token) {
                Some(c) => Ok::<Address, SwitchError>(c.hop_bridge),
                None => Err::<Address, SwitchError>(SwitchError::EndpointNotSet),
            },
    {
        match addr_key_find(&self.tokens, &token) {
            Some(i) => {
                proof {
                    lemma_assoc_find_at(self.tokens@, token, i as int);
                }
                Ok(self.tokens[i].1.hop_bridge)
            },
            None => {
                proof {
                    lemma_assoc_find_none(self.tokens@, token);
                }
                Err(SwitchError::EndpointNotSet)
            },
        }
    }

    /// The AMM endpoint registered for an asset.
    pub fn get_hop_amm(&self, token: Address) -> (r: Result<Address, SwitchError>)
        ensures
            r == match assoc_find(self.tokens@, token) {
                Some(c) => Ok::<Address, SwitchError>(c.hop_amm),
                None => Err::<Address, SwitchError>(SwitchError::EndpointNotSet),
            },
    {
        match addr_key_find(&self.tokens, &token) {
            Some(i) => {
                proof {
                    lemma_assoc_find_at(self.tokens@, token, i as int);
                }
                Ok(self.tokens[i].1.hop_amm)
            },
            None => {
                proof {
                    lemma_assoc_find_none(self.tokens@, token);
                }
                Err(SwitchError::EndpointNotSet)
            },
        }
    }

    /// The bonder fee for an amount.
    fn calculate_bonder_fee(&self, amount: u128) -> (r: u128)
        ensures
            r == (sat_mul(amount, self.bonder_fee_bps) / BPS_DENOMINATOR) as u128,
    {
        saturating_mul(amount, self.bonder_fee_bps) / BPS_DENOMINATOR
    }

    /// Describes the provider.
    pub fn get_bridge_info(&self) -> (r: (String, bool))
        ensures
            r.0@ == "Hop Protocol"@,
            r.1,
    {
        (String::from_str("Hop Protocol"), true)
    }

    /// Quotes a transfer: bonder plus liquidity-provider fee, fixed
    /// estimates.
    pub fn get_route(&self, from_chain: u64, to_chain: u64, token: Address, amount: u128) -> (r:
        Result<BridgeRoute, SwitchError>)
        ensures
            !self.supports(token) ==> r == Err::<BridgeRoute, SwitchError>(
                SwitchError::UnsupportedAsset,
            ),
            self.supports(token) && amount < self.min_amount_of(token) ==> r == Err::<
                BridgeRoute,
                SwitchError,
            >(SwitchError::BelowMinimum),
            self.supports(token) && amount >= self.min_amount_of(token) ==> (r matches Ok(route)
                && route.bridge_name@ == "Hop Protocol"@ && route.estimated_time
                == HOP_ESTIMATED_TIME && route.estimated_gas == HOP_ESTIMATED_GAS && route.fee
                == self.fee_spec(amount) && route.available),
    {
        let min_amount = match addr_key_find(&self.tokens, &token) {
            Some(i) => {
                proof {
                    lemma_assoc_find_at(self.tokens@, token, i as int);
                }
                self.tokens[i].1.min_amount
            },
            None => {
                proof {
                    lemma_assoc_find_none(self.tokens@, token);
                }
                return Err(SwitchError::UnsupportedAsset);
            },
        };
        if amount < min_amount {
            return Err(SwitchError::BelowMinimum);
        }
        let bonder_fee = self.calculate_bonder_fee(amount);
        let lp_fee = saturating_mul(amount, HOP_LP_FEE_BPS) / BPS_DENOMINATOR;
        let total_fee = bonder_fee.saturating_add(lp_fee);
        Ok(
            BridgeRoute {
                bridge_name: String::from_str("Hop Protocol"),
                estimated_time: HOP_ESTIMATED_TIME,
                estimated_gas: HOP_ESTIMATED_GAS,
                fee: total_fee,
                available: true,
            },
        )
    }

    /// Executes a transfer: the quote's admission checks (admission
    /// already configured the endpoints); the cross-domain invocation
    /// itself is outside the engine's scope.
    pub fn bridge_tokens(
        &self,
        to_chain: u64,
        token: Address,
        amount: u128,
        recipient: Address,
        _data: Vec<u8>,
    ) -> (r: Result<(), SwitchError>)
        ensures
            r == if self.transfer_admissible(token, amount) {
                Ok::<(), SwitchError>(())
            } else {
                Err::<(), SwitchError>(self.transfer_error(token, amount))
            },
    {
        let min_amount = match addr_key_find(&self.tokens, &token) {
            Some(i) => {
                proof {
                    lemma_assoc_find_at(self.tokens@, token, i as int);
                }
                self.tokens[i].1.min_amount
            },
            None => {
                proof {
                    lemma_assoc_find_none(self.tokens@, token);
                }
                return Err(SwitchError::UnsupportedAsset);
            },
        };
        if amount < min_amount {
            return Err(SwitchError::BelowMinimum);
        }
        let hop_bridge = self.get_hop_bridge(token);
        match hop_bridge {
            Ok(_) => Ok(()),
            Err(e) => Err(e),
        }
    }
}

} // verus!
