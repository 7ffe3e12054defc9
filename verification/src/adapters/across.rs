//! The proportional-with-cap provider.
//!
//! Charges a relayer fee of `relayer_fee_bps` basis points of the amount
//! (15 by default, capped at 10% when reconfigured), with fixed estimates
//! of 180 seconds and 120,000 gas units. Transfers additionally require
//! the spoke-pool endpoint to be configured.

use vstd::prelude::*;
use vstd::pervasive::VecAdditionalExecFns;
use vstd::string::StringExecFns;

use crate::address::Address;
use crate::arith::{sat_mul, saturating_mul};
use crate::error::SwitchError;
use crate::table::{
    assoc_find, addr_key_find, lemma_assoc_find_at, lemma_assoc_find_none, lemma_assoc_find_push,
    lemma_assoc_find_update,
};
use super::{BridgeRoute, BPS_DENOMINATOR, MAX_FEE_BPS};

verus! {

/// Fixed time estimate, in seconds.
pub const ACROSS_ESTIMATED_TIME: u128 = 180;

/// Fixed gas estimate.
pub const ACROSS_ESTIMATED_GAS: u128 = 120_000;

/// Default relayer fee: 15 basis points.
pub const ACROSS_DEFAULT_FEE_BPS: u128 = 15;

/// The proportional-with-cap provider. Each admitted asset carries its
/// configured minimum amount.
pub struct AcrossBridgeAdapter {
    pub owner: Address,
    pub spoke_pool: Address,
    pub tokens: Vec<(Address, u128)>,
    pub relayer_fee_bps: u128,
}

impl AcrossBridgeAdapter {
    /// Whether the provider admits the asset.
    pub open spec fn supports(&self, token: Address) -> bool {
        assoc_find(self.tokens@, token) is Some
    }

    /// The configured minimum amount for the asset.
    pub open spec fn min_amount_of(&self, token: Address) -> u128 {
        match assoc_find(self.tokens@, token) {
            Some(m) => m,
            None => 0,
        }
    }

    /// Proportional fee: `amount * relayer_fee_bps / 10_000`, the product
    /// saturating.
    pub open spec fn fee_spec(&self, amount: u128) -> u128 {
        (sat_mul(amount, self.relayer_fee_bps) / BPS_DENOMINATOR) as u128
    }

    /// Whether a transfer passes the admission checks: admitted asset,
    /// amount at or above the minimum, spoke pool configured.
    pub open spec fn transfer_admissible(&self, token: Address, amount: u128) -> bool {
        self.supports(token) && amount >= self.min_amount_of(token) && !self.spoke_pool.is_null()
    }

    /// The first failing admission check of a transfer.
    pub open spec fn transfer_error(&self, token: Address, amount: u128) -> SwitchError {
        if !self.supports(token) {
            SwitchError::UnsupportedAsset
        } else if amount < self.min_amount_of(token) {
            SwitchError::BelowMinimum
        } else {
            SwitchError::EndpointNotSet
        }
    }

    /// A fresh provider administered by `owner`, pointing at the given
    /// spoke pool, admitting nothing, at the default relayer fee.
    pub fn new(owner: Address, spoke_pool: Address) -> (r: AcrossBridgeAdapter)
        ensures
            r.owner == owner,
            r.spoke_pool == spoke_pool,
            r.tokens@ =~= Seq::<(Address, u128)>::empty(),
            r.relayer_fee_bps == ACROSS_DEFAULT_FEE_BPS,
    {
        AcrossBridgeAdapter {
            owner,
            spoke_pool,
            tokens: Vec::new(),
            relayer_fee_bps: ACROSS_DEFAULT_FEE_BPS,
        }
    }

    /// Admits an asset with its minimum amount (last write wins).
    /// Requires the administrative authority and a non-null asset
    /// identifier.
    pub fn add_supported_token(&mut self, caller: Address, token: Address, min_amount: u128) -> (r:
        Result<(), SwitchError>)
        ensures
            caller != old(self).owner ==> r == Err::<(), SwitchError>(SwitchError::NotOwner)
                && *final(self) == *old(self),
            caller == old(self).owner && token.is_null() ==> r == Err::<(), SwitchError>(
                SwitchError::ZeroAddress,
            ) && *final(self) == *old(self),
            caller == old(self).owner && !token.is_null() ==> {
                &&& r == Ok::<(), SwitchError>(())
                &&& final(self).supports(token)
                &&& final(self).min_amount_of(token) == min_amount
                &&& forall|t: Address|
                    t != token ==> assoc_find(final(self).tokens@, t) == assoc_find(
                        old(self).tokens@,
                        t,
                    )
                &&& final(self).owner == old(self).owner
                &&& final(self).spoke_pool == old(self).spoke_pool
                &&& final(self).relayer_fee_bps == old(self).relayer_fee_bps
            },
    {
        if !(caller == self.owner) {
            return Err(SwitchError::NotOwner);
        }
        if token.is_zero() {
            return Err(SwitchError::ZeroAddress);
        }
        let ghost entries = self.tokens@;
        match addr_key_find(&self.tokens, &token) {
            Some(i) => {
                self.tokens.set(i, (token, min_amount));
                proof {
                    assert forall|t: Address| #[trigger]
                        assoc_find(self.tokens@, t) == (if t == token {
                            Some(min_amount)
                        } else {
                            assoc_find(entries, t)
                        }) by {
                        lemma_assoc_find_update(entries, i as int, token, min_amount, t);
                    }
                }
            },
            None => {
                self.tokens.push((token, min_amount));
                proof {
                    assert forall|t: Address| #[trigger]
                        assoc_find(self.tokens@, t) == (if t == token {
                            Some(min_amount)
                        } else {
                            assoc_find(entries, t)
                        }) by {
                        lemma_assoc_find_push(entries, token, min_amount, t);
                    }
                }
            },
        }
        Ok(())
    }

    /// Reconfigures the spoke-pool endpoint. Requires the administrative
    /// authority and a non-null endpoint.
    pub fn set_spoke_pool(&mut self, caller: Address, spoke_pool: Address) -> (r: Result<
        (),
        SwitchError,
    >)
        ensures
            caller != old(self).owner ==> r == Err::<(), SwitchError>(SwitchError::NotOwner)
                && *final(self) == *old(self),
            caller == old(self).owner && spoke_pool.is_null() ==> r == Err::<(), SwitchError>(
                SwitchError::ZeroAddress,
            ) && *final(self) == *old(self),
            caller == old(self).owner && !spoke_pool.is_null() ==> {
                &&& r == Ok::<(), SwitchError>(())
                &&& final(self).spoke_pool == spoke_pool
                &&& final(self).owner == old(self).owner
                &&& final(self).tokens == old(self).tokens
                &&& final(self).relayer_fee_bps == old(self).relayer_fee_bps
            },
    {
        if !(caller == self.owner) {
            return Err(SwitchError::NotOwner);
        }
        if spoke_pool.is_zero() {
            return Err(SwitchError::ZeroAddress);
        }
        self.spoke_pool = spoke_pool;
        Ok(())
    }

    /// Reconfigures the relayer fee, capped at 10%. Requires the
    /// administrative authority.
    pub fn set_relayer_fee(&mut self, caller: Address, fee_bps: u128) -> (r: Result<
        (),
        SwitchError,
    >)
        ensures
            caller != old(self).owner ==> r == Err::<(), SwitchError>(SwitchError::NotOwner)
                && *final(self) == *old(self),
            caller == old(self).owner && fee_bps > MAX_FEE_BPS ==> r == Err::<(), SwitchError>(
                SwitchError::FeeTooHigh,
            ) && *final(self) == *old(self),
            caller == old(self).owner && fee_bps <= MAX_FEE_BPS ==> {
                &&& r == Ok::<(), SwitchError>(())
                &&& final(self).relayer_fee_bps == fee_bps
                &&& final(self).owner == old(self).owner
                &&& final(self).spoke_pool == old(self).spoke_pool
                &&& final(self).tokens == old(self).tokens
            },
    {
        if !(caller == self.owner) {
            return Err(SwitchError::NotOwner);
        }
        if fee_bps > MAX_FEE_BPS {
            return Err(SwitchError::FeeTooHigh);
        }
        self.relayer_fee_bps = fee_bps;
        Ok(())
    }

    /// The relayer fee for an amount.
    fn calculate_relayer_fee(&self, amount: u128) -> (r: u128)
        ensures
            r == self.fee_spec(amount),
    {
        saturating_mul(amount, self.relayer_fee_bps) / BPS_DENOMINATOR
    }

    /// Describes the provider.
    pub fn get_bridge_info(&self) -> (r: (String, bool))
        ensures
            r.0@ == "Across Protocol"@,
            r.1,
    {
        (String::from_str("Across Protocol"), true)
    }

    /// Quotes a transfer: proportional relayer fee, fixed estimates.
    pub fn get_route(&self, from_chain: u64, to_chain: u64, token: Address, amount: u128) -> (r:
        Result<BridgeRoute, SwitchError>)
        ensures
            !self.supports(token) ==> r == Err::<BridgeRoute, SwitchError>(
                SwitchError::UnsupportedAsset,
            ),
            self.supports(token) && amount < self.min_amount_of(token) ==> r == Err::<
                BridgeRoute,
                SwitchError,
            >(SwitchError::BelowMinimum),
            self.supports(token) && amount >= self.min_amount_of(token) ==> (r matches Ok(route)
                && route.bridge_name@ == "Across Protocol"@ && route.estimated_time
                == ACROSS_ESTIMATED_TIME && route.estimated_gas == ACROSS_ESTIMATED_GAS
                && route.fee == self.fee_spec(amount) && route.available),
    {
        let min_amount = match addr_key_find(&self.tokens, &token) {
            Some(i) => {
                proof {
                    lemma_assoc_find_at(self.tokens@, token, i as int);
                }
                self.tokens[i].1
            },
            None => {
                proof {
                    lemma_assoc_find_none(self.tokens@, token);
                }
                return Err(SwitchError::UnsupportedAsset);
            },
        };
        if amount < min_amount {
            return Err(SwitchError::BelowMinimum);
        }
        let relayer_fee = self.calculate_relayer_fee(amount);
        Ok(
            BridgeRoute {
                bridge_name: String::from_str("Across Protocol"),
                estimated_time: ACROSS_ESTIMATED_TIME,
                estimated_gas: ACROSS_ESTIMATED_GAS,
                fee: relayer_fee,
                available: true,
            },
        )
    }

    /// Executes a transfer: the quote's admission checks plus a
    /// configured spoke pool; the cross-domain invocation itself is
    /// outside the engine's scope.
    pub fn bridge_tokens(
        &self,
        to_chain: u64,
        token: Address,
        amount: u128,
        recipient: Address,
        _data: Vec<u8>,
    ) -> (r: Result<(), SwitchError>)
        ensures
            r == if self.transfer_admissible(token, amount) {
                Ok::<(), SwitchError>(())
            } else {
                Err::<(), SwitchError>(self.transfer_error(token, amount))
            },
    {
        let min_amount = match addr_key_find(&self.tokens, &token) {
            Some(i) => {
                proof {
                    lemma_assoc_find_at(self.tokens@, token, i as int);
                }
                self.tokens[i].1
            },
            None => {
                proof {
                    lemma_assoc_find_none(self.tokens@, token);
                }
                return Err(SwitchError::UnsupportedAsset);
            },
        };
        if amount < min_amount {
            return Err(SwitchError::BelowMinimum);
        }
        if self.spoke_pool.is_zero() {
            return Err(SwitchError::EndpointNotSet);
        }
        Ok(())
    }
}

} // verus!
