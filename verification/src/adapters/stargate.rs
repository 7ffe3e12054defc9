//! The pool-based provider.
//!
//! Charges a pool fee of 6 basis points of the amount, with fixed
//! estimates of 900 seconds and 250,000 gas units. Each admitted asset
//! carries its pool identifier and its minimum amount.

use vstd::prelude::*;
use vstd::pervasive::VecAdditionalExecFns;
use vstd::string::StringExecFns;

use crate::address::Address;
use crate::arith::{sat_mul, saturating_mul};
use crate::error::SwitchError;
use crate::table::{
    assoc_find, addr_key_find, lemma_assoc_find_at, lemma_assoc_find_none, lemma_assoc_find_push,
    lemma_assoc_find_update,
};
use super::{BridgeRoute, BPS_DENOMINATOR};

verus! {

/// Fixed time estimate, in seconds.
pub const STARGATE_ESTIMATED_TIME: u128 = 900;

/// Fixed gas estimate.
pub const STARGATE_ESTIMATED_GAS: u128 = 250_000;

/// Pool fee: 6 basis points.
pub const STARGATE_FEE_BPS: u128 = 6;

/// Per-asset record: the asset's pool identifier and its configured
/// minimum amount.
#[derive(Clone, Copy, Debug)]
pub struct StargateTokenConfig {
    pub pool_id: u128,
    pub min_amount: u128,
}

/// The pool-based provider, pointing at one downstream router endpoint.
pub struct StargateAdapter {
    pub owner: Address,
    pub router: Address,
    pub tokens: Vec<(Address, StargateTokenConfig)>,
}

impl StargateAdapter {
    /// Whether the provider admits the asset.
    pub open spec fn supports(&self, token: Address) -> bool {
        assoc_find(self.tokens@, token) is Some
    }

    /// The configured minimum amount for the asset.
    pub open spec fn min_amount_of(&self, token: Address) -> u128 {
        match assoc_find(self.tokens@, token) {
            Some(c) => c.min_amount,
            None => 0,
        }
    }

    /// Pool fee: `amount * 6 / 10_000`, the product saturating.
    pub open spec fn fee_spec(&self, amount: u128) -> u128 {
        (sat_mul(amount, STARGATE_FEE_BPS) / BPS_DENOMINATOR) as u128
    }

    /// Whether a transfer passes the admission checks: admitted asset and
    /// amount at or above the minimum (admission configures the pool).
    pub open spec fn transfer_admissible(&self, token: Address, amount: u128) -> bool {
        self.supports(token) && amount >= self.min_amount_of(token)
    }

    /// The first failing admission check of a transfer.
    pub open spec fn transfer_error(&self, token: Address, amount: u128) -> SwitchError {
        if !self.supports(token) {
            SwitchError::UnsupportedAsset
        } else {
            SwitchError::BelowMinimum
        }
    }

    /// A fresh provider administered by `owner`, pointing at the given
    /// downstream router, admitting nothing.
    pub fn new(owner: Address, router: Address) -> (r: StargateAdapter)
        ensures
            r.owner == owner,
            r.router == router,
            r.tokens@ =~= Seq::<(Address, StargateTokenConfig)>::empty(),
    {
        StargateAdapter { owner, router, tokens: Vec::new() }
    }

    /// Admits an asset with its pool identifier and minimum amount (last
    /// write wins). Requires the administrative authority and a non-null
    /// asset identifier.
    pub fn add_supported_token(
        &mut self,
        caller: Address,
        token: Address,
        pool_id: u128,
        min_amount: u128,
    ) -> (r: Result<(), SwitchError>)
        ensures
            caller != old(self).owner ==> r == Err::<(), SwitchError>(SwitchError::NotOwner)
                && *final(self) == *old(self),
            caller == old(self).owner && token.is_null() ==> r == Err::<(), SwitchError>(
                SwitchError::ZeroAddress,
            ) && *final(self) == *old(self),
            caller == old(self).owner && !token.is_null() ==> {
                &&& r == Ok::<(), SwitchError>(())
                &&& assoc_find(final(self).tokens@, token) == Some(
                    StargateTokenConfig { pool_id, min_amount },
                )
                &&& forall|t: Address|
                    t != token ==> assoc_find(final(self).tokens@, t) == assoc_find(
                        old(self).tokens@,
                        t,
                    )
                &&& final(self).owner == old(self).owner
                &&& final(self).router == old(self).router
            },
    {
        if !(caller == self.owner) {
            return Err(SwitchError::NotOwner);
        }
        if token.is_zero() {
            return Err(SwitchError::ZeroAddress);
        }
        let config = StargateTokenConfig { pool_id, min_amount };
        let ghost entries = self.tokens@;
        match addr_key_find(&self.tokens, &token) {
            Some(i) => {
                self.tokens.set(i, (token, config));
                proof {
                    assert forall|t: Address| #[trigger]
                        assoc_find(self.tokens@, t) == (if t == token {
                            Some(config)
                        } else {
                            assoc_find(entries, t)
                        }) by {
                        lemma_assoc_find_update(entries, i as int, token, config, t);
                    }
                }
            },
            None => {
                self.tokens.push((token, config));
                proof {
                    assert forall|t: Address| #[trigger]
                        assoc_find(self.tokens@, t) == (if t == token {
                            Some(config)
                        } else {
                            assoc_find(entries, t)
                        }) by {
                        lemma_assoc_find_push(entries, token, config, t);
                    }
                }
            },
        }
        Ok(())
    }

    /// The pool identifier registered for an asset.
    fn get_pool_id(&self, token: Address) -> (r: Result<u128, SwitchError>)
        ensures
            r == match assoc_find(self.tokens@, token) {
                Some(c) => Ok::<u128, SwitchError>(c.pool_id),
                None => Err::<u128, SwitchError>(SwitchError::EndpointNotSet),
            },
    {
        match addr_key_find(&self.tokens, &token) {
            Some(i) => {
                proof {
                    lemma_assoc_find_at(self.tokens@, token, i as int);
                }
                Ok(self.tokens[i].1.pool_id)
            },
            None => {
                proof {
                    lemma_assoc_find_none(self.tokens@, token);
                }
                Err(SwitchError::EndpointNotSet)
            },
        }
    }

    /// Describes the provider.
    pub fn get_bridge_info(&self) -> (r: (String, bool))
        ensures
            r.0@ == "Stargate"@,
            r.1,
    {
        (String::from_str("Stargate"), true)
    }

    /// Quotes a transfer: pool fee, fixed estimates.
    pub fn get_route(&self, from_chain: u64, to_chain: u64, token: Address, amount: u128) -> (r:
        Result<BridgeRoute, SwitchError>)
        ensures
            !self.supports(token) ==> r == Err::<BridgeRoute, SwitchError>(
                SwitchError::UnsupportedAsset,
            ),
            self.supports(token) && amount < self.min_amount_of(token) ==> r == Err::<
                BridgeRoute,
                SwitchError,
            >(SwitchError::BelowMinimum),
            self.supports(token) && amount >= self.min_amount_of(token) ==> (r matches Ok(route)
                && route.bridge_name@ == "Stargate"@ && route.estimated_time
                == STARGATE_ESTIMATED_TIME && route.estimated_gas == STARGATE_ESTIMATED_GAS
                && route.fee == self.fee_spec(amount) && route.available),
    {
        let min_amount = match addr_key_find(&self.tokens, &token) {
            Some(i) => {
                proof {
                    lemma_assoc_find_at(self.tokens@, token, i as int);
                }
                self.tokens[i].1.min_amount
            },
            None => {
                proof {
                    lemma_assoc_find_none(self.tokens@, token);
                }
                return Err(SwitchError::UnsupportedAsset);
            },
        };
        if amount < min_amount {
            return Err(SwitchError::BelowMinimum);
        }
        let fee = saturating_mul(amount, STARGATE_FEE_BPS) / BPS_DENOMINATOR;
        Ok(
            BridgeRoute {
                bridge_name: String::from_str("Stargate"),
                estimated_time: STARGATE_ESTIMATED_TIME,
                estimated_gas: STARGATE_ESTIMATED_GAS,
                fee,
                available: true,
            },
        )
    }

    /// Executes a transfer: the quote's admission checks (admission
    /// already configured the pool); the cross-domain invocation itself
    /// is outside the engine's scope.
    pub fn bridge_tokens(
        &self,
        to_chain: u64,
        token: Address,
        amount: u128,
        recipient: Address,
        _data: Vec<u8>,
    ) -> (r: Result<(), SwitchError>)
        ensures
            r == if self.transfer_admissible(token, amount) {
                Ok::<(), SwitchError>(())
            } else {
                Err::<(), SwitchError>(self.transfer_error(token, amount))
            },
    {
        let min_amount = match addr_key_find(&self.tokens, &token) {
            Some(i) => {
                proof {
                    lemma_assoc_find_at(self.tokens@, token, i as int);
                }
                self.tokens[i].1.min_amount
            },
            None => {
                proof {
                    lemma_assoc_find_none(self.tokens@, token);
                }
                return Err(SwitchError::UnsupportedAsset);
            },
        };
        if amount < min_amount {
            return Err(SwitchError::BelowMinimum);
        }
        let pool_id = self.get_pool_id(token);
        match pool_id {
            Ok(_) => Ok(()),
            Err(e) => Err(e),
        }
    }
}

} // verus!
