//! The flat-fee reference provider.
//!
//! Charges one part in a thousand of the amount, with fixed estimates of
//! 300 seconds and 100,000 gas units. It also carries a switchable
//! activity flag, so an administrator can take it out of service and the
//! router's admission probe can observe an inactive provider.

use vstd::prelude::*;
use vstd::string::StringExecFns;

use crate::address::Address;
use crate::error::SwitchError;
use super::BridgeRoute;

verus! {

/// Fixed time estimate, in seconds.
pub const MOCK_ESTIMATED_TIME: u128 = 300;

/// Fixed gas estimate.
pub const MOCK_ESTIMATED_GAS: u128 = 100_000;

/// The flat fee is `amount / FLAT_FEE_DIVISOR`: one tenth of a percent.
pub const FLAT_FEE_DIVISOR: u128 = 1_000;

/// The flat-fee reference provider.
pub struct MockBridgeAdapter {
    pub owner: Address,
    pub supported_tokens: Vec<Address>,
    pub active: bool,
}

impl MockBridgeAdapter {
    /// Whether the provider admits the asset.
    pub open spec fn supports(&self, token: Address) -> bool {
        self.supported_tokens@.contains(token)
    }

    /// Flat fee: one part in a thousand of the amount.
    pub open spec fn fee_spec(&self, amount: u128) -> u128 {
        amount / FLAT_FEE_DIVISOR
    }

    /// Whether a transfer passes the admission checks: admitted asset,
    /// positive amount, non-null recipient.
    pub open spec fn transfer_admissible(
        &self,
        token: Address,
        amount: u128,
        recipient: Address,
    ) -> bool {
        self.supports(token) && amount > 0 && !recipient.is_null()
    }

    /// The first failing admission check of a transfer.
    pub open spec fn transfer_error(&self, token: Address, amount: u128, recipient: Address)
        -> SwitchError {
        if !self.supports(token) {
            SwitchError::UnsupportedAsset
        } else if amount == 0 {
            SwitchError::ZeroAmount
        } else {
            SwitchError::ZeroAddress
        }
    }

    /// A fresh provider administered by `owner`, active, admitting
    /// nothing.
    pub fn new(owner: Address) -> (r: MockBridgeAdapter)
        ensures
            r.owner == owner,
            r.supported_tokens@ =~= Seq::<Address>::empty(),
            r.active,
    {
        MockBridgeAdapter { owner, supported_tokens: Vec::new(), active: true }
    }

    /// Admits an asset. Requires the administrative authority and a
    /// non-null asset identifier.
    pub fn add_supported_token(&mut self, caller: Address, token: Address) -> (r: Result<
        (),
        SwitchError,
    >)
        ensures
            caller != old(self).owner ==> r == Err::<(), SwitchError>(SwitchError::NotOwner)
                && *final(self) == *old(self),
            caller == old(self).owner && token.is_null() ==> r == Err::<(), SwitchError>(
                SwitchError::ZeroAddress,
            ) && *final(self) == *old(self),
            caller == old(self).owner && !token.is_null() ==> {
                &&& r == Ok::<(), SwitchError>(())
                &&& final(self).supports(token)
                &&& forall|t: Address|
                    t != token ==> final(self).supports(t) == old(self).supports(t)
                &&& final(self).owner == old(self).owner
                &&& final(self).active == old(self).active
            },
    {
        if !(caller == self.owner) {
            return Err(SwitchError::NotOwner);
        }
        if token.is_zero() {
            return Err(SwitchError::ZeroAddress);
        }
        let ghost entries = self.supported_tokens@;
        if !crate::table::addr_list_contains(&self.supported_tokens, &token) {
            self.supported_tokens.push(token);
            proof {
                assert forall|t: Address| t != token implies #[trigger] self.supports(t) == entries.contains(
                    t,
                ) by {
                    if entries.contains(t) {
                        let i = choose|i: int| 0 <= i < entries.len() && entries[i] == t;
                        assert(self.supported_tokens@[i] == t);
                    } else {
                        assert forall|i: int| 0 <= i < self.supported_tokens@.len() implies self.supported_tokens@[i]
                            != t by {
                            if i < entries.len() {
                                assert(entries[i] != t);
                            }
                        }
                    }
                }
                assert(self.supported_tokens@[entries.len() as int] == token);
            }
        }
        Ok(())
    }

    /// Switches the provider's activity flag. Requires the
    /// administrative authority.
    pub fn set_active(&mut self, caller: Address, active: bool) -> (r: Result<(), SwitchError>)
        ensures
            caller != old(self).owner ==> r == Err::<(), SwitchError>(SwitchError::NotOwner)
                && *final(self) == *old(self),
            caller == old(self).owner ==> {
                &&& r == Ok::<(), SwitchError>(())
                &&& final(self).active == active
                &&& final(self).owner == old(self).owner
                &&& final(self).supported_tokens == old(self).supported_tokens
            },
    {
        if !(caller == self.owner) {
            return Err(SwitchError::NotOwner);
        }
        self.active = active;
        Ok(())
    }

    /// Describes the provider.
    pub fn get_bridge_info(&self) -> (r: (String, bool))
        ensures
            r.0@ == "Mock Bridge"@,
            r.1 == self.active,
    {
        (String::from_str("Mock Bridge"), self.active)
    }

    /// Quotes a transfer: flat fee, fixed estimates.
    pub fn get_route(&self, from_chain: u64, to_chain: u64, token: Address, amount: u128) -> (r:
        Result<BridgeRoute, SwitchError>)
        ensures
            !self.supports(token) ==> r == Err::<BridgeRoute, SwitchError>(
                SwitchError::UnsupportedAsset,
            ),
            self.supports(token) ==> (r matches Ok(route) && route.bridge_name@ == "Mock Bridge"@
                && route.estimated_time == MOCK_ESTIMATED_TIME && route.estimated_gas
                == MOCK_ESTIMATED_GAS && route.fee == self.fee_spec(amount) && route.available),
    {
        if !crate::table::addr_list_contains(&self.supported_tokens, &token) {
            return Err(SwitchError::UnsupportedAsset);
        }
        Ok(
            BridgeRoute {
                bridge_name: String::from_str("Mock Bridge"),
                estimated_time: MOCK_ESTIMATED_TIME,
                estimated_gas: MOCK_ESTIMATED_GAS,
                fee: amount / FLAT_FEE_DIVISOR,
                available: true,
            },
        )
    }

    /// Executes a transfer: the admission checks, then success; the
    /// cross-domain invocation itself is outside the engine's scope.
    pub fn bridge_tokens(
        &self,
        to_chain: u64,
        token: Address,
        amount: u128,
        recipient: Address,
        _data: Vec<u8>,
    ) -> (r: Result<(), SwitchError>)
        ensures
            r == if self.transfer_admissible(token, amount, recipient) {
                Ok::<(), SwitchError>(())
            } else {
                Err::<(), SwitchError>(self.transfer_error(token, amount, recipient))
            },
    {
        if !crate::table::addr_list_contains(&self.supported_tokens, &token) {
            return Err(SwitchError::UnsupportedAsset);
        }
        if amount == 0 {
            return Err(SwitchError::ZeroAmount);
        }
        if recipient.is_zero() {
            return Err(SwitchError::ZeroAddress);
        }
        Ok(())
    }
}

} // verus!
