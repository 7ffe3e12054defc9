//! Bridge adapters: the pluggable transport providers.
//!
//! Each provider variant implements the same capability contract — it
//! describes itself, quotes a prospective transfer, and executes one —
//! with its own fee policy and fixed time/gas estimates. The provider set
//! is closed, so the variants are gathered in one tagged enum, and the
//! router dispatches through it.

pub mod across;
pub mod hop;
pub mod mock;
pub mod stargate;

use vstd::prelude::*;

use crate::address::Address;
use crate::error::SwitchError;
use self::across::AcrossBridgeAdapter;
use self::hop::HopBridgeAdapter;
use self::mock::MockBridgeAdapter;
use self::stargate::StargateAdapter;

verus! {

/// Basis points per whole: the denominator of proportional fees.
pub const BPS_DENOMINATOR: u128 = 10_000;

/// The admission cap on proportional fee parameters: 10%.
pub const MAX_FEE_BPS: u128 = 1_000;

/// A provider's quote for a prospective transfer. Produced transiently,
/// never persisted.
#[derive(Debug)]
pub struct BridgeRoute {
    pub bridge_name: String,
    pub estimated_time: u128,
    pub estimated_gas: u128,
    pub fee: u128,
    pub available: bool,
}

/// One admitted transport provider. The variants are the fee-policy
/// flavours: flat-fee (mock), proportional-with-cap (Across),
/// proportional-plus-liquidity-fee (Hop), and pool-based (Stargate).
pub enum BridgeAdapter {
    Mock(MockBridgeAdapter),
    Across(AcrossBridgeAdapter),
    Hop(HopBridgeAdapter),
    Stargate(StargateAdapter),
}

impl BridgeAdapter {
    /// Whether the provider admits the asset.
    pub open spec fn supports(&self, token: Address) -> bool {
        match self {
            BridgeAdapter::Mock(a) => a.supports(token),
            BridgeAdapter::Across(a) => a.supports(token),
            BridgeAdapter::Hop(a) => a.supports(token),
            BridgeAdapter::Stargate(a) => a.supports(token),
        }
    }

    /// The provider's configured minimum amount for the asset.
    pub open spec fn min_amount_of(&self, token: Address) -> u128 {
        match self {
            BridgeAdapter::Mock(_) => 0,
            BridgeAdapter::Across(a) => a.min_amount_of(token),
            BridgeAdapter::Hop(a) => a.min_amount_of(token),
            BridgeAdapter::Stargate(a) => a.min_amount_of(token),
        }
    }

    /// Whether the provider yields a quote: the asset is admitted and the
    /// amount reaches the configured minimum.
    pub open spec fn quotes(&self, token: Address, amount: u128) -> bool {
        self.supports(token) && amount >= self.min_amount_of(token)
    }

    /// The provider's fee, in native asset units, under its fee policy.
    pub open spec fn fee_spec(&self, amount: u128) -> u128 {
        match self {
            BridgeAdapter::Mock(a) => a.fee_spec(amount),
            BridgeAdapter::Across(a) => a.fee_spec(amount),
            BridgeAdapter::Hop(a) => a.fee_spec(amount),
            BridgeAdapter::Stargate(a) => a.fee_spec(amount),
        }
    }

    /// The provider's fixed gas estimate.
    pub open spec fn gas_estimate(&self) -> u128 {
        match self {
            BridgeAdapter::Mock(_) => mock::MOCK_ESTIMATED_GAS,
            BridgeAdapter::Across(_) => across::ACROSS_ESTIMATED_GAS,
            BridgeAdapter::Hop(_) => hop::HOP_ESTIMATED_GAS,
            BridgeAdapter::Stargate(_) => stargate::STARGATE_ESTIMATED_GAS,
        }
    }

    /// The provider's fixed time estimate, in seconds.
    pub open spec fn time_estimate(&self) -> u128 {
        match self {
            BridgeAdapter::Mock(_) => mock::MOCK_ESTIMATED_TIME,
            BridgeAdapter::Across(_) => across::ACROSS_ESTIMATED_TIME,
            BridgeAdapter::Hop(_) => hop::HOP_ESTIMATED_TIME,
            BridgeAdapter::Stargate(_) => stargate::STARGATE_ESTIMATED_TIME,
        }
    }

    /// The provider's display name.
    pub open spec fn name_spec(&self) -> Seq<char> {
        match self {
            BridgeAdapter::Mock(_) => "Mock Bridge"@,
            BridgeAdapter::Across(_) => "Across Protocol"@,
            BridgeAdapter::Hop(_) => "Hop Protocol"@,
            BridgeAdapter::Stargate(_) => "Stargate"@,
        }
    }

    /// Whether the provider reports itself active.
    pub open spec fn active_spec(&self) -> bool {
        match self {
            BridgeAdapter::Mock(a) => a.active,
            BridgeAdapter::Across(_) => true,
            BridgeAdapter::Hop(_) => true,
            BridgeAdapter::Stargate(_) => true,
        }
    }

    /// Whether a transfer passes the provider's admission checks.
    pub open spec fn transfer_admissible(&self, token: Address, amount: u128, recipient: Address)
        -> bool {
        match self {
            BridgeAdapter::Mock(a) => a.transfer_admissible(token, amount, recipient),
            BridgeAdapter::Across(a) => a.transfer_admissible(token, amount),
            BridgeAdapter::Hop(a) => a.transfer_admissible(token, amount),
            BridgeAdapter::Stargate(a) => a.transfer_admissible(token, amount),
        }
    }

    /// The error an inadmissible transfer fails with.
    pub open spec fn transfer_error(&self, token: Address, amount: u128, recipient: Address)
        -> SwitchError {
        match self {
            BridgeAdapter::Mock(a) => a.transfer_error(token, amount, recipient),
            BridgeAdapter::Across(a) => a.transfer_error(token, amount),
            BridgeAdapter::Hop(a) => a.transfer_error(token, amount),
            BridgeAdapter::Stargate(a) => a.transfer_error(token, amount),
        }
    }

    /// Describes the provider: its name and whether it is active.
    pub fn get_bridge_info(&self) -> (r: (String, bool))
        ensures
            r.0@ == self.name_spec(),
            r.1 == self.active_spec(),
    {
        match self {
            BridgeAdapter::Mock(a) => a.get_bridge_info(),
            BridgeAdapter::Across(a) => a.get_bridge_info(),
            BridgeAdapter::Hop(a) => a.get_bridge_info(),
            BridgeAdapter::Stargate(a) => a.get_bridge_info(),
        }
    }

    /// Quotes a transfer. Fails with `UnsupportedAsset` if the asset is
    /// not admitted, with `BelowMinimum` if the amount is below the
    /// provider's configured minimum; otherwise returns the provider's
    /// fee and its fixed time/gas estimates. Side-effect-free.
    pub fn get_route(&self, from_chain: u64, to_chain: u64, token: Address, amount: u128) -> (r:
        Result<BridgeRoute, SwitchError>)
        ensures
            !self.supports(token) ==> r == Err::<BridgeRoute, SwitchError>(
                SwitchError::UnsupportedAsset,
            ),
            self.supports(token) && amount < self.min_amount_of(token) ==> r == Err::<
                BridgeRoute,
                SwitchError,
            >(SwitchError::BelowMinimum),
            self.quotes(token, amount) ==> (r matches Ok(route) && route.bridge_name@
                == self.name_spec() && route.estimated_time == self.time_estimate()
                && route.estimated_gas == self.gas_estimate() && route.fee == self.fee_spec(amount)
                && route.available),
    {
        match self {
            BridgeAdapter::Mock(a) => a.get_route(from_chain, to_chain, token, amount),
            BridgeAdapter::Across(a) => a.get_route(from_chain, to_chain, token, amount),
            BridgeAdapter::Hop(a) => a.get_route(from_chain, to_chain, token, amount),
            BridgeAdapter::Stargate(a) => a.get_route(from_chain, to_chain, token, amount),
        }
    }

    /// Executes a transfer through the provider: the same admission
    /// checks as the quote, and the provider's downstream transport
    /// endpoint must be configured. The cross-domain invocation itself is
    /// outside the engine's scope; the operation is all-or-nothing.
    pub fn bridge_tokens(
        &self,
        to_chain: u64,
        token: Address,
        amount: u128,
        recipient: Address,
        _data: Vec<u8>,
    ) -> (r: Result<(), SwitchError>)
        ensures
            r == if self.transfer_admissible(token, amount, recipient) {
                Ok::<(), SwitchError>(())
            } else {
                Err::<(), SwitchError>(self.transfer_error(token, amount, recipient))
            },
    {
        match self {
            BridgeAdapter::Mock(a) => a.bridge_tokens(to_chain, token, amount, recipient, _data),
            BridgeAdapter::Across(a) => a.bridge_tokens(to_chain, token, amount, recipient, _data),
            BridgeAdapter::Hop(a) => a.bridge_tokens(to_chain, token, amount, recipient, _data),
            BridgeAdapter::Stargate(a) => a.bridge_tokens(
                to_chain,
                token,
                amount,
                recipient,
                _data,
            ),
        }
    }
}

} // verus!
