//! The engine's error taxonomy.
//!
//! Every failure of a public operation carries one of these variants.
//! Each variant belongs to one of four kinds: authorization failures,
//! validation failures, lookups that found nothing, and operations that
//! conflict with the component's current state. A failed operation never
//! commits a partial state change.

use vstd::prelude::*;

verus! {

/// What a public operation of the engine can fail with.
#[derive(Clone, Copy, Debug, PartialEq, Eq, Structural)]
pub enum SwitchError {
    /// The caller is not the stored administrative authority.
    NotOwner,
    /// A null (all-zero) identifier where a real one is required.
    ZeroAddress,
    /// A zero domain identifier.
    ZeroChainId,
    /// A zero gas price.
    ZeroGasPrice,
    /// A zero asset amount.
    ZeroAmount,
    /// A proportional fee parameter above the 10% cap.
    FeeTooHigh,
    /// The asset is not admitted by the component asked about it.
    UnsupportedAsset,
    /// The amount is below the provider's configured minimum for the asset.
    BelowMinimum,
    /// No price feed is registered for the asset or domain.
    FeedNotConfigured,
    /// No gas price is registered for the domain.
    GasPriceNotConfigured,
    /// The provider's downstream transport endpoint is unconfigured.
    EndpointNotSet,
    /// The provider is already admitted to the registry.
    AdapterExists,
    /// The provider is not admitted to the registry.
    AdapterNotFound,
    /// The probed provider reported itself inactive.
    ProviderUnsupported,
    /// No admitted provider produced a usable quote.
    NoRouteAvailable,
    /// The router was already initialized.
    AlreadyInitialized,
    /// A null oracle reference was handed to initialization.
    InvalidOracle,
}

/// The four kinds of failure.
#[derive(Clone, Copy, Debug, PartialEq, Eq, Structural)]
pub enum ErrorKind {
    Authorization,
    Validation,
    NotFound,
    State,
}

impl SwitchError {
    /// The kind a variant belongs to.
    pub open spec fn kind_spec(self) -> ErrorKind {
        match self {
            SwitchError::NotOwner => ErrorKind::Authorization,
            SwitchError::ZeroAddress => ErrorKind::Validation,
            SwitchError::ZeroChainId => ErrorKind::Validation,
            SwitchError::ZeroGasPrice => ErrorKind::Validation,
            SwitchError::ZeroAmount => ErrorKind::Validation,
            SwitchError::FeeTooHigh => ErrorKind::Validation,
            SwitchError::UnsupportedAsset => ErrorKind::Validation,
            SwitchError::BelowMinimum => ErrorKind::Validation,
            SwitchError::ProviderUnsupported => ErrorKind::Validation,
            SwitchError::InvalidOracle => ErrorKind::Validation,
            SwitchError::FeedNotConfigured => ErrorKind::NotFound,
            SwitchError::GasPriceNotConfigured => ErrorKind::NotFound,
            SwitchError::AdapterNotFound => ErrorKind::NotFound,
            SwitchError::NoRouteAvailable => ErrorKind::NotFound,
            SwitchError::EndpointNotSet => ErrorKind::State,
            SwitchError::AdapterExists => ErrorKind::State,
            SwitchError::AlreadyInitialized => ErrorKind::State,
        }
    }

    /// Returns the kind of this failure.
    pub fn kind(&self) -> (k: ErrorKind)
        ensures
            k == self.kind_spec(),
    {
        match self {
            SwitchError::NotOwner => ErrorKind::Authorization,
            SwitchError::ZeroAddress => ErrorKind::Validation,
            SwitchError::ZeroChainId => ErrorKind::Validation,
            SwitchError::ZeroGasPrice => ErrorKind::Validation,
            SwitchError::ZeroAmount => ErrorKind::Validation,
            SwitchError::FeeTooHigh => ErrorKind::Validation,
            SwitchError::UnsupportedAsset => ErrorKind::Validation,
            SwitchError::BelowMinimum => ErrorKind::Validation,
            SwitchError::ProviderUnsupported => ErrorKind::Validation,
            SwitchError::InvalidOracle => ErrorKind::Validation,
            SwitchError::FeedNotConfigured => ErrorKind::NotFound,
            SwitchError::GasPriceNotConfigured => ErrorKind::NotFound,
            SwitchError::AdapterNotFound => ErrorKind::NotFound,
            SwitchError::NoRouteAvailable => ErrorKind::NotFound,
            SwitchError::EndpointNotSet => ErrorKind::State,
            SwitchError::AdapterExists => ErrorKind::State,
            SwitchError::AlreadyInitialized => ErrorKind::State,
        }
    }

    /// A short human-readable reason for the failure.
    pub fn message(&self) -> (m: &'static str) {
        match self {
            SwitchError::NotOwner => "caller is not the administrative authority",
            SwitchError::ZeroAddress => "null identifier",
            SwitchError::ZeroChainId => "invalid chain id",
            SwitchError::ZeroGasPrice => "invalid gas price",
            SwitchError::ZeroAmount => "invalid amount",
            SwitchError::FeeTooHigh => "fee parameter above cap",
            SwitchError::UnsupportedAsset => "asset not supported",
            SwitchError::BelowMinimum => "amount below minimum",
            SwitchError::FeedNotConfigured => "price feed not set",
            SwitchError::GasPriceNotConfigured => "gas price not set",
            SwitchError::EndpointNotSet => "transport endpoint not set",
            SwitchError::AdapterExists => "adapter exists",
            SwitchError::AdapterNotFound => "adapter not found",
            SwitchError::ProviderUnsupported => "bridge not supported",
            SwitchError::NoRouteAvailable => "no route available",
            SwitchError::AlreadyInitialized => "already initialized",
            SwitchError::InvalidOracle => "invalid oracle",
        }
    }
}

} // verus!
