//! A cross-domain settlement routing engine.
//!
//! Given a request to move a quantity of a fungible asset from one
//! administrative domain ("chain") to another, the engine selects the
//! cheapest available transport among a set of pluggable transport
//! providers ("bridge adapters") and executes the transfer through the
//! chosen provider while tracking aggregate usage statistics.
//!
//! All monetary USD values are 8-decimal fixed-point unsigned integers;
//! asset amounts are integers in the asset's native unit. Arithmetic that
//! could overflow saturates: it clamps to the maximum representable value
//! instead of wrapping or aborting, so that a pathological price
//! combination cannot revert the whole settlement path.

pub mod address;
pub mod arith;
pub mod error;
pub mod table;
pub mod chainlink;
pub mod price_oracle;
pub mod adapters;
pub mod router;
