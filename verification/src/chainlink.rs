//! Price feed handles.
//!
//! Feed acquisition — talking to a real aggregator contract and deciding
//! on answer freshness — is outside this engine's scope; the engine is
//! specified only against the feed's interface. A configured feed handle
//! therefore reports one fixed reference answer.

use vstd::prelude::*;

use crate::address::Address;
use crate::error::SwitchError;

verus! {

/// The answer reported by a configured feed handle: one USD in 8-decimal
/// fixed point.
pub const FEED_ANSWER_USD: u128 = 100_000_000;

/// A handle on one registered price feed.
#[derive(Clone, Copy, Debug)]
pub struct ChainlinkPriceFeed {
    pub address: Address,
}

impl ChainlinkPriceFeed {
    /// Wraps a feed contract identifier.
    pub fn new(address: Address) -> (r: ChainlinkPriceFeed)
        ensures
            r.address == address,
    {
        ChainlinkPriceFeed { address }
    }

    /// The feed's latest USD answer, in 8-decimal fixed point.
    pub fn get_price(&self) -> (r: Result<u128, SwitchError>)
        ensures
            r == Ok::<u128, SwitchError>(FEED_ANSWER_USD),
    {
        Ok(FEED_ANSWER_USD)
    }
}

} // verus!
