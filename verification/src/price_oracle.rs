//! The price oracle.
//!
//! Converts raw quantities — gas units and token amounts — into a common
//! USD-denominated 8-decimal fixed-point unit, from per-asset and
//! per-domain feed registrations and per-domain gas prices. Feed and gas
//! price records are last-write-wins and are mutated only by the oracle's
//! administrative authority; each successful mutation appends a change
//! notification to the oracle's event log.

use vstd::prelude::*;
use vstd::pervasive::VecAdditionalExecFns;

use crate::address::Address;
use crate::arith::{sat_mul, saturating_mul};
use crate::chainlink::{ChainlinkPriceFeed, FEED_ANSWER_USD};
use crate::error::SwitchError;
use crate::table::{
    assoc_find, addr_key_find, chain_key_find, lemma_assoc_find_at, lemma_assoc_find_none,
    lemma_assoc_find_push, lemma_assoc_find_update,
};

verus! {

/// Wei per native token: the scaling divisor of the gas-cost formula.
pub const WEI_PER_NATIVE: u128 = 1_000_000_000_000_000_000;

/// Notification: a price feed was registered for an asset.
#[derive(Clone, Copy, Debug)]
pub struct TokenPriceFeedSet {
    pub token: Address,
    pub price_feed: Address,
}

/// Notification: a native-token price feed was registered for a domain.
#[derive(Clone, Copy, Debug)]
pub struct NativePriceFeedSet {
    pub chain_id: u64,
    pub price_feed: Address,
}

/// Notification: a gas price was set for a domain.
#[derive(Clone, Copy, Debug)]
pub struct GasPriceSet {
    pub chain_id: u64,
    pub gas_price: u128,
}

/// A change notification for external observers. Delivery is outside the
/// engine's scope; the oracle records each notification in order.
#[derive(Clone, Copy, Debug)]
pub enum OracleEvent {
    Token(TokenPriceFeedSet),
    Native(NativePriceFeedSet),
    Gas(GasPriceSet),
}

/// USD cost of `gas_amount` gas units:
/// `gas_amount * gas_price * native_price / WEI_PER_NATIVE`, each product
/// saturating at `u128::MAX`.
pub open spec fn gas_cost_formula(gas_amount: u128, gas_price: u128, native_price: u128) -> u128 {
    (sat_mul(sat_mul(gas_amount, gas_price), native_price) / WEI_PER_NATIVE) as u128
}

/// Computes the gas-cost formula with saturating products.
pub fn gas_cost_usd(gas_amount: u128, gas_price: u128, native_price: u128) -> (r: u128)
    ensures
        r == gas_cost_formula(gas_amount, gas_price, native_price),
{
    saturating_mul(saturating_mul(gas_amount, gas_price), native_price) / WEI_PER_NATIVE
}

/// When the full product fits the representable range, the gas-cost
/// formula is exactly `gas_amount * gas_price * native_price / 10^18`.
pub proof fn lemma_gas_cost_formula_exact(gas_amount: u128, gas_price: u128, native_price: u128)
    requires
        gas_amount * gas_price * native_price <= u128::MAX,
    ensures
        gas_cost_formula(gas_amount, gas_price, native_price) == gas_amount * gas_price
            * native_price / (WEI_PER_NATIVE as int),
{
    if native_price == 0 {
        assert(gas_amount * gas_price * native_price == 0) by (nonlinear_arith)
            requires
                native_price == 0,
        ;
        assert(sat_mul(sat_mul(gas_amount, gas_price), 0) == 0);
    } else {
        assert(gas_amount * gas_price <= gas_amount * gas_price * native_price)
            by (nonlinear_arith)
            requires
                native_price >= 1,
        ;
        assert(sat_mul(gas_amount, gas_price) == gas_amount * gas_price);
    }
}

/// When the full product exceeds the representable range, the formula
/// clamps: it yields the largest representable outcome instead of
/// wrapping.
pub proof fn lemma_gas_cost_formula_saturates(gas_amount: u128, gas_price: u128, native_price: u128)
    requires
        gas_amount * gas_price * native_price > u128::MAX,
    ensures
        gas_cost_formula(gas_amount, gas_price, native_price) == u128::MAX / WEI_PER_NATIVE,
{
    if native_price == 0 {
        assert(gas_amount * gas_price * native_price == 0) by (nonlinear_arith)
            requires
                native_price == 0,
        ;
    } else {
        if gas_amount * gas_price > u128::MAX {
            assert(sat_mul(gas_amount, gas_price) == u128::MAX);
            assert(u128::MAX * native_price >= u128::MAX) by (nonlinear_arith)
                requires
                    native_price >= 1,
            ;
            if u128::MAX * native_price > u128::MAX {
                assert(sat_mul(u128::MAX, native_price) == u128::MAX);
            } else {
                assert(u128::MAX * native_price == u128::MAX) by (nonlinear_arith)
                    requires
                        u128::MAX * native_price >= u128::MAX,
                        u128::MAX * native_price <= u128::MAX,
                ;
            }
        } else {
            assert(sat_mul(gas_amount, gas_price) == gas_amount * gas_price);
        }
    }
}

/// The oracle: feed registrations, gas prices, the administrative
/// authority, and the notification log.
pub struct PriceOracle {
    pub owner: Address,
    pub token_price_feeds: Vec<(Address, Address)>,
    pub native_price_feeds: Vec<(u64, Address)>,
    pub gas_prices: Vec<(u64, u128)>,
    pub events: Vec<OracleEvent>,
}

impl PriceOracle {
    /// The feed registered for an asset, if any.
    pub open spec fn token_feed_of(self, token: Address) -> Option<Address> {
        assoc_find(self.token_price_feeds@, token)
    }

    /// The native-token feed registered for a domain, if any.
    pub open spec fn native_feed_of(self, chain_id: u64) -> Option<Address> {
        assoc_find(self.native_price_feeds@, chain_id)
    }

    /// The gas price set for a domain, if any.
    pub open spec fn gas_price_of(self, chain_id: u64) -> Option<u128> {
        assoc_find(self.gas_prices@, chain_id)
    }

    /// Whether the oracle can normalize gas on a domain: a gas price and
    /// a native-token feed are both registered.
    pub open spec fn gas_configured(self, chain_id: u64) -> bool {
        self.gas_price_of(chain_id) is Some && self.native_feed_of(chain_id) is Some
    }

    /// The USD gas cost the oracle reports on a configured domain.
    pub open spec fn gas_cost_spec(self, chain_id: u64, gas_amount: u128) -> u128 {
        gas_cost_formula(gas_amount, self.gas_price_of(chain_id).unwrap(), FEED_ANSWER_USD)
    }

    /// A fresh oracle administered by `owner`, with no registrations.
    pub fn new(owner: Address) -> (r: PriceOracle)
        ensures
            r.owner == owner,
            r.token_price_feeds@ =~= Seq::<(Address, Address)>::empty(),
            r.native_price_feeds@ =~= Seq::<(u64, Address)>::empty(),
            r.gas_prices@ =~= Seq::<(u64, u128)>::empty(),
            r.events@ =~= Seq::<OracleEvent>::empty(),
    {
        PriceOracle {
            owner,
            token_price_feeds: Vec::new(),
            native_price_feeds: Vec::new(),
            gas_prices: Vec::new(),
            events: Vec::new(),
        }
    }

    /// Registers the price feed for an asset (last write wins). Requires
    /// the administrative authority and non-null identifiers; records a
    /// `TokenPriceFeedSet` notification.
    pub fn set_token_price_feed(&mut self, caller: Address, token: Address, price_feed: Address)
        -> (r: Result<(), SwitchError>)
        ensures
            caller != old(self).owner ==> r == Err::<(), SwitchError>(SwitchError::NotOwner)
                && *final(self) == *old(self),
            caller == old(self).owner && token.is_null() ==> r == Err::<(), SwitchError>(
                SwitchError::ZeroAddress,
            ) && *final(self) == *old(self),
            caller == old(self).owner && !token.is_null() && price_feed.is_null() ==> r == Err::<
                (),
                SwitchError,
            >(SwitchError::ZeroAddress) && *final(self) == *old(self),
            caller == old(self).owner && !token.is_null() && !price_feed.is_null() ==> {
                &&& r == Ok::<(), SwitchError>(())
                &&& final(self).token_feed_of(token) == Some(price_feed)
                &&& forall|t: Address|
                    t != token ==> final(self).token_feed_of(t) == old(self).token_feed_of(t)
                &&& final(self).owner == old(self).owner
                &&& final(self).native_price_feeds == old(self).native_price_feeds
                &&& final(self).gas_prices == old(self).gas_prices
                &&& final(self).events@ == old(self).events@.push(
                    OracleEvent::Token(TokenPriceFeedSet { token, price_feed }),
                )
            },
    {
        if !(caller == self.owner) {
            return Err(SwitchError::NotOwner);
        }
        if token.is_zero() {
            return Err(SwitchError::ZeroAddress);
        }
        if price_feed.is_zero() {
            return Err(SwitchError::ZeroAddress);
        }
        let ghost entries = self.token_price_feeds@;
        match addr_key_find(&self.token_price_feeds, &token) {
            Some(i) => {
                self.token_price_feeds.set(i, (token, price_feed));
                proof {
                    assert forall|t: Address| #[trigger]
                        assoc_find(self.token_price_feeds@, t) == (if t == token {
                            Some(price_feed)
                        } else {
                            assoc_find(entries, t)
                        }) by {
                        lemma_assoc_find_update(entries, i as int, token, price_feed, t);
                    }
                }
            },
            None => {
                self.token_price_feeds.push((token, price_feed));
                proof {
                    assert forall|t: Address| #[trigger]
                        assoc_find(self.token_price_feeds@, t) == (if t == token {
                            Some(price_feed)
                        } else {
                            assoc_find(entries, t)
                        }) by {
                        lemma_assoc_find_push(entries, token, price_feed, t);
                    }
                }
            },
        }
        self.events.push(OracleEvent::Token(TokenPriceFeedSet { token, price_feed }));
        Ok(())
    }

    /// Registers the native-token price feed for a domain (last write
    /// wins). Requires the administrative authority, a non-zero domain
    /// and a non-null feed; records a `NativePriceFeedSet` notification.
    pub fn set_native_price_feed(&mut self, caller: Address, chain_id: u64, price_feed: Address)
        -> (r: Result<(), SwitchError>)
        ensures
            caller != old(self).owner ==> r == Err::<(), SwitchError>(SwitchError::NotOwner)
                && *final(self) == *old(self),
            caller == old(self).owner && chain_id == 0 ==> r == Err::<(), SwitchError>(
                SwitchError::ZeroChainId,
            ) && *final(self) == *old(self),
            caller == old(self).owner && chain_id != 0 && price_feed.is_null() ==> r == Err::<
                (),
                SwitchError,
            >(SwitchError::ZeroAddress) && *final(self) == *old(self),
            caller == old(self).owner && chain_id != 0 && !price_feed.is_null() ==> {
                &&& r == Ok::<(), SwitchError>(())
                &&& final(self).native_feed_of(chain_id) == Some(price_feed)
                &&& forall|c: u64|
                    c != chain_id ==> final(self).native_feed_of(c) == old(self).native_feed_of(c)
                &&& final(self).owner == old(self).owner
                &&& final(self).token_price_feeds == old(self).token_price_feeds
                &&& final(self).gas_prices == old(self).gas_prices
                &&& final(self).events@ == old(self).events@.push(
                    OracleEvent::Native(NativePriceFeedSet { chain_id, price_feed }),
                )
            },
    {
        if !(caller == self.owner) {
            return Err(SwitchError::NotOwner);
        }
        if chain_id == 0 {
            return Err(SwitchError::ZeroChainId);
        }
        if price_feed.is_zero() {
            return Err(SwitchError::ZeroAddress);
        }
        let ghost entries = self.native_price_feeds@;
        match chain_key_find(&self.native_price_feeds, chain_id) {
            Some(i) => {
                self.native_price_feeds.set(i, (chain_id, price_feed));
                proof {
                    assert forall|c: u64| #[trigger]
                        assoc_find(self.native_price_feeds@, c) == (if c == chain_id {
                            Some(price_feed)
                        } else {
                            assoc_find(entries, c)
                        }) by {
                        lemma_assoc_find_update(entries, i as int, chain_id, price_feed, c);
                    }
                }
            },
            None => {
                self.native_price_feeds.push((chain_id, price_feed));
                proof {
                    assert forall|c: u64| #[trigger]
                        assoc_find(self.native_price_feeds@, c) == (if c == chain_id {
                            Some(price_feed)
                        } else {
                            assoc_find(entries, c)
                        }) by {
                        lemma_assoc_find_push(entries, chain_id, price_feed, c);
                    }
                }
            },
        }
        self.events.push(OracleEvent::Native(NativePriceFeedSet { chain_id, price_feed }));
        Ok(())
    }

    /// Sets the gas price for a domain (last write wins). Requires the
    /// administrative authority, a non-zero domain and a non-zero price;
    /// records a `GasPriceSet` notification.
    pub fn set_gas_price(&mut self, caller: Address, chain_id: u64, gas_price: u128) -> (r: Result<
        (),
        SwitchError,
    >)
        ensures
            caller != old(self).owner ==> r == Err::<(), SwitchError>(SwitchError::NotOwner)
                && *final(self) == *old(self),
            caller == old(self).owner && chain_id == 0 ==> r == Err::<(), SwitchError>(
                SwitchError::ZeroChainId,
            ) && *final(self) == *old(self),
            caller == old(self).owner && chain_id != 0 && gas_price == 0 ==> r == Err::<
                (),
                SwitchError,
            >(SwitchError::ZeroGasPrice) && *final(self) == *old(self),
            caller == old(self).owner && chain_id != 0 && gas_price != 0 ==> {
                &&& r == Ok::<(), SwitchError>(())
                &&& final(self).gas_price_of(chain_id) == Some(gas_price)
                &&& forall|c: u64|
                    c != chain_id ==> final(self).gas_price_of(c) == old(self).gas_price_of(c)
                &&& final(self).owner == old(self).owner
                &&& final(self).token_price_feeds == old(self).token_price_feeds
                &&& final(self).native_price_feeds == old(self).native_price_feeds
                &&& final(self).events@ == old(self).events@.push(
                    OracleEvent::Gas(GasPriceSet { chain_id, gas_price }),
                )
            },
    {
        if !(caller == self.owner) {
            return Err(SwitchError::NotOwner);
        }
        if chain_id == 0 {
            return Err(SwitchError::ZeroChainId);
        }
        if gas_price == 0 {
            return Err(SwitchError::ZeroGasPrice);
        }
        let ghost entries = self.gas_prices@;
        match chain_key_find(&self.gas_prices, chain_id) {
            Some(i) => {
                self.gas_prices.set(i, (chain_id, gas_price));
                proof {
                    assert forall|c: u64| #[trigger]
                        assoc_find(self.gas_prices@, c) == (if c == chain_id {
                            Some(gas_price)
                        } else {
                            assoc_find(entries, c)
                        }) by {
                        lemma_assoc_find_update(entries, i as int, chain_id, gas_price, c);
                    }
                }
            },
            None => {
                self.gas_prices.push((chain_id, gas_price));
                proof {
                    assert forall|c: u64| #[trigger]
                        assoc_find(self.gas_prices@, c) == (if c == chain_id {
                            Some(gas_price)
                        } else {
                            assoc_find(entries, c)
                        }) by {
                        lemma_assoc_find_push(entries, chain_id, gas_price, c);
                    }
                }
            },
        }
        self.events.push(OracleEvent::Gas(GasPriceSet { chain_id, gas_price }));
        Ok(())
    }

    /// The feed handle registered for an asset.
    fn get_price_feed(&self, token: Address) -> (r: Result<ChainlinkPriceFeed, SwitchError>)
        ensures
            r matches Ok(feed) ==> self.token_feed_of(token) == Some(feed.address),
            r is Err ==> r == Err::<ChainlinkPriceFeed, SwitchError>(SwitchError::FeedNotConfigured)
                && self.token_feed_of(token) is None,
    {
        match addr_key_find(&self.token_price_feeds, &token) {
            Some(i) => {
                let feed_address = self.token_price_feeds[i].1;
                proof {
                    lemma_assoc_find_at(self.token_price_feeds@, token, i as int);
                }
                Ok(ChainlinkPriceFeed::new(feed_address))
            },
            None => {
                proof {
                    lemma_assoc_find_none(self.token_price_feeds@, token);
                }
                Err(SwitchError::FeedNotConfigured)
            },
        }
    }

    /// The native-token feed handle registered for a domain.
    fn get_native_price_feed(&self, chain_id: u64) -> (r: Result<ChainlinkPriceFeed, SwitchError>)
        ensures
            r matches Ok(feed) ==> self.native_feed_of(chain_id) == Some(feed.address),
            r is Err ==> r == Err::<ChainlinkPriceFeed, SwitchError>(
                SwitchError::FeedNotConfigured,
            ) && self.native_feed_of(chain_id) is None,
    {
        match chain_key_find(&self.native_price_feeds, chain_id) {
            Some(i) => {
                let feed_address = self.native_price_feeds[i].1;
                proof {
                    lemma_assoc_find_at(self.native_price_feeds@, chain_id, i as int);
                }
                Ok(ChainlinkPriceFeed::new(feed_address))
            },
            None => {
                proof {
                    lemma_assoc_find_none(self.native_price_feeds@, chain_id);
                }
                Err(SwitchError::FeedNotConfigured)
            },
        }
    }

    /// The USD price of an asset (8 decimals). Succeeds exactly when a
    /// feed is registered for the asset.
    pub fn get_token_price(&self, token: Address) -> (r: Result<u128, SwitchError>)
        ensures
            r == if self.token_feed_of(token) is Some {
                Ok::<u128, SwitchError>(FEED_ANSWER_USD)
            } else {
                Err::<u128, SwitchError>(SwitchError::FeedNotConfigured)
            },
    {
        let price_feed = match self.get_price_feed(token) {
            Ok(feed) => feed,
            Err(e) => {
                return Err(e);
            },
        };
        price_feed.get_price()
    }

    /// The gas price of a domain, in wei. Succeeds exactly when a gas
    /// price is set for the domain.
    pub fn get_gas_price(&self, chain_id: u64) -> (r: Result<u128, SwitchError>)
        ensures
            r == match self.gas_price_of(chain_id) {
                Some(p) => Ok::<u128, SwitchError>(p),
                None => Err::<u128, SwitchError>(SwitchError::GasPriceNotConfigured),
            },
    {
        match chain_key_find(&self.gas_prices, chain_id) {
            Some(i) => {
                proof {
                    lemma_assoc_find_at(self.gas_prices@, chain_id, i as int);
                }
                Ok(self.gas_prices[i].1)
            },
            None => {
                proof {
                    lemma_assoc_find_none(self.gas_prices@, chain_id);
                }
                Err(SwitchError::GasPriceNotConfigured)
            },
        }
    }

    /// The USD price of a domain's native token (8 decimals). Succeeds
    /// exactly when a native feed is registered for the domain.
    pub fn get_native_token_price(&self, chain_id: u64) -> (r: Result<u128, SwitchError>)
        ensures
            r == if self.native_feed_of(chain_id) is Some {
                Ok::<u128, SwitchError>(FEED_ANSWER_USD)
            } else {
                Err::<u128, SwitchError>(SwitchError::FeedNotConfigured)
            },
    {
        let price_feed = match self.get_native_price_feed(chain_id) {
            Ok(feed) => feed,
            Err(e) => {
                return Err(e);
            },
        };
        price_feed.get_price()
    }

    /// The USD cost (8 decimals) of `gas_amount` gas units on a domain:
    /// `gas_amount * gas_price * native_price / 10^18` with saturating
    /// products. Fails with the missing registration otherwise — the gas
    /// price is consulted first.
    pub fn calculate_gas_cost(&self, chain_id: u64, gas_amount: u128) -> (r: Result<
        u128,
        SwitchError,
    >)
        ensures
            self.gas_price_of(chain_id) is None ==> r == Err::<u128, SwitchError>(
                SwitchError::GasPriceNotConfigured,
            ),
            self.gas_price_of(chain_id) is Some && self.native_feed_of(chain_id) is None ==> r
                == Err::<u128, SwitchError>(SwitchError::FeedNotConfigured),
            self.gas_configured(chain_id) ==> r == Ok::<u128, SwitchError>(
                self.gas_cost_spec(chain_id, gas_amount),
            ),
    {
        let gas_price = match self.get_gas_price(chain_id) {
            Ok(p) => p,
            Err(e) => {
                return Err(e);
            },
        };
        let native_price = match self.get_native_token_price(chain_id) {
            Ok(p) => p,
            Err(e) => {
                return Err(e);
            },
        };
        Ok(gas_cost_usd(gas_amount, gas_price, native_price))
    }
}

} // verus!
