//! The router: the engine's composition root.
//!
//! The router owns one price oracle and the ordered, deduplicated
//! registry of admitted providers, discovers the cheapest route for a
//! transfer request, executes transfers through the chosen provider, and
//! tracks aggregate statistics. Every mutating operation is
//! all-or-nothing: when it fails, none of its intended state changes take
//! effect.
//!
//! Route discovery compares providers by their oracle-normalized USD gas
//! cost alone; the native-asset fee is carried through for reporting but
//! is not part of the comparison basis. Ties keep the
//! earliest-registered provider.

use vstd::prelude::*;
use vstd::pervasive::VecAdditionalExecFns;

use crate::address::Address;
use crate::adapters::BridgeAdapter;
use crate::arith::sat_mul;
use crate::arith::saturating_mul;
use crate::chainlink::FEED_ANSWER_USD;
use crate::error::SwitchError;
use crate::price_oracle::{PriceOracle, WEI_PER_NATIVE};
use crate::table::{
    assoc_find, addr_key_find, addr_list_contains, lemma_assoc_find_at, lemma_assoc_find_none,
    lemma_assoc_find_push, lemma_assoc_find_update,
};

verus! {

/// A ranked route: a provider's quote enriched with its oracle-normalized
/// USD costs and the amount left after fees. Produced transiently, never
/// persisted.
#[derive(Debug)]
pub struct RouteInfo {
    pub bridge_adapter: Address,
    pub bridge_name: String,
    pub estimated_time: u128,
    pub estimated_gas_cost: u128,
    pub bridge_fee: u128,
    pub total_cost_usd: u128,
    pub amount_out: u128,
    pub available: bool,
}

/// A change notification for external observers: a provider was
/// admitted to or removed from the registry. Delivery is outside the
/// engine's scope; the router records each notification in order.
#[derive(Clone, Copy, Debug)]
pub enum RouterEvent {
    AdapterAdded { adapter: Address },
    AdapterRemoved { adapter: Address },
}

/// A request to move `amount` of `token` from one domain to another.
#[derive(Clone, Copy, Debug)]
pub struct TransferRequest {
    pub from_chain: u64,
    pub to_chain: u64,
    pub token: Address,
    pub amount: u128,
    pub recipient: Address,
}

/// The router. `oracle` is `None` until `initialize` runs; the
/// administrative authority is fixed at initialization. The registry
/// keeps an append-ordered membership history (`is_bridge_adapter`) whose
/// flags are flipped, not erased, on removal, beside the ordered list of
/// currently admitted providers.
pub struct StablecoinRouter {
    pub owner: Address,
    pub oracle: Option<PriceOracle>,
    pub bridge_adapters: Vec<(Address, BridgeAdapter)>,
    pub is_bridge_adapter: Vec<(Address, bool)>,
    pub supported_tokens: Vec<Address>,
    pub total_transfers: u128,
    pub total_volume_usd: u128,
    pub events: Vec<RouterEvent>,
}

impl StablecoinRouter {
    /// Whether `initialize` has run.
    pub open spec fn is_initialized(&self) -> bool {
        self.oracle is Some
    }

    /// The owned oracle (meaningful once initialized).
    pub open spec fn oracle_spec(&self) -> PriceOracle {
        self.oracle.unwrap()
    }

    /// Whether `caller` may perform administrative mutations.
    pub open spec fn auth_ok(&self, caller: Address) -> bool {
        self.is_initialized() && caller == self.owner
    }

    /// The ordered identifiers of the admitted providers.
    pub open spec fn adapter_ids(&self) -> Seq<Address> {
        Seq::new(self.bridge_adapters@.len(), |i: int| self.bridge_adapters@[i].0)
    }

    /// The provider at registry position `i`.
    pub open spec fn adapter_at(&self, i: int) -> BridgeAdapter {
        self.bridge_adapters@[i].1
    }

    /// Whether a provider's membership flag is set.
    pub open spec fn is_adapter(&self, id: Address) -> bool {
        assoc_find(self.is_bridge_adapter@, id) == Some(true)
    }

    /// Whether the router admits the asset.
    pub open spec fn token_supported(&self, token: Address) -> bool {
        self.supported_tokens@.contains(token)
    }

    /// Registry integrity: no duplicate providers, membership flags agree
    /// with the ordered list, and nothing is registered before
    /// initialization.
    pub open spec fn wf(&self) -> bool {
        &&& forall|i: int, j: int|
            0 <= i < j < self.adapter_ids().len() ==> self.adapter_ids()[i]
                != self.adapter_ids()[j]
        &&& forall|i: int|
            0 <= i < self.adapter_ids().len() ==> self.is_adapter(#[trigger] self.adapter_ids()[i])
        &&& forall|id: Address| #[trigger]
            self.is_adapter(id) ==> self.adapter_ids().contains(id)
        &&& !self.is_initialized() ==> self.bridge_adapters@.len() == 0
            && self.is_bridge_adapter@.len() == 0 && self.supported_tokens@.len() == 0
    }

    /// Whether provider `i` yields a quote for the request.
    pub open spec fn candidate(&self, request: TransferRequest, i: int) -> bool {
        0 <= i < self.bridge_adapters@.len() && self.adapter_at(i).quotes(
            request.token,
            request.amount,
        )
    }

    /// Whether any provider yields a quote for the request.
    pub open spec fn has_candidate(&self, request: TransferRequest) -> bool {
        exists|i: int| self.candidate(request, i)
    }

    /// Provider `i`'s oracle-normalized USD gas cost for the request.
    pub open spec fn cost_at(&self, request: TransferRequest, i: int) -> u128 {
        self.oracle_spec().gas_cost_spec(request.to_chain, self.adapter_at(i).gas_estimate())
    }

    /// Provider `i` wins route discovery: it yields a quote, no candidate
    /// is strictly cheaper, and no earlier candidate costs the same.
    pub open spec fn best_route_at(&self, request: TransferRequest, i: int) -> bool {
        &&& self.candidate(request, i)
        &&& forall|j: int| #[trigger]
            self.candidate(request, j) ==> self.cost_at(request, i) <= self.cost_at(request, j)
        &&& forall|j: int| #[trigger]
            self.candidate(request, j) && self.cost_at(request, j) == self.cost_at(request, i)
                ==> i <= j
    }

    /// The ranked route that reports provider `i` for the request.
    pub open spec fn route_info_matches(
        &self,
        request: TransferRequest,
        i: int,
        info: RouteInfo,
    ) -> bool {
        &&& info.bridge_adapter == self.adapter_ids()[i]
        &&& info.bridge_name@ == self.adapter_at(i).name_spec()
        &&& info.estimated_time == self.adapter_at(i).time_estimate()
        &&& info.estimated_gas_cost == self.cost_at(request, i)
        &&& info.bridge_fee == self.adapter_at(i).fee_spec(request.amount)
        &&& info.total_cost_usd == self.cost_at(request, i)
        &&& info.amount_out == request.amount.saturating_sub(
            self.adapter_at(i).fee_spec(request.amount),
        )
        &&& info.available
    }

    /// The volume a successful transfer adds to the USD accumulator.
    pub open spec fn volume_of(request: TransferRequest) -> u128 {
        (sat_mul(FEED_ANSWER_USD, request.amount) / WEI_PER_NATIVE) as u128
    }

    /// A fresh, uninitialized router.
    pub fn new() -> (r: StablecoinRouter)
        ensures
            r.wf(),
            !r.is_initialized(),
            r.bridge_adapters@ =~= Seq::<(Address, BridgeAdapter)>::empty(),
            r.is_bridge_adapter@ =~= Seq::<(Address, bool)>::empty(),
            r.supported_tokens@ =~= Seq::<Address>::empty(),
            r.total_transfers == 0,
            r.total_volume_usd == 0,
            r.events@ =~= Seq::<RouterEvent>::empty(),
    {
        StablecoinRouter {
            owner: Address::zero(),
            oracle: None,
            bridge_adapters: Vec::new(),
            is_bridge_adapter: Vec::new(),
            supported_tokens: Vec::new(),
            total_transfers: 0,
            total_volume_usd: 0,
            events: Vec::new(),
        }
    }

    /// Initializes the router with its price oracle, at most once. The
    /// caller becomes the administrative authority. Fails with
    /// `AlreadyInitialized` on a second call and with `InvalidOracle` on
    /// a null oracle reference.
    pub fn initialize(&mut self, caller: Address, price_oracle: Option<PriceOracle>) -> (r: Result<
        (),
        SwitchError,
    >)
        requires
            old(self).wf(),
        ensures
            final(self).wf(),
            old(self).is_initialized() ==> r == Err::<(), SwitchError>(
                SwitchError::AlreadyInitialized,
            ) && *final(self) == *old(self),
            !old(self).is_initialized() && price_oracle is None ==> r == Err::<(), SwitchError>(
                SwitchError::InvalidOracle,
            ) && *final(self) == *old(self),
            !old(self).is_initialized() && price_oracle is Some ==> {
                &&& r == Ok::<(), SwitchError>(())
                &&& final(self).owner == caller
                &&& final(self).oracle == price_oracle
                &&& final(self).bridge_adapters == old(self).bridge_adapters
                &&& final(self).is_bridge_adapter == old(self).is_bridge_adapter
                &&& final(self).supported_tokens == old(self).supported_tokens
                &&& final(self).total_transfers == old(self).total_transfers
                &&& final(self).total_volume_usd == old(self).total_volume_usd
                &&& final(self).events == old(self).events
            },
    {
        if self.oracle.is_some() {
            return Err(SwitchError::AlreadyInitialized);
        }
        match price_oracle {
            None => Err(SwitchError::InvalidOracle),
            Some(o) => {
                self.owner = caller;
                self.oracle = Some(o);
                Ok(())
            },
        }
    }

    /// Checks the caller against the administrative authority.
    fn ensure_owner(&self, caller: Address) -> (r: Result<(), SwitchError>)
        ensures
            r is Ok <==> self.auth_ok(caller),
            r is Err ==> r == Err::<(), SwitchError>(SwitchError::NotOwner),
    {
        if self.oracle.is_none() {
            return Err(SwitchError::NotOwner);
        }
        if !(caller == self.owner) {
            return Err(SwitchError::NotOwner);
        }
        Ok(())
    }

    /// Admits an asset at the router level. Requires the administrative
    /// authority and a non-null asset identifier.
    pub fn add_supported_token(&mut self, caller: Address, token: Address) -> (r: Result<
        (),
        SwitchError,
    >)
        requires
            old(self).wf(),
        ensures
            final(self).wf(),
            !old(self).auth_ok(caller) ==> r == Err::<(), SwitchError>(SwitchError::NotOwner)
                && *final(self) == *old(self),
            old(self).auth_ok(caller) && token.is_null() ==> r == Err::<(), SwitchError>(
                SwitchError::ZeroAddress,
            ) && *final(self) == *old(self),
            old(self).auth_ok(caller) && !token.is_null() ==> {
                &&& r == Ok::<(), SwitchError>(())
                &&& final(self).token_supported(token)
                &&& forall|t: Address|
                    t != token ==> final(self).token_supported(t) == old(self).token_supported(t)
                &&& final(self).owner == old(self).owner
                &&& final(self).oracle == old(self).oracle
                &&& final(self).bridge_adapters == old(self).bridge_adapters
                &&& final(self).is_bridge_adapter == old(self).is_bridge_adapter
                &&& final(self).total_transfers == old(self).total_transfers
                &&& final(self).total_volume_usd == old(self).total_volume_usd
                &&& final(self).events == old(self).events
            },
    {
        match self.ensure_owner(caller) {
            Ok(()) => {},
            Err(e) => {
                return Err(e);
            },
        }
        if token.is_zero() {
            return Err(SwitchError::ZeroAddress);
        }
        let ghost entries = self.supported_tokens@;
        if !addr_list_contains(&self.supported_tokens, &token) {
            self.supported_tokens.push(token);
            proof {
                assert forall|t: Address|
                    t != token implies self.supported_tokens@.contains(t) == entries.contains(
                    t,
                ) by {
                    if entries.contains(t) {
                        let i = choose|i: int| 0 <= i < entries.len() && entries[i] == t;
                        assert(self.supported_tokens@[i] == t);
                    } else {
                        assert forall|i: int|
                            0 <= i < self.supported_tokens@.len() implies self.supported_tokens@[i]
                            != t by {
                            if i < entries.len() {
                                assert(entries[i] != t);
                            }
                        }
                    }
                }
                assert(self.supported_tokens@[entries.len() as int] == token);
                lemma_wf_same_registry(*old(self), *self);
            }
        }
        Ok(())
    }

    /// Admits a provider: authority check, non-null identifier, no
    /// duplicate admission, and a probe of the provider's self-description
    /// that must report it active. Appends to the ordered registry and
    /// sets the membership flag.
    pub fn add_bridge_adapter(&mut self, caller: Address, id: Address, adapter: BridgeAdapter)
        -> (r: Result<(), SwitchError>)
        requires
            old(self).wf(),
        ensures
            final(self).wf(),
            !old(self).auth_ok(caller) ==> r == Err::<(), SwitchError>(SwitchError::NotOwner)
                && *final(self) == *old(self),
            old(self).auth_ok(caller) && id.is_null() ==> r == Err::<(), SwitchError>(
                SwitchError::ZeroAddress,
            ) && *final(self) == *old(self),
            old(self).auth_ok(caller) && !id.is_null() && old(self).is_adapter(id) ==> r == Err::<
                (),
                SwitchError,
            >(SwitchError::AdapterExists) && *final(self) == *old(self),
            old(self).auth_ok(caller) && !id.is_null() && !old(self).is_adapter(id)
                && !adapter.active_spec() ==> r == Err::<(), SwitchError>(
                SwitchError::ProviderUnsupported,
            ) && *final(self) == *old(self),
            old(self).auth_ok(caller) && !id.is_null() && !old(self).is_adapter(id)
                && adapter.active_spec() ==> {
                &&& r == Ok::<(), SwitchError>(())
                &&& final(self).bridge_adapters@ == old(self).bridge_adapters@.push((id, adapter))
                &&& final(self).is_adapter(id)
                &&& forall|a: Address|
                    a != id ==> final(self).is_adapter(a) == old(self).is_adapter(a)
                &&& final(self).owner == old(self).owner
                &&& final(self).oracle == old(self).oracle
                &&& final(self).supported_tokens == old(self).supported_tokens
                &&& final(self).total_transfers == old(self).total_transfers
                &&& final(self).total_volume_usd == old(self).total_volume_usd
                &&& final(self).events@ == old(self).events@.push(
                    RouterEvent::AdapterAdded { adapter: id },
                )
            },
    {
        match self.ensure_owner(caller) {
            Ok(()) => {},
            Err(e) => {
                return Err(e);
            },
        }
        if id.is_zero() {
            return Err(SwitchError::ZeroAddress);
        }
        let flagged = match addr_key_find(&self.is_bridge_adapter, &id) {
            Some(i) => {
                proof {
                    lemma_assoc_find_at(self.is_bridge_adapter@, id, i as int);
                }
                self.is_bridge_adapter[i].1
            },
            None => {
                proof {
                    lemma_assoc_find_none(self.is_bridge_adapter@, id);
                }
                false
            },
        };
        if flagged {
            return Err(SwitchError::AdapterExists);
        }
        let info = adapter.get_bridge_info();
        if !info.1 {
            return Err(SwitchError::ProviderUnsupported);
        }
        let ghost old_pairs = self.bridge_adapters@;
        let ghost old_flags = self.is_bridge_adapter@;
        self.bridge_adapters.push((id, adapter));
        match addr_key_find(&self.is_bridge_adapter, &id) {
            Some(i) => {
                self.is_bridge_adapter.set(i, (id, true));
                proof {
                    assert forall|a: Address| #[trigger]
                        assoc_find(self.is_bridge_adapter@, a) == (if a == id {
                            Some(true)
                        } else {
                            assoc_find(old_flags, a)
                        }) by {
                        lemma_assoc_find_update(old_flags, i as int, id, true, a);
                    }
                }
            },
            None => {
                self.is_bridge_adapter.push((id, true));
                proof {
                    assert forall|a: Address| #[trigger]
                        assoc_find(self.is_bridge_adapter@, a) == (if a == id {
                            Some(true)
                        } else {
                            assoc_find(old_flags, a)
                        }) by {
                        lemma_assoc_find_push(old_flags, id, true, a);
                    }
                }
            },
        }
        self.events.push(RouterEvent::AdapterAdded { adapter: id });
        proof {
            let new_ids = self.adapter_ids();
            let old_ids = old(self).adapter_ids();
            assert(self.bridge_adapters@ == old_pairs.push((id, adapter)));
            assert forall|k: int| 0 <= k < old_ids.len() implies new_ids[k] == old_ids[k] by {}
            assert(new_ids[old_ids.len() as int] == id);
            assert forall|k: int| 0 <= k < old_ids.len() implies old_ids[k] != id by {
                assert(old(self).is_adapter(old_ids[k]));
            }
            assert forall|a: Address| #[trigger]
                self.is_adapter(a) implies new_ids.contains(a) by {
                if a == id {
                    assert(new_ids[old_ids.len() as int] == a);
                } else {
                    assert(old(self).is_adapter(a));
                    let k = choose|k: int| 0 <= k < old_ids.len() && old_ids[k] == a;
                    assert(new_ids[k] == a);
                }
            }
            assert forall|k: int|
                0 <= k < new_ids.len() implies self.is_adapter(#[trigger] new_ids[k]) by {
                if k < old_ids.len() {
                    assert(old(self).is_adapter(old_ids[k]));
                }
            }
        }
        Ok(())
    }

    /// Removes a provider: authority check, membership required, the
    /// flag is cleared, and the ordered list is rebuilt without the
    /// removed provider, preserving the relative order of the survivors.
    pub fn remove_bridge_adapter(&mut self, caller: Address, id: Address) -> (r: Result<
        (),
        SwitchError,
    >)
        requires
            old(self).wf(),
        ensures
            final(self).wf(),
            !old(self).auth_ok(caller) ==> r == Err::<(), SwitchError>(SwitchError::NotOwner)
                && *final(self) == *old(self),
            old(self).auth_ok(caller) && !old(self).is_adapter(id) ==> r == Err::<(), SwitchError>(
                SwitchError::AdapterNotFound,
            ) && *final(self) == *old(self),
            old(self).auth_ok(caller) && old(self).is_adapter(id) ==> {
                &&& r == Ok::<(), SwitchError>(())
                &&& !final(self).is_adapter(id)
                &&& forall|a: Address|
                    a != id ==> final(self).is_adapter(a) == old(self).is_adapter(a)
                &&& exists|i: int|
                    0 <= i < old(self).bridge_adapters@.len() && old(self).adapter_ids()[i] == id
                        && final(self).bridge_adapters@ == old(self).bridge_adapters@.remove(i)
                &&& final(self).owner == old(self).owner
                &&& final(self).oracle == old(self).oracle
                &&& final(self).supported_tokens == old(self).supported_tokens
                &&& final(self).total_transfers == old(self).total_transfers
                &&& final(self).total_volume_usd == old(self).total_volume_usd
                &&& final(self).events@ == old(self).events@.push(
                    RouterEvent::AdapterRemoved { adapter: id },
                )
            },
    {
        match self.ensure_owner(caller) {
            Ok(()) => {},
            Err(e) => {
                return Err(e);
            },
        }
        let fidx = match addr_key_find(&self.is_bridge_adapter, &id) {
            Some(i) => i,
            None => {
                proof {
                    lemma_assoc_find_none(self.is_bridge_adapter@, id);
                }
                return Err(SwitchError::AdapterNotFound);
            },
        };
        proof {
            lemma_assoc_find_at(self.is_bridge_adapter@, id, fidx as int);
        }
        if !self.is_bridge_adapter[fidx].1 {
            return Err(SwitchError::AdapterNotFound);
        }
        let ghost old_flags = self.is_bridge_adapter@;
        let ghost old_pairs = self.bridge_adapters@;
        let ghost old_ids = old(self).adapter_ids();
        self.is_bridge_adapter.set(fidx, (id, false));
        proof {
            assert forall|a: Address| #[trigger]
                assoc_find(self.is_bridge_adapter@, a) == (if a == id {
                    Some(false)
                } else {
                    assoc_find(old_flags, a)
                }) by {
                lemma_assoc_find_update(old_flags, fidx as int, id, false, a);
            }
        }
        let vidx = match addr_key_find(&self.bridge_adapters, &id) {
            Some(i) => i,
            None => {
                proof {
                    assert(old(self).is_adapter(id));
                    assert(old_ids.contains(id));
                    let k = choose|k: int| 0 <= k < old_ids.len() && old_ids[k] == id;
                    assert(self.bridge_adapters@[k].0 == id);
                    assert(false);
                }
                return Err(SwitchError::AdapterNotFound);
            },
        };
        let _removed = self.bridge_adapters.remove(vidx);
        self.events.push(RouterEvent::AdapterRemoved { adapter: id });
        proof {
            let new_ids = self.adapter_ids();
            assert(self.bridge_adapters@ == old_pairs.remove(vidx as int));
            assert(new_ids.len() == old_ids.len() - 1);
            assert forall|k: int| 0 <= k < new_ids.len() implies new_ids[k] == (if k < vidx {
                old_ids[k]
            } else {
                old_ids[k + 1]
            }) by {}
            assert forall|k: int|
                0 <= k < new_ids.len() implies #[trigger] new_ids[k] != id by {
                if k < vidx {
                    assert(old_ids[k] != old_ids[vidx as int]);
                } else {
                    assert(old_ids[k + 1] != old_ids[vidx as int]);
                }
            }
            assert forall|k: int|
                0 <= k < new_ids.len() implies self.is_adapter(#[trigger] new_ids[k]) by {
                assert(old(self).is_adapter(old_ids[(if k < vidx {
                    k
                } else {
                    k + 1
                })]));
            }
            assert forall|a: Address| #[trigger]
                self.is_adapter(a) implies new_ids.contains(a) by {
                assert(a != id);
                assert(old(self).is_adapter(a));
                let k = choose|k: int| 0 <= k < old_ids.len() && old_ids[k] == a;
                if k < vidx {
                    assert(new_ids[k] == a);
                } else {
                    assert(k != vidx);
                    assert(new_ids[k - 1] == a);
                }
            }
            assert(old(self).adapter_ids()[vidx as int] == id && self.bridge_adapters@ == old(
                self,
            ).bridge_adapters@.remove(vidx as int));
        }
        Ok(())
    }

    /// The admitted provider registered under `id`, if any.
    pub fn get_bridge_adapter(&self, id: Address) -> (r: Option<&BridgeAdapter>)
        ensures
            r is Some <==> self.adapter_ids().contains(id),
            r matches Some(a) ==> exists|i: int|
                0 <= i < self.bridge_adapters@.len() && #[trigger] self.adapter_ids()[i] == id
                    && *a == self.adapter_at(i),
    {
        match addr_key_find(&self.bridge_adapters, &id) {
            Some(i) => {
                proof {
                    assert(self.adapter_ids()[i as int] == id);
                }
                Some(&self.bridge_adapters[i].1)
            },
            None => {
                proof {
                    if self.adapter_ids().contains(id) {
                        let k = choose|k: int|
                            0 <= k < self.adapter_ids().len() && self.adapter_ids()[k] == id;
                        assert(self.bridge_adapters@[k].0 == id);
                    }
                }
                None
            },
        }
    }

    /// The owned price oracle, once initialized.
    pub fn price_oracle(&self) -> (r: Option<&PriceOracle>)
        ensures
            match r {
                Some(o) => self.oracle == Some(*o),
                None => self.oracle is None,
            },
    {
        match &self.oracle {
            Some(o) => Some(o),
            None => None,
        }
    }

    /// Total number of executed transfers.
    pub fn get_total_transfers(&self) -> (r: u128)
        ensures
            r == self.total_transfers,
    {
        self.total_transfers
    }

    /// Number of currently admitted providers.
    pub fn get_adapter_count(&self) -> (r: usize)
        ensures
            r == self.bridge_adapters@.len(),
    {
        self.bridge_adapters.len()
    }

    /// The oracle's gas-cost normalization, on an initialized router.
    fn oracle_gas_cost(&self, chain_id: u64, gas_amount: u128) -> (r: Result<u128, SwitchError>)
        requires
            self.is_initialized(),
        ensures
            self.oracle_spec().gas_price_of(chain_id) is None ==> r == Err::<u128, SwitchError>(
                SwitchError::GasPriceNotConfigured,
            ),
            self.oracle_spec().gas_price_of(chain_id) is Some && self.oracle_spec().native_feed_of(
                chain_id,
            ) is None ==> r == Err::<u128, SwitchError>(SwitchError::FeedNotConfigured),
            self.oracle_spec().gas_configured(chain_id) ==> r == Ok::<u128, SwitchError>(
                self.oracle_spec().gas_cost_spec(chain_id, gas_amount),
            ),
    {
        match &self.oracle {
            Some(o) => o.calculate_gas_cost(chain_id, gas_amount),
            None => {
                proof {
                    assert(false);
                }
                Err(SwitchError::GasPriceNotConfigured)
            },
        }
    }

    /// Route discovery. Fails with `UnsupportedAsset` if the router does
    /// not admit the asset. Otherwise it walks the admitted providers in
    /// registration order, skips those that yield no quote, normalizes
    /// each surviving quote's gas estimate to USD through the oracle —
    /// an oracle failure aborts the whole search — and keeps the quote
    /// with the strictly smallest normalized gas cost, ties keeping the
    /// earliest-registered provider. Fails with `NoRouteAvailable` when
    /// no provider survived.
    pub fn find_best_route(&self, request: TransferRequest) -> (r: Result<RouteInfo, SwitchError>)
        requires
            self.wf(),
        ensures
            !self.token_supported(request.token) ==> r == Err::<RouteInfo, SwitchError>(
                SwitchError::UnsupportedAsset,
            ),
            self.token_supported(request.token) && !self.has_candidate(request) ==> r == Err::<
                RouteInfo,
                SwitchError,
            >(SwitchError::NoRouteAvailable),
            self.token_supported(request.token) && self.has_candidate(request)
                && self.oracle_spec().gas_price_of(request.to_chain) is None ==> r == Err::<
                RouteInfo,
                SwitchError,
            >(SwitchError::GasPriceNotConfigured),
            self.token_supported(request.token) && self.has_candidate(request)
                && self.oracle_spec().gas_price_of(request.to_chain) is Some
                && self.oracle_spec().native_feed_of(request.to_chain) is None ==> r == Err::<
                RouteInfo,
                SwitchError,
            >(SwitchError::FeedNotConfigured),
            self.token_supported(request.token) && self.has_candidate(request)
                && self.oracle_spec().gas_configured(request.to_chain) ==> (r matches Ok(info)
                && exists|i: int|
                #[trigger] self.best_route_at(request, i) && self.route_info_matches(
                    request,
                    i,
                    info,
                )),
    {
        if !addr_list_contains(&self.supported_tokens, &request.token) {
            return Err(SwitchError::UnsupportedAsset);
        }
        proof {
            let k = choose|k: int|
                0 <= k < self.supported_tokens@.len() && self.supported_tokens@[k]
                    == request.token;
            assert(self.is_initialized());
        }
        let n = self.bridge_adapters.len();
        let mut best: Option<RouteInfo> = None;
        let ghost mut best_i: int = 0;
        let mut i: usize = 0;
        while i < n
            invariant
                self.wf(),
                self.is_initialized(),
                self.token_supported(request.token),
                n == self.bridge_adapters@.len(),
                i <= n,
                best is None ==> forall|j: int| 0 <= j < i ==> !self.candidate(request, j),
                best matches Some(info) ==> {
                    &&& 0 <= best_i < i
                    &&& self.candidate(request, best_i)
                    &&& self.oracle_spec().gas_configured(request.to_chain)
                    &&& self.route_info_matches(request, best_i, info)
                    &&& info.total_cost_usd == self.cost_at(request, best_i)
                    &&& forall|j: int|
                        0 <= j < i && #[trigger] self.candidate(request, j) ==> self.cost_at(
                            request,
                            best_i,
                        ) <= self.cost_at(request, j)
                    &&& forall|j: int|
                        0 <= j < i && #[trigger] self.candidate(request, j) && self.cost_at(
                            request,
                            j,
                        ) == self.cost_at(request, best_i) ==> best_i <= j
                },
            decreases n - i,
        {
            let pair = &self.bridge_adapters[i];
            let route = match pair.1.get_route(
                request.from_chain,
                request.to_chain,
                request.token,
                request.amount,
            ) {
                Ok(rt) => rt,
                Err(_) => {
                    i = i + 1;
                    continue ;
                },
            };
            if !route.available {
                i = i + 1;
                continue ;
            }
            let gas_cost = match self.oracle_gas_cost(request.to_chain, route.estimated_gas) {
                Ok(c) => c,
                Err(e) => {
                    proof {
                        assert(self.candidate(request, i as int));
                    }
                    return Err(e);
                },
            };
            let take = match &best {
                None => true,
                Some(b) => gas_cost < b.total_cost_usd,
            };
            if take {
                best = Some(
                    RouteInfo {
                        bridge_adapter: pair.0,
                        bridge_name: route.bridge_name,
                        estimated_time: route.estimated_time,
                        estimated_gas_cost: gas_cost,
                        bridge_fee: route.fee,
                        total_cost_usd: gas_cost,
                        amount_out: request.amount.saturating_sub(route.fee),
                        available: true,
                    },
                );
                proof {
                    best_i = i as int;
                }
            }
            i = i + 1;
        }
        match best {
            Some(info) => {
                proof {
                    assert(self.best_route_at(request, best_i));
                }
                Ok(info)
            },
            None => Err(SwitchError::NoRouteAvailable),
        }
    }

    /// The registry positions, in order, of the providers that yield a
    /// quote for the request among the first `n`.
    pub open spec fn candidate_indices(&self, request: TransferRequest, n: int) -> Seq<int>
        decreases n,
    {
        if n <= 0 {
            Seq::empty()
        } else if self.candidate(request, n - 1) {
            self.candidate_indices(request, n - 1).push(n - 1)
        } else {
            self.candidate_indices(request, n - 1)
        }
    }

    /// All available ranked routes for a transfer, in registration
    /// order: one per provider that yields a quote, each normalized
    /// through the oracle. Rejects a zero amount and an unsupported
    /// asset; an oracle failure aborts the whole enumeration; an empty
    /// result is not an error.
    pub fn get_routes(&self, request: TransferRequest) -> (r: Result<Vec<RouteInfo>, SwitchError>)
        requires
            self.wf(),
        ensures
            request.amount == 0 ==> r == Err::<Vec<RouteInfo>, SwitchError>(
                SwitchError::ZeroAmount,
            ),
            request.amount != 0 && !self.token_supported(request.token) ==> r == Err::<
                Vec<RouteInfo>,
                SwitchError,
            >(SwitchError::UnsupportedAsset),
            request.amount != 0 && self.token_supported(request.token) && self.has_candidate(
                request,
            ) && self.oracle_spec().gas_price_of(request.to_chain) is None ==> r == Err::<
                Vec<RouteInfo>,
                SwitchError,
            >(SwitchError::GasPriceNotConfigured),
            request.amount != 0 && self.token_supported(request.token) && self.has_candidate(
                request,
            ) && self.oracle_spec().gas_price_of(request.to_chain) is Some
                && self.oracle_spec().native_feed_of(request.to_chain) is None ==> r == Err::<
                Vec<RouteInfo>,
                SwitchError,
            >(SwitchError::FeedNotConfigured),
            request.amount != 0 && self.token_supported(request.token) && (!self.has_candidate(
                request,
            ) || self.oracle_spec().gas_configured(request.to_chain)) ==> (r matches Ok(routes) && {
                let indices = self.candidate_indices(
                    request,
                    self.bridge_adapters@.len() as int,
                );
                &&& routes@.len() == indices.len()
                &&& forall|k: int|
                    0 <= k < routes@.len() ==> self.route_info_matches(
                        request,
                        indices[k],
                        #[trigger] routes@[k],
                    )
            }),
    {
        if request.amount == 0 {
            return Err(SwitchError::ZeroAmount);
        }
        if !addr_list_contains(&self.supported_tokens, &request.token) {
            return Err(SwitchError::UnsupportedAsset);
        }
        proof {
            let k = choose|k: int|
                0 <= k < self.supported_tokens@.len() && self.supported_tokens@[k]
                    == request.token;
            assert(self.is_initialized());
        }
        let n = self.bridge_adapters.len();
        let mut routes: Vec<RouteInfo> = Vec::new();
        let mut i: usize = 0;
        while i < n
            invariant
                self.wf(),
                self.is_initialized(),
                self.token_supported(request.token),
                request.amount != 0,
                n == self.bridge_adapters@.len(),
                i <= n,
                routes@.len() == self.candidate_indices(request, i as int).len(),
                forall|k: int|
                    0 <= k < routes@.len() ==> self.route_info_matches(
                        request,
                        self.candidate_indices(request, i as int)[k],
                        #[trigger] routes@[k],
                    ),
                (exists|j: int| 0 <= j < i && self.candidate(request, j))
                    ==> self.oracle_spec().gas_configured(request.to_chain),
            decreases n - i,
        {
            let pair = &self.bridge_adapters[i];
            let route = match pair.1.get_route(
                request.from_chain,
                request.to_chain,
                request.token,
                request.amount,
            ) {
                Ok(rt) => rt,
                Err(_) => {
                    i = i + 1;
                    continue ;
                },
            };
            if !route.available {
                i = i + 1;
                continue ;
            }
            let gas_cost = match self.oracle_gas_cost(request.to_chain, route.estimated_gas) {
                Ok(c) => c,
                Err(e) => {
                    proof {
                        assert(self.candidate(request, i as int));
                    }
                    return Err(e);
                },
            };
            routes.push(
                RouteInfo {
                    bridge_adapter: pair.0,
                    bridge_name: route.bridge_name,
                    estimated_time: route.estimated_time,
                    estimated_gas_cost: gas_cost,
                    bridge_fee: route.fee,
                    total_cost_usd: gas_cost,
                    amount_out: request.amount.saturating_sub(route.fee),
                    available: true,
                },
            );
            i = i + 1;
        }
        Ok(routes)
    }

    /// The transfer request `execute_best_route` assembles; the origin
    /// domain is advisory data and is left unset.
    pub open spec fn request_of(
        to_chain: u64,
        token: Address,
        amount: u128,
        recipient: Address,
    ) -> TransferRequest {
        TransferRequest { from_chain: 0, to_chain, token, amount, recipient }
    }

    /// Validates a transfer order — a zero amount and a null recipient
    /// are rejected up front — and then executes it along the best route.
    pub fn execute_best_route(
        &mut self,
        to_chain: u64,
        token: Address,
        amount: u128,
        recipient: Address,
    ) -> (r: Result<bool, SwitchError>)
        requires
            old(self).wf(),
        ensures
            final(self).wf(),
            r is Err ==> *final(self) == *old(self),
            final(self).owner == old(self).owner,
            final(self).oracle == old(self).oracle,
            final(self).bridge_adapters == old(self).bridge_adapters,
            final(self).is_bridge_adapter == old(self).is_bridge_adapter,
            final(self).supported_tokens == old(self).supported_tokens,
            final(self).events == old(self).events,
            final(self).total_transfers >= old(self).total_transfers,
            final(self).total_volume_usd >= old(self).total_volume_usd,
            amount == 0 ==> r == Err::<bool, SwitchError>(SwitchError::ZeroAmount),
            amount != 0 && recipient.is_null() ==> r == Err::<bool, SwitchError>(
                SwitchError::ZeroAddress,
            ),
            amount != 0 && !recipient.is_null() && !old(self).token_supported(token) ==> r
                == Err::<bool, SwitchError>(SwitchError::UnsupportedAsset),
            amount != 0 && !recipient.is_null() && old(self).token_supported(token) && !old(
                self,
            ).has_candidate(Self::request_of(to_chain, token, amount, recipient)) ==> r == Err::<
                bool,
                SwitchError,
            >(SwitchError::NoRouteAvailable),
            forall|i: int|
                amount != 0 && !recipient.is_null() && old(self).token_supported(token) && old(
                    self,
                ).has_candidate(Self::request_of(to_chain, token, amount, recipient)) && old(
                    self,
                ).oracle_spec().gas_configured(to_chain) && #[trigger] old(self).best_route_at(
                    Self::request_of(to_chain, token, amount, recipient),
                    i,
                ) ==> {
                    if !old(self).adapter_at(i).transfer_admissible(token, amount, recipient) {
                        r == Err::<bool, SwitchError>(
                            old(self).adapter_at(i).transfer_error(token, amount, recipient),
                        )
                    } else if old(self).oracle_spec().token_feed_of(token) is None {
                        r == Err::<bool, SwitchError>(SwitchError::FeedNotConfigured)
                    } else {
                        &&& r == Ok::<bool, SwitchError>(true)
                        &&& final(self).total_transfers == old(self).total_transfers.saturating_add(
                            1,
                        )
                        &&& final(self).total_volume_usd == old(
                            self,
                        ).total_volume_usd.saturating_add(
                            Self::volume_of(Self::request_of(to_chain, token, amount, recipient)),
                        )
                    }
                },
    {
        if amount == 0 {
            return Err(SwitchError::ZeroAmount);
        }
        if recipient.is_zero() {
            return Err(SwitchError::ZeroAddress);
        }
        let request = TransferRequest { from_chain: 0, to_chain, token, amount, recipient };
        self.execute_transfer(request)
    }

    /// Route execution: re-derives the best route, invokes the winning
    /// provider's transfer — propagating any failure with no state
    /// mutation — and on success atomically bumps the transfer counter
    /// and adds `asset_price * amount / 10^18` to the USD volume, both
    /// saturating.
    pub fn execute_transfer(&mut self, request: TransferRequest) -> (r: Result<bool, SwitchError>)
        requires
            old(self).wf(),
        ensures
            final(self).wf(),
            r is Err ==> *final(self) == *old(self),
            final(self).owner == old(self).owner,
            final(self).oracle == old(self).oracle,
            final(self).bridge_adapters == old(self).bridge_adapters,
            final(self).is_bridge_adapter == old(self).is_bridge_adapter,
            final(self).supported_tokens == old(self).supported_tokens,
            final(self).events == old(self).events,
            final(self).total_transfers >= old(self).total_transfers,
            final(self).total_volume_usd >= old(self).total_volume_usd,
            !old(self).token_supported(request.token) ==> r == Err::<bool, SwitchError>(
                SwitchError::UnsupportedAsset,
            ),
            old(self).token_supported(request.token) && !old(self).has_candidate(request) ==> r
                == Err::<bool, SwitchError>(SwitchError::NoRouteAvailable),
            old(self).token_supported(request.token) && old(self).has_candidate(request) && old(
                self,
            ).oracle_spec().gas_price_of(request.to_chain) is None ==> r == Err::<
                bool,
                SwitchError,
            >(SwitchError::GasPriceNotConfigured),
            old(self).token_supported(request.token) && old(self).has_candidate(request) && old(
                self,
            ).oracle_spec().gas_price_of(request.to_chain) is Some && old(
                self,
            ).oracle_spec().native_feed_of(request.to_chain) is None ==> r == Err::<
                bool,
                SwitchError,
            >(SwitchError::FeedNotConfigured),
            forall|i: int|
                old(self).token_supported(request.token) && old(self).has_candidate(request)
                    && old(self).oracle_spec().gas_configured(request.to_chain) && #[trigger] old(
                    self,
                ).best_route_at(request, i) ==> {
                    if !old(self).adapter_at(i).transfer_admissible(
                        request.token,
                        request.amount,
                        request.recipient,
                    ) {
                        r == Err::<bool, SwitchError>(
                            old(self).adapter_at(i).transfer_error(
                                request.token,
                                request.amount,
                                request.recipient,
                            ),
                        )
                    } else if old(self).oracle_spec().token_feed_of(request.token) is None {
                        r == Err::<bool, SwitchError>(SwitchError::FeedNotConfigured)
                    } else {
                        &&& r == Ok::<bool, SwitchError>(true)
                        &&& final(self).total_transfers == old(self).total_transfers.saturating_add(
                            1,
                        )
                        &&& final(self).total_volume_usd == old(
                            self,
                        ).total_volume_usd.saturating_add(Self::volume_of(request))
                    }
                },
    {
        let route = match self.find_best_route(request) {
            Ok(rt) => rt,
            Err(e) => {
                return Err(e);
            },
        };
        let ghost bi = choose|i: int|
            #[trigger] self.best_route_at(request, i) && self.route_info_matches(
                request,
                i,
                route,
            );
        proof {
            assert forall|i: int| #[trigger] self.best_route_at(request, i) implies i == bi by {
                assert(self.cost_at(request, i) <= self.cost_at(request, bi));
                assert(self.cost_at(request, bi) <= self.cost_at(request, i));
            }
        }
        if !route.available {
            return Err(SwitchError::NoRouteAvailable);
        }
        let idx = match addr_key_find(&self.bridge_adapters, &route.bridge_adapter) {
            Some(i) => i,
            None => {
                proof {
                    assert(self.bridge_adapters@[bi].0 == route.bridge_adapter);
                    assert(false);
                }
                return Err(SwitchError::AdapterNotFound);
            },
        };
        proof {
            assert(self.adapter_ids()[idx as int] == route.bridge_adapter);
            assert(self.adapter_ids()[bi] == route.bridge_adapter);
            if idx as int != bi {
                if (idx as int) < bi {
                    assert(self.adapter_ids()[idx as int] != self.adapter_ids()[bi]);
                } else {
                    assert(self.adapter_ids()[bi] != self.adapter_ids()[idx as int]);
                }
            }
        }
        let pair = &self.bridge_adapters[idx];
        match pair.1.bridge_tokens(
            request.to_chain,
            request.token,
            request.amount,
            request.recipient,
            Vec::new(),
        ) {
            Ok(()) => {},
            Err(e) => {
                return Err(e);
            },
        }
        let price = match &self.oracle {
            Some(o) => {
                match o.get_token_price(request.token) {
                    Ok(p) => p,
                    Err(e) => {
                        return Err(e);
                    },
                }
            },
            None => {
                proof {
                    assert(false);
                }
                return Err(SwitchError::InvalidOracle);
            },
        };
        self.total_transfers = self.total_transfers.saturating_add(1);
        let scaled = saturating_mul(price, request.amount) / WEI_PER_NATIVE;
        self.total_volume_usd = self.total_volume_usd.saturating_add(scaled);
        proof {
            lemma_wf_same_registry(*old(self), *self);
        }
        Ok(true)
    }
}

/// Well-formedness depends only on the registry fields and the
/// initialization state: it carries over to a router that agrees on them
/// and is initialized.
proof fn lemma_wf_same_registry(a: StablecoinRouter, b: StablecoinRouter)
    requires
        a.wf(),
        b.bridge_adapters == a.bridge_adapters,
        b.is_bridge_adapter == a.is_bridge_adapter,
        b.is_initialized(),
    ensures
        b.wf(),
{
    assert(b.adapter_ids() =~= a.adapter_ids());
    assert forall|i: int, j: int|
        0 <= i < j < b.adapter_ids().len() implies b.adapter_ids()[i] != b.adapter_ids()[j] by {
        assert(b.adapter_ids()[i] == a.adapter_ids()[i]);
        assert(b.adapter_ids()[j] == a.adapter_ids()[j]);
    }
    assert forall|i: int|
        0 <= i < b.adapter_ids().len() implies b.is_adapter(#[trigger] b.adapter_ids()[i]) by {
        assert(a.is_adapter(a.adapter_ids()[i]));
        assert(b.is_adapter(b.adapter_ids()[i]) == a.is_adapter(a.adapter_ids()[i]));
    }
    assert forall|id: Address| #[trigger] b.is_adapter(id) implies b.adapter_ids().contains(id) by {
        assert(a.is_adapter(id));
        let k = choose|k: int| 0 <= k < a.adapter_ids().len() && a.adapter_ids()[k] == id;
        assert(b.adapter_ids()[k] == id);
    }
}

/// Law: a well-formed registry holds no duplicate provider, and a
/// provider stands in the ordered list exactly when its membership flag
/// is set. Admission and removal each preserve well-formedness, so this
/// holds after any sequence of them.
pub proof fn lemma_registry_integrity(router: StablecoinRouter)
    requires
        router.wf(),
    ensures
        forall|i: int, j: int|
            0 <= i < j < router.adapter_ids().len() ==> router.adapter_ids()[i]
                != router.adapter_ids()[j],
        forall|id: Address| #[trigger] router.is_adapter(id) <==> router.adapter_ids().contains(id),
{
    assert forall|id: Address|
        router.adapter_ids().contains(id) implies #[trigger] router.is_adapter(id) by {
        let i = choose|i: int|
            0 <= i < router.adapter_ids().len() && router.adapter_ids()[i] == id;
        assert(router.is_adapter(router.adapter_ids()[i]));
    }
}

} // verus!
