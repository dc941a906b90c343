//! API routing: which backend adapter serves a request, chosen by the
//! request's account (`self_id`), falling back to the default adapter
//! (the first one registered).

use std::collections::HashMap;

use vstd::prelude::*;

use crate::api::ApiRequest;
use crate::error::{ErrorV, GatewayError};
use crate::text::{nat_decimal, push_nat_decimal, push_str, string_from_chars};

verus! {

/// Routes requests to adapters of type `A`.
pub struct ApiRouter<A> {
    /// Account -> adapter index.
    routing_table: HashMap<i64, usize>,
    /// Registered adapters, in registration order.
    adapters: Vec<A>,
    /// Index of the default adapter (the first registered).
    default_index: Option<usize>,
}

/// The mathematical form of a router.
pub struct RouterV {
    pub table: Map<i64, usize>,
    pub count: nat,
    pub default_index: Option<usize>,
}

impl<A> View for ApiRouter<A> {
    type V = RouterV;

    closed spec fn view(&self) -> RouterV {
        RouterV {
            table: self.routing_table@,
            count: self.adapters@.len(),
            default_index: self.default_index,
        }
    }
}

/// The adapter index a request for `self_id` goes to: the account's
/// adapter when the table has one, else the default (index 0 when unset).
pub open spec fn target_index(r: RouterV, self_id: Option<i64>) -> usize {
    let fallback = match r.default_index {
        Some(i) => i,
        None => 0,
    };
    match self_id {
        Some(s) => if r.table.contains_key(s) {
            r.table[s]
        } else {
            fallback
        },
        None => fallback,
    }
}

/// The outcome of routing: the adapter index, or the error when no adapter
/// is registered or the index is out of bounds.
pub open spec fn route_spec(r: RouterV, self_id: Option<i64>) -> Result<usize, ErrorV> {
    if r.count == 0 {
        Err(ErrorV::Internal("no adapters registered"@))
    } else if target_index(r, self_id) < r.count {
        Ok(target_index(r, self_id))
    } else {
        Err(
            ErrorV::Internal(
                "adapter index "@ + nat_decimal(target_index(r, self_id) as nat) + " out of bounds"@,
            ),
        )
    }
}

/// The router after registering an adapter that knows its account or not.
pub open spec fn register_spec(r: RouterV, self_id: Option<i64>) -> RouterV {
    RouterV {
        table: match self_id {
            Some(s) => r.table.insert(s, r.count as usize),
            None => r.table,
        },
        count: r.count + 1,
        default_index: match r.default_index {
            Some(i) => Some(i),
            None => Some(r.count as usize),
        },
    }
}

impl<A> ApiRouter<A> {
    /// An empty router.
    pub fn new() -> (r: ApiRouter<A>)
        ensures
            r@.table == Map::<i64, usize>::empty(),
            r@.count == 0,
            r@.default_index is None,
            r.adapters() == Seq::<A>::empty(),
    {
        ApiRouter { routing_table: HashMap::new(), adapters: Vec::new(), default_index: None }
    }

    /// Registers an adapter, with the account it serves when already known;
    /// the first adapter registered becomes the default.
    pub fn register(&mut self, adapter: A, self_id: Option<i64>)
        requires
            old(self)@.count < usize::MAX,
        ensures
            final(self)@ == register_spec(old(self)@, self_id),
            final(self).adapters() == old(self).adapters().push(adapter),
    {
        broadcast use vstd::std_specs::hash::group_hash_axioms;

        let index = self.adapters.len();
        self.adapters.push(adapter);
        match self_id {
            Some(s) => {
                self.routing_table.insert(s, index);
            },
            None => {},
        }
        if self.default_index.is_none() {
            self.default_index = Some(index);
        }
    }

    /// Associates an account with an adapter index.
    pub fn associate_self_id(&mut self, self_id: i64, adapter_index: usize)
        ensures
            final(self)@ == (RouterV { table: old(self)@.table.insert(self_id, adapter_index), ..old(self)@ }),
            final(self).adapters() == old(self).adapters(),
    {
        broadcast use vstd::std_specs::hash::group_hash_axioms;

        self.routing_table.insert(self_id, adapter_index);
    }

    /// The adapter index for a request.
    pub fn route_index(&self, self_id: Option<i64>) -> (r: Result<usize, GatewayError>)
        ensures
            match r {
                Ok(i) => route_spec(self@, self_id) == Ok::<usize, ErrorV>(i),
                Err(e) => route_spec(self@, self_id) == Err::<usize, ErrorV>(e@),
            },
    {
        broadcast use vstd::std_specs::hash::group_hash_axioms;

        if self.adapters.len() == 0 {
            return Err(GatewayError::internal("no adapters registered"));
        }
        let fallback = match self.default_index {
            Some(i) => i,
            None => 0,
        };
        let index = match self_id {
            Some(s) => match self.routing_table.get(&s) {
                Some(i) => *i,
                None => fallback,
            },
            None => fallback,
        };
        if index < self.adapters.len() {
            Ok(index)
        } else {
            let mut buf: Vec<char> = Vec::new();
            push_str(&mut buf, "adapter index ");
            push_nat_decimal(&mut buf, index as u64);
            push_str(&mut buf, " out of bounds");
            assert(buf@ =~= "adapter index "@ + nat_decimal(index as nat) + " out of bounds"@);
            Err(GatewayError::Internal(string_from_chars(buf.as_slice())))
        }
    }

    /// The adapter that serves a request.
    pub fn route(&self, request: &ApiRequest) -> (r: Result<&A, GatewayError>)
        ensures
            match r {
                Ok(a) => route_spec(self@, request.self_id) matches Ok(i) && i < self.adapters().len()
                    && *a == self.adapters()[i as int],
                Err(e) => route_spec(self@, request.self_id) == Err::<usize, ErrorV>(e@),
            },
    {
        match self.route_index(request.self_id) {
            Ok(i) => Ok(&self.adapters[i]),
            Err(e) => Err(e),
        }
    }

    /// The registered adapters, in registration order.
    pub closed spec fn adapters(&self) -> Seq<A> {
        self.adapters@
    }

    /// The router counts exactly its registered adapters.
    pub proof fn lemma_count_is_adapters(&self)
        ensures
            self@.count == self.adapters().len(),
    {
    }
}

/// A request for an account reaches the adapter registered for it: after
/// registering `adapter` with the account `self_id` on a router holding
/// `adapters`, the route for that account is the new adapter.
pub proof fn lemma_registered_adapter_serves<A>(r: RouterV, adapters: Seq<A>, adapter: A, self_id: i64)
    requires
        r.count == adapters.len(),
        r.count < usize::MAX,
    ensures
        route_spec(register_spec(r, Some(self_id)), Some(self_id)) matches Ok(i) && adapters.push(adapter)[i as int]
            == adapter,
{
    lemma_register_routes(r, self_id);
    assert(adapters.push(adapter)[r.count as int] == adapter);
}

/// After associating an account with the adapter at `index`, the account's
/// requests reach that adapter.
pub proof fn lemma_associated_adapter_serves<A>(r: RouterV, adapters: Seq<A>, self_id: i64, index: usize)
    requires
        r.count == adapters.len(),
        index < r.count,
    ensures
        route_spec(RouterV { table: r.table.insert(self_id, index), ..r }, Some(self_id)) matches Ok(i)
            && adapters[i as int] == adapters[index as int],
{
}

/// Routing after associating an account with a registered adapter sends
/// that account's requests to the adapter.
pub proof fn lemma_associate_routes(r: RouterV, self_id: i64, index: usize)
    requires
        index < r.count,
    ensures
        route_spec(RouterV { table: r.table.insert(self_id, index), ..r }, Some(self_id)) == Ok::<
            usize,
            ErrorV,
        >(index),
{
}

/// An adapter registered with a known account serves that account.
pub proof fn lemma_register_routes(r: RouterV, self_id: i64)
    ensures
        route_spec(register_spec(r, Some(self_id)), Some(self_id)) == Ok::<usize, ErrorV>(r.count as usize),
{
}

/// The first adapter registered is the default: requests without an
/// account, or for an unknown one, go to it.
pub proof fn lemma_first_is_default(r: RouterV, self_id: Option<i64>, later: Option<i64>)
    requires
        r.count == 0,
        r.default_index is None,
        r.table == Map::<i64, usize>::empty(),
        self_id is None,
    ensures
        route_spec(register_spec(r, later), self_id) == Ok::<usize, ErrorV>(0),
        route_spec(register_spec(register_spec(r, later), None), self_id) == Ok::<usize, ErrorV>(0),
{
}

/// A router with nothing registered.
pub open spec fn empty_router() -> RouterV {
    RouterV { table: Map::empty(), count: 0, default_index: None }
}

/// The router after registering, in order, adapters that know the given
/// accounts (or none).
pub open spec fn register_all(r: RouterV, ids: Seq<Option<i64>>) -> RouterV
    decreases ids.len(),
{
    if ids.len() == 0 {
        r
    } else {
        register_spec(register_all(r, ids.drop_last()), ids.last())
    }
}

/// The position of the last registration that named the account `s`.
pub open spec fn last_named(ids: Seq<Option<i64>>, s: i64) -> Option<int>
    decreases ids.len(),
{
    if ids.len() == 0 {
        None
    } else if ids.last() == Some(s) {
        Some(ids.len() - 1)
    } else {
        last_named(ids.drop_last(), s)
    }
}

proof fn lemma_register_all_table(ids: Seq<Option<i64>>)
    requires
        ids.len() < usize::MAX,
    ensures
        register_all(empty_router(), ids).count == ids.len(),
        register_all(empty_router(), ids).default_index == (if ids.len() == 0 {
            None
        } else {
            Some(0usize)
        }),
        forall|s: i64| #[trigger]
            register_all(empty_router(), ids).table.contains_key(s) == (last_named(ids, s) is Some),
        forall|s: i64| #[trigger]
            last_named(ids, s) matches Some(k) ==> 0 <= k < ids.len() && register_all(empty_router(), ids).table[s]
                == k,
    decreases ids.len(),
{
    if ids.len() > 0 {
        let pre = ids.drop_last();
        lemma_register_all_table(pre);
        let r0 = register_all(empty_router(), pre);
        let r1 = register_all(empty_router(), ids);
        assert(r1 == register_spec(r0, ids.last()));
        assert forall|s: i64| #[trigger] last_named(ids, s) is Some implies 0 <= last_named(ids, s)->0 < ids.len()
            && r1.table[s] == last_named(ids, s)->0 by {
            if ids.last() == Some(s) {
                assert(r1.table[s] == r0.count as usize);
            } else {
                assert(last_named(ids, s) == last_named(pre, s));
            }
        }
    }
}

/// Registering any number of adapters in order: the first one registered
/// is the default, serving requests without an account and for accounts
/// no registration named; a request for an account goes to the last
/// adapter registered with it; with nothing registered every request is
/// refused.
pub proof fn lemma_routing_after_registrations(ids: Seq<Option<i64>>, self_id: Option<i64>)
    requires
        ids.len() < usize::MAX,
    ensures
        route_spec(register_all(empty_router(), ids), self_id) == (if ids.len() == 0 {
            Err(ErrorV::Internal("no adapters registered"@))
        } else {
            Ok::<usize, ErrorV>(
                match self_id {
                    Some(s) => match last_named(ids, s) {
                        Some(k) => k as usize,
                        None => 0usize,
                    },
                    None => 0usize,
                },
            )
        }),
{
    lemma_register_all_table(ids);
    match self_id {
        Some(s) => {
            if last_named(ids, s) is Some {
                assert(register_all(empty_router(), ids).table.contains_key(s));
            }
        },
        None => {},
    }
}

} // verus!
