//! Correlation helpers: the table that maps in-flight request identifiers
//! to their reply slots, and the wrapping identifier counter.
//!
//! The table is generic in the slot it stores. The driver keeps a channel
//! sender in it; the verified core only moves slots in and out, so each
//! slot leaves the table exactly once and is signalled at most once.

use std::collections::HashMap;

use vstd::prelude::*;

verus! {

broadcast use vstd::std_specs::hash::group_hash_axioms;

/// Maps identifiers of in-flight requests to the reply slots awaiting
/// their outcome. Keys are unique, so there is at most one outstanding
/// slot per identifier.
pub struct Awaiting<V> {
    map: HashMap<u8, V>,
}

impl<V> View for Awaiting<V> {
    type V = Map<u8, V>;

    closed spec fn view(&self) -> Map<u8, V> {
        self.map@
    }
}

impl<V> Awaiting<V> {
    /// An empty table.
    pub fn new() -> (r: Self)
        ensures
            r@ == Map::<u8, V>::empty(),
    {
        Awaiting { map: HashMap::new() }
    }

    /// Store the reply slot for an identifier. A slot already stored under
    /// the same identifier is displaced and returned.
    pub fn register(&mut self, id: u8, slot: V) -> (displaced: Option<V>)
        ensures
            final(self)@ == old(self)@.insert(id, slot),
            displaced == if old(self)@.contains_key(id) {
                Some(old(self)@[id])
            } else {
                None::<V>
            },
    {
        self.map.insert(id, slot)
    }

    /// Take the reply slot for an identifier out of the table.
    pub fn deregister(&mut self, id: u8) -> (r: Option<V>)
        ensures
            final(self)@ == old(self)@.remove(id),
            r == if old(self)@.contains_key(id) {
                Some(old(self)@[id])
            } else {
                None::<V>
            },
    {
        self.map.remove(&id)
    }

    /// Whether a reply slot is outstanding for an identifier.
    pub fn contains(&self, id: u8) -> (r: bool)
        ensures
            r == self@.contains_key(id),
    {
        self.map.contains_key(&id)
    }

    /// How many reply slots are outstanding.
    pub fn len(&self) -> (r: usize)
        ensures
            r == self@.dom().len(),
    {
        self.map.len()
    }
}

/// Replies are routed by identifier alone: with two slots outstanding
/// under distinct identifiers, taking either out delivers exactly the slot
/// stored under that identifier and leaves the other untouched, whichever
/// arrives first.
pub proof fn lemma_correlation<V>(m: Map<u8, V>, i: u8, j: u8)
    requires
        m.contains_key(i),
        m.contains_key(j),
        i != j,
    ensures
        m.remove(i).contains_key(j) && m.remove(i)[j] == m[j],
        m.remove(j).contains_key(i) && m.remove(j)[i] == m[i],
        m.remove(i).remove(j) == m.remove(j).remove(i),
{
    assert(m.remove(i).remove(j) =~= m.remove(j).remove(i));
}

/// The slots yielded by taking identifiers out of a table one after
/// another, in the order given. This is the removal the routing functions
/// perform for each arriving reply.
pub open spec fn route_results<V>(m: Map<u8, V>, order: Seq<u8>) -> Seq<Option<V>>
    decreases order.len(),
{
    if order.len() == 0 {
        Seq::empty()
    } else {
        let first = order.first();
        let r = if m.contains_key(first) {
            Some(m[first])
        } else {
            None
        };
        seq![r] + route_results(m.remove(first), order.drop_first())
    }
}

/// Correlation under every interleaving: however many slots are
/// outstanding under distinct identifiers, and in whatever order their
/// replies arrive, each identifier yields exactly the slot stored under
/// it. Distinctness is what the table's writers provide: a submission
/// whose identifier is still in flight is rejected, not registered.
pub proof fn lemma_correlation_any_order<V>(m: Map<u8, V>, order: Seq<u8>)
    requires
        forall|k: int| 0 <= k < order.len() ==> m.contains_key(#[trigger] order[k]),
        forall|k1: int, k2: int| 0 <= k1 < k2 < order.len() ==> order[k1] != order[k2],
    ensures
        route_results(m, order).len() == order.len(),
        forall|k: int|
            0 <= k < order.len() ==> #[trigger] route_results(m, order)[k] == Some(
                m[order[k]],
            ),
    decreases order.len(),
{
    if order.len() > 0 {
        let first = order.first();
        let rest = order.drop_first();
        let m2 = m.remove(first);
        assert forall|k: int| 0 <= k < rest.len() implies m2.contains_key(
            #[trigger] rest[k],
        ) by {
            assert(rest[k] == order[k + 1]);
            assert(order[0] != order[k + 1]);
        }
        assert forall|k1: int, k2: int| 0 <= k1 < k2 < rest.len() implies rest[k1] != rest[k2] by {
            assert(rest[k1] == order[k1 + 1]);
            assert(rest[k2] == order[k2 + 1]);
        }
        lemma_correlation_any_order(m2, rest);
        assert forall|k: int| 0 <= k < order.len() implies #[trigger] route_results(m, order)[k]
            == Some(m[order[k]]) by {
            if k == 0 {
                assert(route_results(m, order)[0] == Some(m[first]));
            } else {
                assert(route_results(m, order)[k] == route_results(m2, rest)[k - 1]);
                assert(rest[k - 1] == order[k]);
                assert(m2[order[k]] == m[order[k]]);
            }
        }
    }
}

/// Counter that yields 8-bit identifiers, wrapping on overflow.
pub struct IncrementingId {
    value: u8,
}

impl IncrementingId {
    /// The identifier the next call will yield.
    pub closed spec fn current(self) -> u8 {
        self.value
    }

    /// A counter that starts at zero.
    pub fn new() -> (r: Self)
        ensures
            r.current() == 0,
    {
        IncrementingId { value: 0 }
    }

    /// Yield the current identifier and advance by one, wrapping.
    pub fn next(&mut self) -> (r: u8)
        ensures
            r == old(self).current(),
            final(self).current() == (old(self).current() + 1) % 256,
    {
        let value = self.value;
        self.value = self.value.wrapping_add(1);
        value
    }
}

} // verus!
