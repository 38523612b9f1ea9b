//! Properties of the wake table that hold across several calls.

use crate::registry::{
    deregister_post, disarm_post, entry_armed, is_armed, next_after, register_post,
    wakes_exactly, RegistrationError,
};
use vstd::prelude::*;

verus! {

/// Where the counter stands after `k` allocations from `start`.
pub open spec fn counter_after(start: usize, k: int) -> int {
    (start + k) % (usize::MAX + 1)
}

proof fn lemma_counter_steps(states: Seq<usize>, k: int)
    requires
        0 <= k < states.len(),
        forall|i: int| 0 <= i < states.len() - 1 ==> #[trigger] states[i + 1] == next_after(states[i]),
    ensures
        states[k] as int == counter_after(states[0], k),
    decreases k,
{
    if k > 0 {
        lemma_counter_steps(states, k - 1);
        assert(states[(k - 1) + 1] == next_after(states[k - 1]));
        let s = states[0] as int;
        let p = states[k - 1] as int;
        let m = usize::MAX as int + 1;
        assert((s + k) % m == if p == m - 1 { 0 } else { p + 1 }) by (nonlinear_arith)
            requires
                p == (s + (k - 1)) % m,
                0 <= s < m,
                k >= 1,
                m > 1,
        ;
    } else {
        vstd::arithmetic::div_mod::lemma_small_mod(states[0] as nat, usize::MAX as nat + 1);
    }
}

/// Id uniqueness: the ids handed out by successive allocations are pairwise
/// distinct, as long as there are no more of them than `usize` values. Here
/// `states[i]` is the counter before the `i`-th allocation, which returns it.
pub proof fn lemma_allocated_ids_distinct(states: Seq<usize>)
    requires
        1 <= states.len() <= usize::MAX as int + 1,
        forall|i: int| 0 <= i < states.len() - 1 ==> #[trigger] states[i + 1] == next_after(states[i]),
    ensures
        states.no_duplicates(),
{
    assert forall|a: int, b: int|
        0 <= a < states.len() && 0 <= b < states.len() && a != b implies states[a] != states[b] by {
        lemma_counter_steps(states, a);
        lemma_counter_steps(states, b);
        let s = states[0] as int;
        let m = usize::MAX as int + 1;
        assert((s + a) % m != (s + b) % m) by (nonlinear_arith)
            requires
                0 <= s < m,
                0 <= a < m,
                0 <= b < m,
                a != b,
        ;
    }
}

/// A broadcast wakes every id in `ids` that is armed, so all of several
/// registered receivers see a send, whichever one then takes the value.
pub proof fn lemma_broadcast_wakes_every_armed(
    m: Map<usize, Option<usize>>,
    woken: Seq<usize>,
    ids: Set<usize>,
)
    requires
        wakes_exactly(m, woken),
        forall|id: usize| #[trigger] ids.contains(id) ==> is_armed(m, id),
    ensures
        forall|id: usize| #[trigger] ids.contains(id) ==> woken.contains(id),
        forall|id: usize| #[trigger] woken.contains(id) ==> is_armed(m, id),
{
}

/// Once `id` is deregistered, no later broadcast wakes it: the receiver's entry
/// is unarmed, and a broadcast over the table after `id` is unarmed there does
/// not signal `id`.
pub proof fn lemma_deregister_stops_wakes(
    e0: Option<Option<usize>>,
    r: Result<(), RegistrationError>,
    e1: Option<Option<usize>>,
    m0: Map<usize, Option<usize>>,
    id: usize,
    m1: Map<usize, Option<usize>>,
    woken: Seq<usize>,
)
    requires
        deregister_post(e0, r, e1),
        disarm_post(m0, id, m1),
        wakes_exactly(m1, woken),
    ensures
        !entry_armed(e1),
        !woken.contains(id),
{
}

/// Registering a receiver a second time, with no deregistration between, is
/// refused with `AlreadyRegistered`, and the first registration stays armed
/// with its token.
pub proof fn lemma_double_register_refused(
    e0: Option<Option<usize>>,
    first: usize,
    r1: Result<(), RegistrationError>,
    e1: Option<Option<usize>>,
    second: usize,
    r2: Result<(), RegistrationError>,
    e2: Option<Option<usize>>,
)
    requires
        register_post(e0, first, r1, e1),
        r1 is Ok,
        register_post(e1, second, r2, e2),
    ensures
        r2 matches Err(RegistrationError::AlreadyRegistered),
        e2 == e1,
        e2 == Some(Some(first)),
{
}

/// An armed table entry stays armed, with its token, when another id is armed
/// or unarmed, so a later broadcast still wakes it.
pub proof fn lemma_other_ids_keep_their_wake(
    m0: Map<usize, Option<usize>>,
    id: usize,
    other: usize,
    token: usize,
    woken: Seq<usize>,
)
    requires
        is_armed(m0, id),
        id != other,
        wakes_exactly(m0.insert(other, Some(token)), woken)
            || (exists|m1: Map<usize, Option<usize>>|
            disarm_post(m0, other, m1) && wakes_exactly(m1, woken)),
    ensures
        woken.contains(id),
{
    if !wakes_exactly(m0.insert(other, Some(token)), woken) {
        let m1 = choose|m1: Map<usize, Option<usize>>|
            disarm_post(m0, other, m1) && wakes_exactly(m1, woken);
        assert(is_armed(m1, id));
    } else {
        assert(is_armed(m0.insert(other, Some(token)), id));
    }
}

} // verus!
