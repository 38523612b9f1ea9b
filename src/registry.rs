//! The table of wake handles shared by all handles of one channel, and the
//! registration state machine of one receiver's entry.
//!
//! Each receiver owns one registration id. Its entry is absent until it first
//! registers (`None`), armed with a token while registered (`Some(Some(t))`),
//! and unarmed after it deregisters (`Some(None)`). Registration is strict:
//! registering an armed entry again is refused and leaves the armed handle in
//! place; reregistering or deregistering an entry that never existed is refused.

use std::collections::HashMap;
use vstd::prelude::*;

verus! {

broadcast use vstd::std_specs::hash::group_hash_axioms;

/// Why a registration call was refused.
#[derive(Debug)]
pub enum RegistrationError {
    /// The id already holds an armed wake handle.
    AlreadyRegistered,
    /// The id has never been registered.
    NotRegistered,
    /// The poller could not build a wake handle; its error is kept as it was.
    IoFailure(std::io::Error),
}

/// An armed entry: the token the poller reports, and the handle that wakes it.
pub struct Armed {
    pub token: usize,
    pub waker: mio::Waker,
}

/// The token of an entry, if it is armed.
pub open spec fn token_of(slot: Option<Armed>) -> Option<usize> {
    match slot {
        Some(a) => Some(a.token),
        None => None,
    }
}

/// Whether `id` holds an armed handle in the table `m`.
pub open spec fn is_armed(m: Map<usize, Option<usize>>, id: usize) -> bool {
    m.contains_key(id) && m[id] is Some
}

/// The id handed out after `n`; the counter wraps as an atomic `fetch_add` does.
pub open spec fn next_after(n: usize) -> usize {
    if n == usize::MAX {
        0
    } else {
        (n + 1) as usize
    }
}

/// Whether a receiver's entry holds an armed handle.
pub open spec fn entry_armed(e: Option<Option<usize>>) -> bool {
    e matches Some(Some(_))
}

/// What `register` does to a receiver's entry: refuse an armed entry, else arm
/// it with `token` unless the poller failed, in which case nothing changes.
pub open spec fn register_post(
    e0: Option<Option<usize>>,
    token: usize,
    r: Result<(), RegistrationError>,
    e1: Option<Option<usize>>,
) -> bool {
    if entry_armed(e0) {
        r matches Err(RegistrationError::AlreadyRegistered) && e1 == e0
    } else {
        (r is Ok && e1 == Some(Some(token)))
        || (r matches Err(RegistrationError::IoFailure(_)) && e1 == e0)
    }
}

/// What `reregister` does to a receiver's entry: refuse an entry that never
/// existed, else arm it afresh with `token` unless the poller failed, in which
/// case nothing changes.
pub open spec fn reregister_post(
    e0: Option<Option<usize>>,
    token: usize,
    r: Result<(), RegistrationError>,
    e1: Option<Option<usize>>,
) -> bool {
    if e0 is None {
        r matches Err(RegistrationError::NotRegistered) && e1 == e0
    } else {
        (r is Ok && e1 == Some(Some(token)))
        || (r matches Err(RegistrationError::IoFailure(_)) && e1 == e0)
    }
}

/// What `deregister` does to a receiver's entry: refuse an entry that never
/// existed, else unarm it.
pub open spec fn deregister_post(
    e0: Option<Option<usize>>,
    r: Result<(), RegistrationError>,
    e1: Option<Option<usize>>,
) -> bool {
    if e0 is None {
        r matches Err(RegistrationError::NotRegistered) && e1 == e0
    } else {
        r is Ok && e1 == Some(None::<usize>)
    }
}

/// The table after unarming `id`: an existing entry becomes unarmed.
pub open spec fn disarm_post(
    m0: Map<usize, Option<usize>>,
    id: usize,
    m1: Map<usize, Option<usize>>,
) -> bool {
    m1 == if m0.contains_key(id) {
        m0.insert(id, None)
    } else {
        m0
    }
}

/// The ids that a broadcast wakes: exactly the armed ones, each once.
pub open spec fn wakes_exactly(m: Map<usize, Option<usize>>, woken: Seq<usize>) -> bool {
    &&& woken.no_duplicates()
    &&& forall|id: usize| #[trigger] woken.contains(id) <==> is_armed(m, id)
}

proof fn lemma_push_contains(s: Seq<usize>, x: usize)
    ensures
        forall|k: usize| #[trigger] s.push(x).contains(k) <==> (s.contains(k) || k == x),
{
    assert forall|k: usize| #[trigger] s.push(x).contains(k) <==> (s.contains(k) || k == x) by {
        if s.contains(k) {
            let j = choose|j: int| 0 <= j < s.len() && s[j] == k;
            assert(s.push(x)[j] == k);
        }
        if k == x {
            assert(s.push(x)[s.len() as int] == x);
        }
        if s.push(x).contains(k) {
            let j = choose|j: int| 0 <= j < s.push(x).len() && s.push(x)[j] == k;
            if j < s.len() {
                assert(s[j] == k);
            }
        }
    }
}

/// The registration table of one channel, with its id counter.
pub struct WakerRegistry {
    slots: HashMap<usize, Option<Armed>>,
    ids: Vec<usize>,
    next_id: usize,
}

impl View for WakerRegistry {
    type V = Map<usize, Option<usize>>;

    /// Each id with an entry, mapped to its token when armed.
    closed spec fn view(&self) -> Map<usize, Option<usize>> {
        Map::new(|id: usize| self.slots@.contains_key(id), |id: usize| token_of(self.slots@[id]))
    }
}

impl WakerRegistry {
    /// The id that the next allocation hands out.
    pub closed spec fn next(&self) -> usize {
        self.next_id
    }

    /// The id list names each entry of the table once.
    pub closed spec fn wf(&self) -> bool {
        &&& self.ids@.no_duplicates()
        &&& forall|id: usize| #[trigger] self.slots@.contains_key(id) <==> self.ids@.contains(id)
    }

    /// An empty table whose next id is 1: id 0 belongs to the first receiver.
    pub fn new() -> (r: Self)
        ensures
            r.wf(),
            r@ == Map::<usize, Option<usize>>::empty(),
            r.next() == 1,
    {
        let r = WakerRegistry { slots: HashMap::new(), ids: Vec::new(), next_id: 1 };
        assert(r@ =~= Map::<usize, Option<usize>>::empty());
        r
    }

    /// Hands out the next registration id and advances the counter.
    pub fn allocate_id(&mut self) -> (id: usize)
        requires
            old(self).wf(),
        ensures
            final(self).wf(),
            id == old(self).next(),
            final(self).next() == next_after(old(self).next()),
            final(self)@ == old(self)@,
    {
        let id = self.next_id;
        self.next_id = self.next_id.wrapping_add(1);
        id
    }

    /// Whether `id` holds an armed handle.
    pub fn armed(&self, id: usize) -> (r: bool)
        ensures
            r == is_armed(self@, id),
    {
        match self.slots.get(&id) {
            Some(slot) => slot.is_some(),
            None => false,
        }
    }

    /// Whether `id` has an entry, armed or not.
    pub fn has_entry(&self, id: usize) -> (r: bool)
        ensures
            r == self@.contains_key(id),
    {
        self.slots.contains_key(&id)
    }

    fn store(&mut self, id: usize, slot: Option<Armed>)
        requires
            old(self).wf(),
        ensures
            final(self).wf(),
            final(self).next() == old(self).next(),
            final(self)@ == old(self)@.insert(id, token_of(slot)),
    {
        let ghost ids0 = self.ids@;
        if !self.slots.contains_key(&id) {
            self.ids.push(id);
            proof {
                lemma_push_contains(ids0, id);
            }
            assert forall|a: int, b: int|
                0 <= a < self.ids@.len() && 0 <= b < self.ids@.len() && a != b implies self.ids@[a]
                != self.ids@[b] by {
                if a < ids0.len() && b < ids0.len() {
                    assert(ids0[a] != ids0[b]);
                } else if a < ids0.len() {
                    assert(ids0.contains(ids0[a]));
                } else {
                    assert(ids0.contains(ids0[b]));
                }
            }
        }
        assert(forall|k: usize| #[trigger]
            self.ids@.contains(k) <==> (ids0.contains(k) || k == id));
        self.slots.insert(id, slot);
        assert(self@ =~= old(self)@.insert(id, token_of(slot)));
    }

    /// Arms `id` with `waker`, which the poller reports under `token`; a
    /// handle that `id` held before is dropped.
    pub fn arm(&mut self, id: usize, token: usize, waker: mio::Waker)
        requires
            old(self).wf(),
        ensures
            final(self).wf(),
            final(self).next() == old(self).next(),
            final(self)@ == old(self)@.insert(id, Some(token)),
    {
        self.store(id, Some(Armed { token, waker }));
    }

    /// Unarms `id`, dropping its handle; an entry that exists stays.
    pub fn disarm(&mut self, id: usize)
        requires
            old(self).wf(),
        ensures
            final(self).wf(),
            final(self).next() == old(self).next(),
            disarm_post(old(self)@, id, final(self)@),
    {
        if self.has_entry(id) {
            self.store(id, None);
        }
    }

    /// Signals every armed handle and returns the ids it signalled. A handle
    /// whose signal fails is passed over; the others are still signalled.
    pub fn wake_all(&self) -> (woken: Vec<usize>)
        requires
            self.wf(),
        ensures
            wakes_exactly(self@, woken@),
    {
        let mut woken: Vec<usize> = Vec::new();
        let mut i: usize = 0;
        while i < self.ids.len()
            invariant
                self.wf(),
                0 <= i <= self.ids@.len(),
                woken@.no_duplicates(),
                forall|id: usize| #[trigger]
                    woken@.contains(id) <==> (is_armed(self@, id) && self.ids@.subrange(
                        0,
                        i as int,
                    ).contains(id)),
            decreases self.ids@.len() - i,
        {
            let id = self.ids[i];
            assert(self.ids@.subrange(0, i + 1) =~= self.ids@.subrange(0, i as int).push(id));
            proof {
                lemma_push_contains(self.ids@.subrange(0, i as int), id);
            }
            assert(!self.ids@.subrange(0, i as int).contains(id)) by {
                if self.ids@.subrange(0, i as int).contains(id) {
                    let j = choose|j: int| 0 <= j < i && self.ids@.subrange(0, i as int)[j] == id;
                    assert(self.ids@[j] == self.ids@[i as int]);
                }
            }
            let ghost woken0 = woken@;
            match self.slots.get(&id) {
                Some(Some(a)) => {
                    let _ = a.waker.wake();
                    woken.push(id);
                    proof {
                        lemma_push_contains(woken0, id);
                    }
                    assert(is_armed(self@, id));
                    assert(!woken0.contains(id));
                    assert forall|a: int, b: int|
                        0 <= a < woken@.len() && 0 <= b < woken@.len() && a != b implies woken@[a]
                        != woken@[b] by {
                        if a < woken0.len() && b < woken0.len() {
                            assert(woken0[a] != woken0[b]);
                        } else if a < woken0.len() {
                            assert(woken0.contains(woken0[a]));
                        } else {
                            assert(woken0.contains(woken0[b]));
                        }
                    }
                    assert(forall|k: usize| #[trigger]
                        woken@.contains(k) <==> (woken0.contains(k) || k == id));
                },
                _ => {
                    assert(!is_armed(self@, id));
                },
            }
            assert(forall|k: usize| #[trigger]
                self.ids@.subrange(0, i + 1).contains(k) <==> (self.ids@.subrange(
                    0,
                    i as int,
                ).contains(k) || k == id));
            i += 1;
        }
        assert(self.ids@.subrange(0, self.ids@.len() as int) =~= self.ids@);
        woken
    }
}

} // verus!
