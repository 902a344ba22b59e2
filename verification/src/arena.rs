//! The socket arena: an owning, fixed-capacity store of `(Meta, Socket)`
//! pairs addressed by generation-tagged handles.
//!
//! A slot's generation survives its resident: every removal bumps it, so
//! every outstanding copy of the old handle is invalidated for good, and a
//! later resident of the same slot is reachable only through the fresh handle
//! issued for it.

use crate::socket::{Context, PollAt, Socket};
use crate::time::Instant;
use vstd::prelude::*;

verus! {

/// An opaque, copyable reference to a socket stored in a [`SocketSet`].
///
/// A handle is a weak reference — a lookup key, never an ownership relation.
/// It is safe to copy and to store in external tables, and must never be
/// treated as a raw array index: it names a socket only while its generation
/// matches the slot's, which [`SocketSet::get`] checks on every access.
#[derive(Clone, Copy, Debug, PartialEq, Eq, Hash, Structural)]
pub struct SocketHandle {
    index: usize,
    generation: u64,
}

impl SocketHandle {
    /// The slot identity this handle names.
    pub closed spec fn spec_index(self) -> int {
        self.index as int
    }
}

/// Why an arena operation failed.
#[derive(Clone, Copy, Debug, PartialEq, Eq, Structural)]
pub enum SetError {
    /// Every slot is taken: a recoverable condition; the caller decides the
    /// policy (reject, evict, queue).
    Exhausted,
    /// The handle's slot was removed — and possibly reused — since the handle
    /// was issued. Surfaced loudly: silence would hide dangling-handle bugs.
    Stale,
}

/// Per-slot bookkeeping paired 1:1 with a stored socket; owned exclusively by
/// the arena and never handed out.
struct Meta {
    /// The handle under which the resident socket was added.
    handle: SocketHandle,
}

/// One stored socket together with its bookkeeping.
struct Item {
    meta: Meta,
    socket: Socket,
}

/// One arena slot.
struct Slot {
    /// Bumped on every removal; a slot that exhausted its generations is
    /// retired rather than reused, so stale handles can never match again.
    generation: u64,
    /// The resident, while the slot is occupied.
    item: Option<Item>,
}

/// Whether `s`, sitting at slot index `i`, is internally consistent.
spec fn slot_ok(s: Slot, i: int) -> bool {
    match s.item {
        Some(it) => {
            &&& it.meta.handle.index == i
            &&& it.meta.handle.generation == s.generation
            &&& s.generation < u64::MAX
        },
        None => true,
    }
}

/// Whether `s` can take a new socket.
spec fn slot_free(s: Slot) -> bool {
    s.item is None && s.generation < u64::MAX
}

/// How many of the slots in `s` are occupied.
spec fn count_live(s: Seq<Slot>) -> nat
    decreases s.len(),
{
    if s.len() == 0 {
        0
    } else {
        count_live(s.drop_last()) + if s.last().item is Some {
            1nat
        } else {
            0nat
        }
    }
}

/// Replacing one slot changes the occupancy count by exactly the two slots'
/// difference.
broadcast proof fn lemma_count_live_update(s: Seq<Slot>, i: int, x: Slot)
    requires
        0 <= i < s.len(),
    ensures
        count_live(#[trigger] s.update(i, x)) + (if s[i].item is Some { 1int } else { 0int })
            == count_live(s) + (if x.item is Some { 1int } else { 0int }),
    decreases s.len(),
{
    if i == s.len() - 1 {
        assert(s.update(i, x).drop_last() =~= s.drop_last());
    } else {
        lemma_count_live_update(s.drop_last(), i, x);
        assert(s.update(i, x).drop_last() =~= s.drop_last().update(i, x));
        assert(s.update(i, x).last() == s.last());
    }
}

/// A sequence of empty slots has no occupants.
proof fn lemma_count_live_empty(s: Seq<Slot>)
    requires
        forall|i: int| 0 <= i < s.len() ==> (#[trigger] s[i]).item is None,
    ensures
        count_live(s) == 0,
    decreases s.len(),
{
    if s.len() > 0 {
        lemma_count_live_empty(s.drop_last());
    }
}

/// An owning, bounded collection of sockets addressed by [`SocketHandle`]s.
///
/// The arena is exclusively owned by the driving event loop; no two
/// simultaneously live handles name the same slot identity, and a removed
/// handle stays rejected forever, even after its slot is reused.
pub struct SocketSet {
    slots: Vec<Slot>,
}

impl SocketSet {
    /// The arena's internal consistency: every resident's bookkeeping names
    /// its own slot and the slot's current generation. Established by [`new`]
    /// and preserved by every operation.
    ///
    /// [`new`]: SocketSet::new
    pub closed spec fn wf(self) -> bool {
        forall|i: int| 0 <= i < self.slots@.len() ==> slot_ok(#[trigger] self.slots@[i], i)
    }

    /// The number of slots, fixed at construction.
    pub closed spec fn spec_capacity(self) -> nat {
        self.slots@.len()
    }

    /// The number of live sockets currently stored.
    pub closed spec fn live_count(self) -> nat {
        count_live(self.slots@)
    }

    /// Whether `h` currently names a live socket: its slot is occupied and
    /// the generations match.
    pub closed spec fn valid(self, h: SocketHandle) -> bool {
        &&& 0 <= h.index < self.slots@.len()
        &&& self.slots@[h.index as int].generation == h.generation
        &&& self.slots@[h.index as int].item is Some
    }

    /// The socket `h` names; meaningful only while `h` is valid.
    pub closed spec fn socket_at(self, h: SocketHandle) -> Socket
        recommends
            self.valid(h),
    {
        self.slots@[h.index as int].item->0.socket
    }

    /// Whether `h` was invalidated for good: its slot has moved past the
    /// generation the handle carries. A dead handle never becomes valid
    /// again, whatever is added or removed later.
    pub closed spec fn dead(self, h: SocketHandle) -> bool {
        &&& 0 <= h.index < self.slots@.len()
        &&& h.generation < self.slots@[h.index as int].generation
    }

    /// Whether `add` must fail: no slot can take a new socket.
    pub closed spec fn spec_full(self) -> bool {
        forall|i: int| 0 <= i < self.slots@.len() ==> !slot_free(#[trigger] self.slots@[i])
    }

    /// An empty arena with `capacity` slots, fixed for its lifetime.
    pub fn new(capacity: usize) -> (r: SocketSet)
        ensures
            r.wf(),
            r.spec_capacity() == capacity,
            r.live_count() == 0,
            forall|h: SocketHandle| !r.valid(h),
            forall|h: SocketHandle| !r.dead(h),
            r.spec_full() <==> capacity == 0,
    {
        let mut slots: Vec<Slot> = Vec::new();
        while slots.len() < capacity
            invariant
                slots@.len() <= capacity,
                forall|i: int| 0 <= i < slots@.len() ==> {
                    &&& (#[trigger] slots@[i]).generation == 0
                    &&& slots@[i].item is None
                },
            decreases capacity - slots@.len(),
        {
            slots.push(Slot { generation: 0, item: None });
        }
        proof {
            if capacity > 0 {
                assert(slot_free(slots@[0]));
            }
            lemma_count_live_empty(slots@);
        }
        SocketSet { slots }
    }

    /// Inserts `socket` into a free slot — reusing removed ones — and issues
    /// a handle carrying the slot's current generation tag. Every handle that
    /// was live stays live and keeps its socket; every handle that was dead
    /// stays dead; the fresh handle equals none of them.
    pub fn add(&mut self, socket: Socket) -> (r: Result<SocketHandle, SetError>)
        requires
            old(self).wf(),
        ensures
            final(self).wf(),
            final(self).spec_capacity() == old(self).spec_capacity(),
            r is Ok <==> !old(self).spec_full(),
            match r {
                Ok(h) => {
                    &&& !old(self).valid(h)
                    &&& !old(self).dead(h)
                    &&& final(self).valid(h)
                    &&& final(self).socket_at(h) == socket
                    &&& final(self).live_count() == old(self).live_count() + 1
                    &&& forall|h2: SocketHandle|
                        final(self).valid(h2) <==> (old(self).valid(h2) || h2 == h)
                    &&& forall|h2: SocketHandle| old(self).valid(h2)
                        ==> final(self).socket_at(h2) == old(self).socket_at(h2)
                    &&& forall|h2: SocketHandle| final(self).dead(h2) <==> old(self).dead(h2)
                },
                Err(e) => e == SetError::Exhausted && *final(self) == *old(self),
            },
    {
        let mut i: usize = 0;
        while i < self.slots.len()
            invariant
                self.wf(),
                *self == *old(self),
                i <= self.slots@.len(),
                forall|j: int| 0 <= j < i ==> !slot_free(#[trigger] self.slots@[j]),
            decreases self.slots@.len() - i,
        {
            if self.slots[i].item.is_none() && self.slots[i].generation < u64::MAX {
                let g = self.slots[i].generation;
                let h = SocketHandle { index: i, generation: g };
                self.slots[i] = Slot {
                    generation: g,
                    item: Some(Item { meta: Meta { handle: h }, socket }),
                };
                proof {
                    lemma_count_live_update(old(self).slots@, i as int, self.slots@[i as int]);
                }
                return Ok(h);
            }
            i += 1;
        }
        Err(SetError::Exhausted)
    }

    /// Evicts the socket `h` names, bumps the slot's generation — so every
    /// outstanding copy of `h` is dead for good — and returns ownership of
    /// the socket, so the caller may inspect terminal state. Removing the
    /// same handle twice fails the second time: silent tolerance would mask a
    /// dangling-handle bug in the caller.
    pub fn remove(&mut self, h: SocketHandle) -> (r: Result<Socket, SetError>)
        requires
            old(self).wf(),
        ensures
            final(self).wf(),
            final(self).spec_capacity() == old(self).spec_capacity(),
            r is Ok <==> old(self).valid(h),
            match r {
                Ok(s) => {
                    &&& s == old(self).socket_at(h)
                    &&& final(self).dead(h)
                    &&& final(self).live_count() + 1 == old(self).live_count()
                    &&& forall|h2: SocketHandle|
                        final(self).valid(h2) <==> (old(self).valid(h2) && h2 != h)
                    &&& forall|h2: SocketHandle| old(self).valid(h2) && h2 != h
                        ==> final(self).socket_at(h2) == old(self).socket_at(h2)
                    &&& forall|h2: SocketHandle|
                        final(self).dead(h2) <==> (old(self).dead(h2) || h2 == h)
                },
                Err(e) => e == SetError::Stale && *final(self) == *old(self),
            },
    {
        if h.index >= self.slots.len() {
            return Err(SetError::Stale);
        }
        if self.slots[h.index].generation != h.generation {
            return Err(SetError::Stale);
        }
        if self.slots[h.index].item.is_none() {
            return Err(SetError::Stale);
        }
        proof {
            assert(slot_ok(self.slots@[h.index as int], h.index as int));
        }
        let g = self.slots[h.index].generation;
        let mut taken = Slot { generation: g + 1, item: None };
        core::mem::swap(&mut taken, &mut self.slots[h.index]);
        proof {
            lemma_count_live_update(old(self).slots@, h.index as int,
                self.slots@[h.index as int]);
        }
        match taken.item {
            Some(item) => Ok(item.socket),
            None => vstd::pervasive::unreached(),
        }
    }

    /// A shared reference to the socket `h` names, or the stale-handle
    /// condition when `h`'s generation no longer matches its slot's.
    pub fn get(&self, h: SocketHandle) -> (r: Result<&Socket, SetError>)
        ensures
            r is Ok <==> self.valid(h),
            match r {
                Ok(s) => *s == self.socket_at(h),
                Err(e) => e == SetError::Stale,
            },
    {
        if h.index >= self.slots.len() {
            return Err(SetError::Stale);
        }
        if self.slots[h.index].generation != h.generation {
            return Err(SetError::Stale);
        }
        match &self.slots[h.index].item {
            Some(item) => Ok(&item.socket),
            None => Err(SetError::Stale),
        }
    }

    /// A mutable reference to the socket `h` names. The caller may mutate the
    /// resident's internal state through it; every other slot, and every
    /// handle's validity, stays exactly as it was.
    pub fn get_mut(&mut self, h: SocketHandle) -> (r: Result<&mut Socket, SetError>)
        requires
            old(self).wf(),
        ensures
            match r {
                Ok(s) => {
                    &&& old(self).valid(h)
                    &&& *s == old(self).socket_at(h)
                    &&& final(self).wf()
                    &&& final(self).spec_capacity() == old(self).spec_capacity()
                    &&& final(self).live_count() == old(self).live_count()
                    &&& final(self).socket_at(h) == *final(s)
                    &&& forall|h2: SocketHandle|
                        final(self).valid(h2) <==> old(self).valid(h2)
                    &&& forall|h2: SocketHandle|
                        final(self).dead(h2) <==> old(self).dead(h2)
                    &&& forall|h2: SocketHandle| old(self).valid(h2) && h2 != h
                        ==> final(self).socket_at(h2) == old(self).socket_at(h2)
                },
                Err(e) => {
                    &&& e == SetError::Stale
                    &&& !old(self).valid(h)
                    &&& *final(self) == *old(self)
                },
            },
    {
        if h.index >= self.slots.len() {
            return Err(SetError::Stale);
        }
        if self.slots[h.index].generation != h.generation {
            return Err(SetError::Stale);
        }
        if self.slots[h.index].item.is_none() {
            return Err(SetError::Stale);
        }
        proof {
            broadcast use lemma_count_live_update;

            assert(slot_ok(self.slots@[h.index as int], h.index as int));
        }
        match &mut self.slots[h.index].item {
            Some(item) => Ok(&mut item.socket),
            None => vstd::pervasive::unreached(),
        }
    }

    /// The handles of all live sockets, in arena iteration order: slot order,
    /// so insertion order unless a slot was reused. One full sweep over the
    /// result visits each live socket exactly once — the handles are valid,
    /// complete, and strictly ordered by slot, so none repeats.
    ///
    /// The vector is a snapshot, so removal during an active sweep cannot
    /// corrupt the remaining iteration: a handle removed mid-sweep simply
    /// fails `get` with the stale-handle condition, which the sweep skips.
    pub fn handles(&self) -> (r: Vec<SocketHandle>)
        requires
            self.wf(),
        ensures
            r@.len() == self.live_count(),
            forall|k: int| 0 <= k < r@.len() ==> self.valid(#[trigger] r@[k]),
            forall|h: SocketHandle| self.valid(h) ==> r@.contains(h),
            forall|k1: int, k2: int|
                0 <= k1 < k2 < r@.len() ==> r@[k1].spec_index() < r@[k2].spec_index(),
    {
        let mut r: Vec<SocketHandle> = Vec::new();
        let mut i: usize = 0;
        while i < self.slots.len()
            invariant
                self.wf(),
                i <= self.slots@.len(),
                r@.len() == count_live(self.slots@.take(i as int)),
                forall|k: int| 0 <= k < r@.len()
                    ==> self.valid(#[trigger] r@[k]) && r@[k].spec_index() < i,
                forall|h: SocketHandle| self.valid(h) && h.spec_index() < i ==> r@.contains(h),
                forall|k1: int, k2: int|
                    0 <= k1 < k2 < r@.len() ==> r@[k1].spec_index() < r@[k2].spec_index(),
            decreases self.slots@.len() - i,
        {
            let ghost prefix = r@;
            match &self.slots[i].item {
                Some(item) => {
                    proof {
                        assert(slot_ok(self.slots@[i as int], i as int));
                    }
                    r.push(item.meta.handle);
                },
                None => {},
            }
            proof {
                assert forall|h: SocketHandle| self.valid(h) && h.spec_index() < i + 1
                    implies r@.contains(h) by {
                    if h.spec_index() < i {
                        let k = choose|k: int| 0 <= k < prefix.len() && prefix[k] == h;
                        assert(r@[k] == h);
                    } else {
                        assert(slot_ok(self.slots@[i as int], i as int));
                        assert(r@[r@.len() - 1] == h);
                    }
                }
                assert(self.slots@.take(i + 1).drop_last() =~= self.slots@.take(i as int));
                assert(self.slots@.take(i + 1).last() == self.slots@[i as int]);
            }
            i += 1;
        }
        proof {
            assert(self.slots@.take(self.slots@.len() as int) =~= self.slots@);
        }
        r
    }

    /// When the event loop must poll next, at the tick `cx` describes: `Now`
    /// if any live socket demands an immediate poll; else the earliest armed
    /// deadline; else `Ingress`.
    pub fn poll_at(&self, cx: &Context) -> (r: PollAt)
        requires
            self.wf(),
        ensures
            r is Now <==> exists|h: SocketHandle|
                self.valid(h) && (#[trigger] self.socket_at(h)).spec_poll_at(cx.now) is Now,
            r matches PollAt::Time(t) ==> {
                &&& exists|h: SocketHandle|
                    self.valid(h) && (#[trigger] self.socket_at(h)).spec_poll_at(cx.now)
                        == PollAt::Time(t)
                &&& forall|h: SocketHandle|
                    self.valid(h) && (#[trigger] self.socket_at(h)).spec_poll_at(cx.now) is Time
                        ==> t.millis <= self.socket_at(h).spec_poll_at(cx.now)->0.millis
            },
            r is Ingress <==> forall|h: SocketHandle|
                self.valid(h)
                    ==> (#[trigger] self.socket_at(h)).spec_poll_at(cx.now) is Ingress,
    {
        let mut best: Option<Instant> = None;
        let mut i: usize = 0;
        while i < self.slots.len()
            invariant
                self.wf(),
                i <= self.slots@.len(),
                forall|h: SocketHandle| self.valid(h) && h.spec_index() < i
                    ==> !((#[trigger] self.socket_at(h)).spec_poll_at(cx.now) is Now),
                best is None ==> forall|h: SocketHandle|
                    self.valid(h) && h.spec_index() < i
                        ==> (#[trigger] self.socket_at(h)).spec_poll_at(cx.now) is Ingress,
                best matches Some(b) ==> {
                    &&& exists|h: SocketHandle|
                        self.valid(h) && h.spec_index() < i
                            && (#[trigger] self.socket_at(h)).spec_poll_at(cx.now)
                                == PollAt::Time(b)
                    &&& forall|h: SocketHandle|
                        self.valid(h) && h.spec_index() < i
                            && (#[trigger] self.socket_at(h)).spec_poll_at(cx.now) is Time
                            ==> b.millis <= self.socket_at(h).spec_poll_at(cx.now)->0.millis
                },
            decreases self.slots@.len() - i,
        {
            match &self.slots[i].item {
                Some(item) => {
                    proof {
                        assert(slot_ok(self.slots@[i as int], i as int));
                        assert(self.valid(item.meta.handle));
                        assert(self.socket_at(item.meta.handle) == item.socket);
                    }
                    match item.socket.poll_at(cx) {
                        PollAt::Now => {
                            return PollAt::Now;
                        },
                        PollAt::Time(t) => {
                            best = match best {
                                Some(b) => if t.millis < b.millis {
                                    Some(t)
                                } else {
                                    Some(b)
                                },
                                None => Some(t),
                            };
                        },
                        PollAt::Ingress => {},
                    }
                },
                None => {},
            }
            i += 1;
        }
        match best {
            Some(t) => PollAt::Time(t),
            None => PollAt::Ingress,
        }
    }
}

/// Law: no two simultaneously live handles name the same slot identity. Two
/// valid handles on one slot carry the slot's one current generation, so they
/// are the same handle.
pub proof fn lemma_handle_uniqueness(s: SocketSet, h1: SocketHandle, h2: SocketHandle)
    requires
        s.valid(h1),
        s.valid(h2),
        h1.spec_index() == h2.spec_index(),
    ensures
        h1 == h2,
{
}

/// Law: one full sweep visits each live socket exactly once. The handles a
/// sweep works through are strictly ordered by slot identity, as
/// [`SocketSet::handles`] ensures, so no handle — and with
/// [`lemma_handle_uniqueness`], no socket — appears twice.
pub proof fn lemma_sweep_no_repeats(r: Seq<SocketHandle>, k1: int, k2: int)
    requires
        forall|a: int, b: int| 0 <= a < b < r.len() ==> r[a].spec_index() < r[b].spec_index(),
        0 <= k1 < r.len(),
        0 <= k2 < r.len(),
        k1 != k2,
    ensures
        r[k1] != r[k2],
{
    if k1 < k2 {
        assert(r[k1].spec_index() < r[k2].spec_index());
    } else {
        assert(r[k2].spec_index() < r[k1].spec_index());
    }
}

/// Law: a dead handle is rejected. Once a removal has moved a slot past the
/// generation a handle carries, that handle never names a socket again —
/// `get`, `get_mut` and `remove` all fail on it with the stale-handle
/// condition, however the slot is reused, because every operation's contract
/// keeps dead handles dead.
pub proof fn lemma_dead_handle_rejected(s: SocketSet, h: SocketHandle)
    requires
        s.dead(h),
    ensures
        !s.valid(h),
{
}

} // verus!
