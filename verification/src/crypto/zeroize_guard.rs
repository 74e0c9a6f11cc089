//! The key arena: centralized key material storage with an atomic wipe.
//!
//! All key material lives in one arena that can be wiped at once on a panic
//! or a security event. Every entry that leaves the arena, by removal or by
//! a wipe, is scrubbed first ([`KeyEntry::scrub`]).
//!
//! [`GlobalKeyArena`] is the arena cell: empty until [`GlobalKeyArena::init`]
//! creates the arena, as a once-initialized cell would be. The process-wide
//! instance and its lock are held by the caller.

use vstd::prelude::*;

use crate::crypto::error::CryptoError;
use crate::crypto::key_management::{KeyEntry, KeyHandle, KeyMaterial, KeyPurpose};

verus! {

/// Maximum number of concurrent keys in the arena.
///
/// 256 slots suffice for enterprise messaging: a session needs about ten
/// keys, which leaves room for 25 concurrent MLS groups and `.tapp` keys.
pub const MAX_ARENA_SLOTS: usize = 256;

/// What an initialized arena holds: one optional entry per slot, and the
/// generation that the next stored key receives.
pub struct ArenaState {
    pub slots: Seq<Option<KeyEntry>>,
    pub next_generation: u32,
}

/// Every slot empty.
pub open spec fn empty_slots() -> Seq<Option<KeyEntry>> {
    Seq::new(MAX_ARENA_SLOTS as nat, |i: int| None)
}

/// A freshly created arena: all slots empty, next generation 1.
pub open spec fn fresh_state() -> ArenaState {
    ArenaState { slots: empty_slots(), next_generation: 1 }
}

/// An initialized arena has exactly `MAX_ARENA_SLOTS` slots.
pub open spec fn valid_state(st: ArenaState) -> bool {
    st.slots.len() == MAX_ARENA_SLOTS
}

/// Slot `i` exists and is empty.
pub open spec fn slot_free(slots: Seq<Option<KeyEntry>>, i: int) -> bool {
    0 <= i < slots.len() && slots[i] is None
}

/// Slot `i` is the first empty slot.
pub open spec fn first_free(slots: Seq<Option<KeyEntry>>, i: int) -> bool {
    &&& slot_free(slots, i)
    &&& forall|j: int| 0 <= j < i ==> #[trigger] slots[j] is Some
}

/// Some slot is empty.
pub open spec fn has_free_slot(slots: Seq<Option<KeyEntry>>) -> bool {
    exists|i: int| slot_free(slots, i)
}

/// The generation counter after one key was stored: it wraps around.
pub open spec fn generation_after(g: u32) -> u32 {
    if g == u32::MAX {
        0
    } else {
        (g + 1) as u32
    }
}

/// The handle designates a stored key: its slot exists, holds an entry, and
/// the entry carries the handle's generation.
pub open spec fn handle_is_live(st: ArenaState, h: KeyHandle) -> bool {
    &&& (h@.0 as int) < st.slots.len()
    &&& st.slots[h@.0 as int] is Some
    &&& st.slots[h@.0 as int]->0.generation == h@.1
}

/// The outcome of storing `material`: the key goes to the first empty slot
/// with the next generation, which then advances; an uninitialized arena
/// answers `KeyNotFound` and a full arena `ArenaCapacityExhausted`, and
/// neither changes.
pub open spec fn store_post(
    pre: Option<ArenaState>,
    material: KeyMaterial,
    purpose: KeyPurpose,
    is_hardware_backed: bool,
    post: Option<ArenaState>,
    r: Result<KeyHandle, CryptoError>,
) -> bool {
    match pre {
        None => post == pre && r == Err::<KeyHandle, CryptoError>(CryptoError::KeyNotFound),
        Some(st) => if !has_free_slot(st.slots) {
            post == pre && r == Err::<KeyHandle, CryptoError>(CryptoError::ArenaCapacityExhausted)
        } else {
            match r {
                Ok(h) => {
                    &&& first_free(st.slots, h@.0 as int)
                    &&& h@.1 == st.next_generation
                    &&& post == Some(ArenaState {
                        slots: st.slots.update(
                            h@.0 as int,
                            Some(KeyEntry {
                                material,
                                purpose,
                                generation: st.next_generation,
                                is_hardware_backed,
                            }),
                        ),
                        next_generation: generation_after(st.next_generation),
                    })
                },
                Err(_) => false,
            }
        },
    }
}

/// The outcome of removing the key designated by `h`: a live handle empties
/// its slot; any other handle, or an uninitialized arena, answers
/// `KeyNotFound` and changes nothing.
pub open spec fn remove_post(
    pre: Option<ArenaState>,
    h: KeyHandle,
    post: Option<ArenaState>,
    r: Result<(), CryptoError>,
) -> bool {
    if pre is Some && handle_is_live(pre->0, h) {
        &&& r is Ok
        &&& post == Some(ArenaState {
            slots: pre->0.slots.update(h@.0 as int, None),
            next_generation: pre->0.next_generation,
        })
    } else {
        post == pre && r == Err::<(), CryptoError>(CryptoError::KeyNotFound)
    }
}

/// The outcome of an emergency wipe: an initialized arena loses every key
/// and keeps its generation counter, so that no handle issued before the
/// wipe can match a key stored after it; an uninitialized arena stays so.
pub open spec fn wipe_post(pre: Option<ArenaState>, post: Option<ArenaState>) -> bool {
    post == (if pre is Some {
        Some(ArenaState { slots: empty_slots(), next_generation: pre->0.next_generation })
    } else {
        None::<ArenaState>
    })
}

/// The outcome of `init`: the first call creates a fresh arena, later calls
/// change nothing.
pub open spec fn init_post(pre: Option<ArenaState>, post: Option<ArenaState>) -> bool {
    post == (if pre is None {
        Some(fresh_state())
    } else {
        pre
    })
}

/// What a store does: before `init` it answers `KeyNotFound`; otherwise it
/// succeeds exactly when some slot is empty, puts the key with its purpose
/// and hardware flag into the lowest empty slot, stamps it with the counter,
/// advances the counter by one (wrapping to 0 after `u32::MAX`) and leaves
/// every other slot alone; a refused store changes nothing.
pub proof fn law_store_outcome(
    pre: Option<ArenaState>,
    material: KeyMaterial,
    purpose: KeyPurpose,
    is_hardware_backed: bool,
    post: Option<ArenaState>,
    r: Result<KeyHandle, CryptoError>,
)
    requires
        store_post(pre, material, purpose, is_hardware_backed, post, r),
    ensures
        pre is None ==> r == Err::<KeyHandle, CryptoError>(CryptoError::KeyNotFound),
        pre matches Some(st) ==> (r is Ok <==> exists|i: int| 0 <= i < st.slots.len() && #[trigger] st.slots[i] is None),
        pre matches Some(st) && r is Err ==> r == Err::<KeyHandle, CryptoError>(CryptoError::ArenaCapacityExhausted),
        r is Err ==> post == pre,
        r matches Ok(h) ==> {
            let st = pre->0;
            let st2 = post->0;
            &&& pre is Some && post is Some
            &&& 0 <= h@.0 < st.slots.len()
            &&& st.slots[h@.0 as int] is None
            &&& forall|j: int| 0 <= j < h@.0 ==> #[trigger] st.slots[j] is Some
            &&& h@.1 == st.next_generation
            &&& st2.slots.len() == st.slots.len()
            &&& st2.slots[h@.0 as int] == Some(KeyEntry {
                material,
                purpose,
                generation: st.next_generation,
                is_hardware_backed,
            })
            &&& forall|j: int| 0 <= j < st.slots.len() && j != h@.0 ==> #[trigger] st2.slots[j] == st.slots[j]
            &&& st.next_generation < u32::MAX ==> st2.next_generation == st.next_generation + 1
            &&& st.next_generation == u32::MAX ==> st2.next_generation == 0
        },
{
    if pre is Some && r is Ok {
        let st = pre->0;
        let h = r->Ok_0;
        assert(st.slots[h@.0 as int] is None);
    }
    if pre is Some && exists|i: int| 0 <= i < pre->0.slots.len() && #[trigger] pre->0.slots[i] is None {
        let st = pre->0;
        let i = choose|i: int| 0 <= i < st.slots.len() && #[trigger] st.slots[i] is None;
        assert(slot_free(st.slots, i));
    }
}

/// What a removal does: it succeeds exactly when the arena is initialized
/// and the handle's slot exists, holds a key, and that key carries the
/// handle's generation; it then empties that slot only and keeps the
/// counter. Any other removal answers `KeyNotFound` and changes nothing.
pub proof fn law_remove_outcome(
    pre: Option<ArenaState>,
    h: KeyHandle,
    post: Option<ArenaState>,
    r: Result<(), CryptoError>,
)
    requires
        remove_post(pre, h, post, r),
    ensures
        r is Ok <==> (pre is Some && (h@.0 as int) < pre->0.slots.len() && pre->0.slots[h@.0 as int] is Some
            && pre->0.slots[h@.0 as int]->0.generation == h@.1),
        r is Err ==> r == Err::<(), CryptoError>(CryptoError::KeyNotFound) && post == pre,
        r is Ok ==> {
            let st = pre->0;
            let st2 = post->0;
            &&& post is Some
            &&& st2.slots.len() == st.slots.len()
            &&& st2.slots[h@.0 as int] is None
            &&& forall|j: int| 0 <= j < st.slots.len() && j != h@.0 ==> #[trigger] st2.slots[j] == st.slots[j]
            &&& st2.next_generation == st.next_generation
        },
{
}

/// What `init` and an emergency wipe do: `init` creates an arena of
/// `MAX_ARENA_SLOTS` empty slots with counter 1 the first time and changes
/// nothing later; a wipe empties every slot of an initialized arena, keeps
/// its counter, and leaves an uninitialized arena so.
pub proof fn law_init_and_wipe(pre: Option<ArenaState>, inited: Option<ArenaState>, wiped: Option<ArenaState>)
    requires
        init_post(pre, inited),
        wipe_post(pre, wiped),
    ensures
        pre is Some ==> inited == pre,
        pre is None ==> inited is Some && inited->0.next_generation == 1 && inited->0.slots.len()
            == MAX_ARENA_SLOTS && forall|i: int|
            0 <= i < inited->0.slots.len() ==> #[trigger] inited->0.slots[i] is None,
        pre is None ==> wiped is None,
        pre is Some ==> wiped is Some && wiped->0.next_generation == pre->0.next_generation
            && wiped->0.slots.len() == MAX_ARENA_SLOTS && forall|i: int|
            0 <= i < wiped->0.slots.len() ==> #[trigger] wiped->0.slots[i] is None,
{
}

/// Removing the key that was just stored succeeds and gives back the slots
/// the arena had before the store.
pub proof fn law_remove_undoes_store(
    pre: ArenaState,
    material: KeyMaterial,
    purpose: KeyPurpose,
    is_hardware_backed: bool,
    mid: Option<ArenaState>,
    h: KeyHandle,
    post: Option<ArenaState>,
    r: Result<(), CryptoError>,
)
    requires
        valid_state(pre),
        store_post(Some(pre), material, purpose, is_hardware_backed, mid, Ok(h)),
        remove_post(mid, h, post, r),
    ensures
        r is Ok,
        post is Some,
        post->0.slots == pre.slots,
{
    let st = mid->0;
    assert(handle_is_live(st, h));
    assert(post->0.slots =~= pre.slots);
}

/// A handle whose key was removed is dead: removing it again answers
/// `KeyNotFound` and changes nothing.
pub proof fn law_removed_handle_is_dead(
    pre: Option<ArenaState>,
    h: KeyHandle,
    mid: Option<ArenaState>,
    r1: Result<(), CryptoError>,
    post: Option<ArenaState>,
    r2: Result<(), CryptoError>,
)
    requires
        remove_post(pre, h, mid, r1),
        r1 is Ok,
        remove_post(mid, h, post, r2),
    ensures
        r2 == Err::<(), CryptoError>(CryptoError::KeyNotFound),
        post == mid,
{
}

/// After an emergency wipe no handle designates a key: every removal answers
/// `KeyNotFound`.
pub proof fn law_wipe_invalidates_every_handle(
    pre: Option<ArenaState>,
    mid: Option<ArenaState>,
    h: KeyHandle,
    post: Option<ArenaState>,
    r: Result<(), CryptoError>,
)
    requires
        wipe_post(pre, mid),
        remove_post(mid, h, post, r),
    ensures
        r == Err::<(), CryptoError>(CryptoError::KeyNotFound),
        post == mid,
{
    if mid is Some && handle_is_live(mid->0, h) {
        assert(mid->0.slots[h@.0 as int] is None);
    }
}

/// One call on the arena, with the result it gave.
pub enum ArenaCall {
    Init,
    Store {
        material: KeyMaterial,
        purpose: KeyPurpose,
        is_hardware_backed: bool,
        stored: Result<KeyHandle, CryptoError>,
    },
    Remove { handle: KeyHandle, removed: Result<(), CryptoError> },
    Wipe,
}

/// `call` took the arena from `pre` to `post`.
pub open spec fn call_post(pre: Option<ArenaState>, call: ArenaCall, post: Option<ArenaState>) -> bool {
    match call {
        ArenaCall::Init => init_post(pre, post),
        ArenaCall::Store { material, purpose, is_hardware_backed, stored } => store_post(
            pre,
            material,
            purpose,
            is_hardware_backed,
            post,
            stored,
        ),
        ArenaCall::Remove { handle, removed } => remove_post(pre, handle, post, removed),
        ArenaCall::Wipe => wipe_post(pre, post),
    }
}

/// A sequence of calls: `calls[i]` took the arena from `states[i]` to
/// `states[i + 1]`.
pub open spec fn is_run(states: Seq<Option<ArenaState>>, calls: Seq<ArenaCall>) -> bool {
    &&& states.len() == calls.len() + 1
    &&& forall|i: int| 0 <= i < calls.len() ==> #[trigger] call_post(states[i], calls[i], states[i + 1])
}

/// No store in the run finds the generation counter at its maximum: the
/// counter does not wrap around (fewer than 2^32 stores).
pub open spec fn no_generation_wrap(states: Seq<Option<ArenaState>>, calls: Seq<ArenaCall>) -> bool {
    forall|i: int|
        0 <= i < calls.len() && #[trigger] calls[i] is Store && states[i] is Some
            ==> states[i]->0.next_generation < u32::MAX
}

/// Every key in the arena carries a generation below the counter, as in
/// every arena that `init` created and no wrap-around touched.
pub open spec fn counter_ahead(st: ArenaState) -> bool {
    forall|i: int|
        0 <= i < st.slots.len() && #[trigger] st.slots[i] is Some ==> st.slots[i]->0.generation
            < st.next_generation
}

/// Not initialized, or initialized with every key below the counter.
pub open spec fn arena_ok(a: Option<ArenaState>) -> bool {
    a matches Some(st) ==> counter_ahead(st)
}

/// The handle designates no key, and its generation was already issued.
pub open spec fn handle_dead(st: ArenaState, h: KeyHandle) -> bool {
    !handle_is_live(st, h) && h@.1 < st.next_generation
}

proof fn lemma_call_keeps_counter(pre: Option<ArenaState>, call: ArenaCall, post: Option<ArenaState>)
    requires
        arena_ok(pre),
        call_post(pre, call, post),
        call is Store && pre is Some ==> pre->0.next_generation < u32::MAX,
    ensures
        arena_ok(post),
        pre is Some ==> post is Some && post->0.next_generation >= pre->0.next_generation,
{
    if pre is Some {
        let st = pre->0;
        match call {
            ArenaCall::Store { material, purpose, is_hardware_backed, stored } => {
                if stored is Ok {
                    let post_st = post->0;
                    assert forall|i: int|
                        0 <= i < post_st.slots.len() && #[trigger] post_st.slots[i] is Some implies post_st.slots[i]->0.generation
                            < post_st.next_generation by {
                        if i != stored->Ok_0@.0 as int {
                            assert(post_st.slots[i] == st.slots[i]);
                        }
                    }
                }
            },
            ArenaCall::Remove { handle, removed } => {
                if removed is Ok {
                    let post_st = post->0;
                    assert forall|i: int|
                        0 <= i < post_st.slots.len() && #[trigger] post_st.slots[i] is Some implies post_st.slots[i]->0.generation
                            < post_st.next_generation by {
                        assert(post_st.slots[i] == st.slots[i]);
                    }
                }
            },
            _ => {},
        }
    }
}

proof fn lemma_run_counter(states: Seq<Option<ArenaState>>, calls: Seq<ArenaCall>, k: int)
    requires
        is_run(states, calls),
        no_generation_wrap(states, calls),
        0 <= k <= calls.len(),
        arena_ok(states[k]),
    ensures
        forall|j: int| k <= j <= calls.len() ==> arena_ok(#[trigger] states[j]),
        forall|j: int|
            k <= j <= calls.len() && states[k] is Some ==> #[trigger] states[j] is Some
                && states[j]->0.next_generation >= states[k]->0.next_generation,
    decreases calls.len() - k,
{
    if k < calls.len() {
        assert(call_post(states[k], calls[k], states[k + 1]));
        lemma_call_keeps_counter(states[k], calls[k], states[k + 1]);
        lemma_run_counter(states, calls, k + 1);
    }
}

proof fn lemma_call_keeps_dead(pre: ArenaState, call: ArenaCall, post: Option<ArenaState>, h: KeyHandle)
    requires
        counter_ahead(pre),
        call_post(Some(pre), call, post),
        call is Store ==> pre.next_generation < u32::MAX,
        handle_dead(pre, h),
    ensures
        post is Some,
        handle_dead(post->0, h),
{
    lemma_call_keeps_counter(Some(pre), call, post);
    match call {
        ArenaCall::Store { material, purpose, is_hardware_backed, stored } => {
            if stored is Ok && stored->Ok_0@.0 == h@.0 {
                assert(post->0.slots[h@.0 as int]->0.generation == pre.next_generation);
            }
        },
        _ => {},
    }
}

proof fn lemma_run_keeps_dead(states: Seq<Option<ArenaState>>, calls: Seq<ArenaCall>, k: int, h: KeyHandle)
    requires
        is_run(states, calls),
        no_generation_wrap(states, calls),
        0 <= k <= calls.len(),
        states[k] is Some,
        counter_ahead(states[k]->0),
        handle_dead(states[k]->0, h),
    ensures
        forall|j: int| k <= j <= calls.len() ==> #[trigger] states[j] is Some && handle_dead(states[j]->0, h),
    decreases calls.len() - k,
{
    if k < calls.len() {
        assert(call_post(states[k], calls[k], states[k + 1]));
        lemma_call_keeps_dead(states[k]->0, calls[k], states[k + 1], h);
        lemma_call_keeps_counter(states[k], calls[k], states[k + 1]);
        lemma_run_keeps_dead(states, calls, k + 1, h);
    }
}

/// A dead handle is refused: removing with it answers `KeyNotFound` and
/// changes nothing.
proof fn lemma_dead_handle_refused(pre: ArenaState, h: KeyHandle, post: Option<ArenaState>, r: Result<(), CryptoError>)
    requires
        handle_dead(pre, h),
        remove_post(Some(pre), h, post, r),
    ensures
        post == Some(pre),
        r == Err::<(), CryptoError>(CryptoError::KeyNotFound),
{
}

/// A removed handle stays dead, whatever calls come after its removal: every
/// later removal with it answers `KeyNotFound` and changes nothing, even once
/// its slot holds another key. (Excluded: runs in which the generation
/// counter wraps around.)
pub proof fn law_removed_handle_stays_dead(
    states: Seq<Option<ArenaState>>,
    calls: Seq<ArenaCall>,
    k: int,
    h: KeyHandle,
)
    requires
        is_run(states, calls),
        no_generation_wrap(states, calls),
        arena_ok(states[0]),
        0 <= k < calls.len(),
        calls[k] is Remove,
        calls[k]->handle@ == h@,
        calls[k]->removed is Ok,
    ensures
        forall|j: int|
            k < j < calls.len() && #[trigger] calls[j] is Remove && calls[j]->handle@ == h@ ==> {
                &&& calls[j]->removed == Err::<(), CryptoError>(CryptoError::KeyNotFound)
                &&& states[j + 1] == states[j]
            },
{
    lemma_run_counter(states, calls, 0);
    assert(arena_ok(states[k]));
    assert(call_post(states[k], calls[k], states[k + 1]));
    let st = states[k]->0;
    assert(handle_dead(states[k + 1]->0, h));
    lemma_run_keeps_dead(states, calls, k + 1, h);
    assert forall|j: int|
        k < j < calls.len() && #[trigger] calls[j] is Remove && calls[j]->handle@ == h@ implies {
            &&& calls[j]->removed == Err::<(), CryptoError>(CryptoError::KeyNotFound)
            &&& states[j + 1] == states[j]
        } by {
        assert(call_post(states[j], calls[j], states[j + 1]));
        assert(states[j] is Some && handle_dead(states[j]->0, h));
    }
}

/// Every handle issued before an emergency wipe is dead after it: every
/// later removal with it answers `KeyNotFound` and changes nothing, even
/// once its slot holds another key. (Excluded: runs in which the generation
/// counter wraps around.)
pub proof fn law_wipe_kills_issued_handles(
    states: Seq<Option<ArenaState>>,
    calls: Seq<ArenaCall>,
    m: int,
    k: int,
    h: KeyHandle,
)
    requires
        is_run(states, calls),
        no_generation_wrap(states, calls),
        arena_ok(states[0]),
        0 <= m < k < calls.len(),
        calls[m] is Store,
        calls[m]->stored is Ok,
        calls[m]->stored->Ok_0@ == h@,
        calls[k] is Wipe,
    ensures
        forall|j: int|
            k < j < calls.len() && #[trigger] calls[j] is Remove && calls[j]->handle@ == h@ ==> {
                &&& calls[j]->removed == Err::<(), CryptoError>(CryptoError::KeyNotFound)
                &&& states[j + 1] == states[j]
            },
{
    lemma_run_counter(states, calls, 0);
    assert(call_post(states[m], calls[m], states[m + 1]));
    assert(states[m] is Some);
    assert(arena_ok(states[m + 1]));
    assert(states[m + 1] is Some);
    assert(h@.1 < states[m + 1]->0.next_generation);
    lemma_run_counter(states, calls, m + 1);
    assert(states[k] is Some && states[k]->0.next_generation >= states[m + 1]->0.next_generation);
    assert(call_post(states[k], calls[k], states[k + 1]));
    assert(handle_dead(states[k + 1]->0, h));
    assert(arena_ok(states[k + 1]));
    lemma_run_keeps_dead(states, calls, k + 1, h);
    assert forall|j: int|
        k < j < calls.len() && #[trigger] calls[j] is Remove && calls[j]->handle@ == h@ implies {
            &&& calls[j]->removed == Err::<(), CryptoError>(CryptoError::KeyNotFound)
            &&& states[j + 1] == states[j]
        } by {
        assert(call_post(states[j], calls[j], states[j + 1]));
        assert(states[j] is Some && handle_dead(states[j]->0, h));
    }
}

/// Storing a key keeps every other key: each handle live before the store is
/// still live after it, the new handle is live, and it names another slot.
pub proof fn law_store_keeps_other_keys(
    pre: ArenaState,
    material: KeyMaterial,
    purpose: KeyPurpose,
    is_hardware_backed: bool,
    post: Option<ArenaState>,
    h: KeyHandle,
    other: KeyHandle,
)
    requires
        store_post(Some(pre), material, purpose, is_hardware_backed, post, Ok(h)),
        handle_is_live(pre, other),
    ensures
        post is Some,
        handle_is_live(post->0, h),
        handle_is_live(post->0, other),
        other@.0 != h@.0,
{
}

/// Removing a key keeps every key in another slot.
pub proof fn law_remove_keeps_other_keys(
    pre: ArenaState,
    h: KeyHandle,
    post: Option<ArenaState>,
    r: Result<(), CryptoError>,
    other: KeyHandle,
)
    requires
        remove_post(Some(pre), h, post, r),
        handle_is_live(pre, other),
        other@.0 != h@.0,
    ensures
        post is Some,
        handle_is_live(post->0, other),
{
}

/// The arena itself: a fixed table of slots and the generation counter.
struct ArenaInner {
    slots: Vec<Option<KeyEntry>>,
    next_generation: u32,
}

impl ArenaInner {
    spec fn state(&self) -> ArenaState {
        ArenaState { slots: self.slots@, next_generation: self.next_generation }
    }

    fn new() -> (a: Self)
        ensures
            a.state() == fresh_state(),
    {
        let mut slots: Vec<Option<KeyEntry>> = Vec::with_capacity(MAX_ARENA_SLOTS);
        let mut i: usize = 0;
        while i < MAX_ARENA_SLOTS
            invariant
                i <= MAX_ARENA_SLOTS,
                slots@.len() == i,
                forall|j: int| 0 <= j < i ==> #[trigger] slots@[j] is None,
            decreases MAX_ARENA_SLOTS - i,
        {
            slots.push(None);
            i = i + 1;
        }
        proof {
            assert(slots@ =~= empty_slots());
        }
        ArenaInner { slots, next_generation: 1 }
    }

    /// Empties every slot, scrubbing each entry; the generation counter is kept.
    fn wipe(&mut self)
        requires
            valid_state(old(self).state()),
        ensures
            final(self).state() == (ArenaState {
                slots: empty_slots(),
                next_generation: old(self).next_generation,
            }),
    {
        let n = self.slots.len();
        let mut i: usize = 0;
        while i < n
            invariant
                n == MAX_ARENA_SLOTS,
                self.slots@.len() == n,
                self.next_generation == old(self).next_generation,
                i <= n,
                forall|j: int| 0 <= j < i ==> #[trigger] self.slots@[j] is None,
            decreases n - i,
        {
            let mut taken: Option<KeyEntry> = None;
            self.slots.set_and_swap(i, &mut taken);
            if let Some(mut entry) = taken {
                entry.scrub();
            }
            i = i + 1;
        }
        proof {
            assert(self.slots@ =~= empty_slots());
        }
    }

    fn store(&mut self, material: KeyMaterial, purpose: KeyPurpose, is_hardware_backed: bool) -> (r:
        Result<KeyHandle, CryptoError>)
        requires
            valid_state(old(self).state()),
        ensures
            valid_state(final(self).state()),
            store_post(
                Some(old(self).state()),
                material,
                purpose,
                is_hardware_backed,
                Some(final(self).state()),
                r,
            ),
    {
        let n = self.slots.len();
        let mut i: usize = 0;
        while i < n && self.slots[i].is_some()
            invariant
                n == self.slots@.len(),
                n == MAX_ARENA_SLOTS,
                i <= n,
                forall|j: int| 0 <= j < i ==> #[trigger] self.slots@[j] is Some,
            decreases n - i,
        {
            i = i + 1;
        }
        if i == n {
            let mut rejected = material;
            rejected.zeroize();
            return Err(CryptoError::ArenaCapacityExhausted);
        }
        assert(slot_free(self.slots@, i as int));
        let generation = self.next_generation;
        self.next_generation = self.next_generation.wrapping_add(1);
        assert(self.next_generation == generation_after(generation));
        self.slots.set(
            i,
            Some(KeyEntry { material, purpose, generation, is_hardware_backed }),
        );
        Ok(KeyHandle::new(i as u32, generation))
    }

    fn remove(&mut self, handle: KeyHandle) -> (r: Result<(), CryptoError>)
        requires
            valid_state(old(self).state()),
        ensures
            valid_state(final(self).state()),
            remove_post(Some(old(self).state()), handle, Some(final(self).state()), r),
    {
        let slot_idx = handle.slot() as usize;
        if slot_idx >= MAX_ARENA_SLOTS {
            return Err(CryptoError::KeyNotFound);
        }
        let live = match &self.slots[slot_idx] {
            Some(entry) => entry.generation == handle.generation(),
            None => false,
        };
        if live {
            let mut taken: Option<KeyEntry> = None;
            self.slots.set_and_swap(slot_idx, &mut taken);
            if let Some(mut entry) = taken {
                entry.scrub();
            }
            Ok(())
        } else {
            Err(CryptoError::KeyNotFound)
        }
    }
}

/// Centralized key material storage with atomic wipe capability.
///
/// The cell is empty until [`GlobalKeyArena::init`] creates the arena; key
/// operations on an empty cell answer `KeyNotFound`.
pub struct GlobalKeyArena {
    cell: Option<ArenaInner>,
}

impl View for GlobalKeyArena {
    /// `None` before initialization, then the arena's state.
    type V = Option<ArenaState>;

    closed spec fn view(&self) -> Option<ArenaState> {
        match self.cell {
            Some(inner) => Some(inner.state()),
            None => None,
        }
    }
}

impl GlobalKeyArena {
    #[verifier::type_invariant]
    spec fn cell_is_valid(self) -> bool {
        match self.cell {
            Some(inner) => valid_state(inner.state()),
            None => true,
        }
    }

    /// An empty, not yet initialized arena cell.
    pub fn new() -> (a: Self)
        ensures
            a@ is None,
    {
        GlobalKeyArena { cell: None }
    }

    /// Initializes the arena: the first call creates it with every slot
    /// empty, later calls change nothing.
    pub fn init(&mut self)
        ensures
            init_post(old(self)@, final(self)@),
    {
        if self.cell.is_none() {
            self.cell = Some(ArenaInner::new());
        }
    }

    /// Stores key material, returning an opaque handle to it.
    ///
    /// # Errors
    /// `KeyNotFound` if the arena is not initialized,
    /// `ArenaCapacityExhausted` if every slot is occupied. Rejected material
    /// is zeroized.
    pub fn store(&mut self, material: KeyMaterial, purpose: KeyPurpose, is_hardware_backed: bool) -> (r:
        Result<KeyHandle, CryptoError>)
        ensures
            store_post(old(self)@, material, purpose, is_hardware_backed, final(self)@, r),
            final(self)@ matches Some(st) ==> valid_state(st),
    {
        proof {
            use_type_invariant(&*self);
        }
        let mut cell: Option<ArenaInner> = None;
        std::mem::swap(&mut cell, &mut self.cell);
        let r = match &mut cell {
            Some(inner) => inner.store(material, purpose, is_hardware_backed),
            None => {
                let mut rejected = material;
                rejected.zeroize();
                Err(CryptoError::KeyNotFound)
            },
        };
        self.cell = cell;
        r
    }

    /// Removes a key from the arena; its material is zeroized.
    ///
    /// # Errors
    /// `KeyNotFound` if the handle is stale or invalid, or the arena is not
    /// initialized.
    pub fn remove(&mut self, handle: KeyHandle) -> (r: Result<(), CryptoError>)
        ensures
            remove_post(old(self)@, handle, final(self)@, r),
            final(self)@ matches Some(st) ==> valid_state(st),
    {
        proof {
            use_type_invariant(&*self);
        }
        let mut cell: Option<ArenaInner> = None;
        std::mem::swap(&mut cell, &mut self.cell);
        let r = match &mut cell {
            Some(inner) => inner.remove(handle),
            None => Err(CryptoError::KeyNotFound),
        };
        self.cell = cell;
        r
    }

    /// Emergency wipe: zeroizes and drops all key material in the arena. The
    /// generation counter keeps counting, so every handle issued before the
    /// wipe stays invalid.
    ///
    /// Called on a panic caught at the FFI boundary, from the panic hook, and
    /// on security events. It never panics.
    pub fn emergency_wipe(&mut self)
        ensures
            wipe_post(old(self)@, final(self)@),
    {
        proof {
            use_type_invariant(&*self);
        }
        let mut cell: Option<ArenaInner> = None;
        std::mem::swap(&mut cell, &mut self.cell);
        match &mut cell {
            Some(inner) => inner.wipe(),
            None => {},
        }
        self.cell = cell;
    }
}

} // verus!
