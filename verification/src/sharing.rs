//! Several requests at work on one cache entry. The surroundings are taken
//! as they are meant to behave: the lock is granted to one request at a time,
//! a directory that is unpacked or copied into is whole once the step
//! reports success, and a removal that reports success leaves nothing. Of
//! every state that the requests can then reach, this module shows that at
//! most one request works on the entry, and that an entry found in place is
//! a whole one.

use vstd::prelude::*;
use crate::bin_crate::{ActionView, BinCrateView, EventView, PhaseView, entry_of, replaces, step};
use crate::cache::{lock_path_of, manifest_in};
use crate::guarantees::holds_lock;

verus! {

/// What lies at the place of the entry.
pub enum Entry {
    /// Nothing.
    Absent,
    /// A tree that was not written to its end, or not removed to its end.
    Partial,
    /// A tree written to its end, with or without a manifest.
    Whole { manifest: bool },
}

/// The entry and its lock, as every request sees them.
pub struct Store {
    /// The directory of the entry.
    pub path: Seq<char>,
    pub entry: Entry,
    /// The request that holds the lock, by its position.
    pub holder: Option<int>,
    /// A removal has failed half-way. Nothing is claimed of the entry from then on.
    pub damaged: bool,
}

/// A request, and the step that it has named and that is not yet answered.
/// Before its first step a request waits for `Start`.
pub struct Caller {
    pub request: BinCrateView,
    pub pending: Option<ActionView>,
}

/// The store with the requests at work on it.
pub struct System {
    pub store: Store,
    pub callers: Seq<Caller>,
}

/// The entry is there to build from: a whole tree with its manifest.
pub open spec fn complete(entry: Entry) -> bool {
    entry == (Entry::Whole { manifest: true })
}

/// The surroundings can answer the pending step of request `i` with `e`,
/// and the store is then `after`.
pub open spec fn answers(
    before: Store,
    i: int,
    pending: Option<ActionView>,
    e: EventView,
    after: Store,
) -> bool {
    match pending {
        None => e is Start && after == before,
        Some(ActionView::Lock { .. }) => {
            ||| e is Done && before.holder is None && after == (Store {
                holder: Some(i),
                ..before
            })
            ||| e is Failed && after == before
        },
        Some(ActionView::Probe { path }) => {
            &&& after == before
            &&& e is Failed || {
                &&& e is Exists
                &&& path == before.path ==> e->Exists_0 == !(before.entry is Absent)
                &&& path == manifest_in(before.path) ==> {
                    &&& before.entry is Absent ==> !e->Exists_0
                    &&& before.entry is Whole ==> e->Exists_0 == before.entry->manifest
                }
            }
        },
        Some(ActionView::Remove { .. }) => {
            ||| e is Done && after == (Store { entry: Entry::Absent, ..before })
            ||| e is Failed && before.entry is Absent && after == before
            ||| e is Failed && !(before.entry is Absent) && after == (Store {
                entry: Entry::Partial,
                damaged: true,
                ..before
            })
        },
        Some(ActionView::Unpack { .. }) | Some(ActionView::Copy { .. }) => {
            ||| e is Done && after.entry is Whole && after == (Store {
                entry: after.entry,
                ..before
            })
            ||| e is Failed && after == (Store { entry: Entry::Partial, ..before })
        },
        Some(ActionView::Unlock { .. }) => (e is Done || e is Failed) && after == (Store {
            holder: None,
            ..before
        }),
        Some(ActionView::Fetch { .. }) => (e is Status || e is Failed) && after == before,
        Some(ActionView::Inspect { .. }) => (e is Inspected || e is Failed) && after == before,
        Some(ActionView::Invoke(_)) => (e is Exited || e is Failed) && after == before,
        Some(ActionView::Finish(_)) => false,
    }
}

/// The request once it is answered with `e`: as it goes on, with its next
/// step pending.
#[verifier::opaque]
pub open spec fn answered(c: Caller, e: EventView) -> Caller {
    Caller { request: step(c.request, e).0, pending: Some(step(c.request, e).1) }
}

/// Request `i` is answered with `e`, and names its next step.
pub open spec fn next(a: System, b: System, i: int, e: EventView) -> bool {
    &&& 0 <= i < a.callers.len()
    &&& answers(a.store, i, a.callers[i].pending, e, b.store)
    &&& b.callers == a.callers.update(i, answered(a.callers[i], e))
}

/// Nothing has begun: no request has named a step, nobody holds the lock,
/// and the entry is absent or complete.
pub open spec fn at_start(sys: System) -> bool {
    &&& sys.store.holder is None
    &&& !sys.store.damaged
    &&& sys.store.entry is Absent || complete(sys.store.entry)
    &&& forall|i: int|
        0 <= i < sys.callers.len() ==> {
            &&& (#[trigger] sys.callers[i]).request.phase is Ready
            &&& sys.callers[i].pending is None
            &&& entry_of(sys.callers[i].request) == sys.store.path
        }
}

/// The request has the lock: from the moment it is granted until the step
/// that gives it back is answered.
pub open spec fn owns(p: PhaseView) -> bool {
    holds_lock(p) || p is Unlocking
}

/// The pending step is the one that the phase waits for.
pub open spec fn in_step(c: Caller, path: Seq<char>) -> bool {
    match c.request.phase {
        PhaseView::Ready => c.pending is None,
        PhaseView::Inspecting => c.pending is Some && c.pending->0 is Inspect,
        PhaseView::Locking => c.pending is Some && c.pending->0 is Lock,
        PhaseView::Probing => c.pending == Some(ActionView::Probe { path }),
        PhaseView::Clearing => c.pending is Some && c.pending->0 is Remove,
        PhaseView::Fetching => c.pending is Some && c.pending->0 is Fetch,
        PhaseView::Unpacking => c.pending is Some && c.pending->0 is Unpack,
        PhaseView::Copying => c.pending is Some && c.pending->0 is Copy,
        PhaseView::Checking => c.pending == Some(ActionView::Probe { path: manifest_in(path) }),
        PhaseView::Discarding(_) => c.pending is Some && c.pending->0 is Remove,
        PhaseView::Unlocking(_) => c.pending is Some && c.pending->0 is Unlock,
        PhaseView::Building => c.pending is Some && c.pending->0 is Invoke,
        PhaseView::Finished => c.pending is Some && c.pending->0 is Finish,
    }
}

/// What the phase of the request that holds the lock tells of the entry.
pub open spec fn entry_fits(p: PhaseView, entry: Entry) -> bool {
    match p {
        PhaseView::Probing | PhaseView::Clearing => entry is Absent || complete(entry),
        PhaseView::Fetching | PhaseView::Unpacking | PhaseView::Copying => entry is Absent,
        PhaseView::Checking => entry is Whole,
        PhaseView::Discarding(failure) => failure is Download || failure is Network
            ==> entry is Absent,
        PhaseView::Unlocking(outcome) => {
            &&& entry is Absent || complete(entry)
            &&& outcome is None ==> complete(entry)
            &&& outcome is Some && (outcome->0 is Download || outcome->0 is Network)
                ==> entry is Absent
        },
        _ => true,
    }
}

/// What holds of request `i` in every state that the requests can reach.
pub open spec fn caller_sound(store: Store, i: int, c: Caller) -> bool {
    &&& in_step(c, store.path)
    &&& entry_of(c.request) == store.path
    &&& owns(c.request.phase) <==> store.holder == Some(i)
    &&& !store.damaged && store.holder == Some(i) ==> entry_fits(c.request.phase, store.entry)
}

/// What holds of the store in every state that the requests can reach.
pub open spec fn store_sound(store: Store) -> bool {
    !store.damaged && store.holder is None ==> store.entry is Absent || complete(store.entry)
}

/// What holds of every state that the requests can reach.
pub open spec fn sound(sys: System) -> bool {
    &&& forall|i: int|
        0 <= i < sys.callers.len() ==> caller_sound(sys.store, i, #[trigger] sys.callers[i])
    &&& sys.store.holder is Some ==> 0 <= sys.store.holder->0 < sys.callers.len()
    &&& store_sound(sys.store)
}

/// The manifest of an entry lies at another path than the entry itself.
proof fn lemma_manifest_is_inside(path: Seq<char>)
    ensures
        manifest_in(path) != path,
{
    reveal_strlit("Cargo.toml");
}

/// The request that is answered stays sound, and so does the store.
proof fn lemma_answered_kept(store: Store, i: int, c: Caller, e: EventView, after: Store)
    requires
        caller_sound(store, i, c),
        store_sound(store),
        answers(store, i, c.pending, e, after),
    ensures
        caller_sound(after, i, answered(c, e)),
        store_sound(after),
        after.path == store.path,
        store.holder is Some && store.holder != Some(i) ==> after == store,
        after.holder == store.holder || after.holder == Some(i) || (after.holder is None
            && store.holder == Some(i)),
{
    reveal(answered);
    lemma_manifest_is_inside(store.path);
}

/// The requests that are not answered stay sound.
proof fn lemma_others_kept(before: Store, after: Store, i: int, j: int, c: Caller)
    requires
        caller_sound(before, j, c),
        i != j,
        after.path == before.path,
        before.holder is Some && before.holder != Some(i) ==> after == before,
        after.holder == before.holder || after.holder == Some(i) || (after.holder is None
            && before.holder == Some(i)),
    ensures
        caller_sound(after, j, c),
{
}

/// The state before anything began is sound.
pub proof fn lemma_sound_at_start(sys: System)
    requires
        at_start(sys),
    ensures
        sound(sys),
{
}

/// A step of any request leads from a sound state to a sound state.
pub proof fn lemma_sound_kept(a: System, b: System, i: int, e: EventView)
    requires
        sound(a),
        next(a, b, i, e),
    ensures
        sound(b),
{
    lemma_answered_kept(a.store, i, a.callers[i], e, b.store);
    assert forall|j: int| 0 <= j < b.callers.len() implies caller_sound(
        b.store,
        j,
        #[trigger] b.callers[j],
    ) by {
        if j != i {
            lemma_others_kept(a.store, b.store, i, j, a.callers[j]);
        }
    }
}

/// At most one request has the lock, and with it the right to read, fill or
/// remove the entry.
pub proof fn lemma_one_at_a_time(sys: System, i: int, j: int)
    requires
        sound(sys),
        0 <= i < sys.callers.len(),
        0 <= j < sys.callers.len(),
        i != j,
    ensures
        !(owns(sys.callers[i].request.phase) && owns(sys.callers[j].request.phase)),
{
}

/// While nobody has the lock, the entry is absent or complete: no request
/// ever leaves a tree behind that is not whole, as long as no removal fails.
pub proof fn lemma_entry_at_rest(sys: System)
    requires
        sound(sys),
        !sys.store.damaged,
        sys.store.holder is None,
    ensures
        sys.store.entry is Absent || complete(sys.store.entry),
{
}

/// A request that finds the entry in place finds it complete, never half
/// written by another request.
pub proof fn lemma_found_entry_is_complete(a: System, b: System, i: int, e: EventView)
    requires
        sound(a),
        !a.store.damaged,
        next(a, b, i, e),
        a.callers[i].request.phase is Probing,
        e == EventView::Exists(true),
    ensures
        complete(a.store.entry),
{
}

/// A request that goes on to build from the cache leaves the entry complete
/// behind it, its manifest in place.
pub proof fn lemma_success_leaves_manifest(sys: System, i: int)
    requires
        sound(sys),
        !sys.store.damaged,
        0 <= i < sys.callers.len(),
        sys.callers[i].request.phase == PhaseView::Unlocking(None),
    ensures
        complete(sys.store.entry),
{
}

/// A request that meets a complete entry and does not replace it fills
/// nothing: whatever it is answered, its next step gives the lock back.
pub proof fn lemma_complete_entry_is_reused(a: System, b: System, i: int, e: EventView)
    requires
        sound(a),
        !a.store.damaged,
        next(a, b, i, e),
        a.callers[i].request.phase is Probing,
        complete(a.store.entry),
        !replaces(a.callers[i].request),
    ensures
        b.callers[i].pending == Some(ActionView::Unlock { path: lock_path_of(a.store.path) }),
        b.store.entry == a.store.entry,
{
    reveal(answered);
}

/// When a download fails, no entry is left behind: the entry is absent while
/// the failure is dealt with, and when the lock is given back.
pub proof fn lemma_failed_download_leaves_nothing(sys: System, i: int)
    requires
        sound(sys),
        !sys.store.damaged,
        0 <= i < sys.callers.len(),
        ({
            let p = sys.callers[i].request.phase;
            ||| p is Discarding && (p->Discarding_0 is Download || p->Discarding_0 is Network)
            ||| p is Unlocking && p->Unlocking_0 is Some && (p->Unlocking_0->0 is Download
                || p->Unlocking_0->0 is Network)
        }),
    ensures
        sys.store.entry is Absent,
{
}

} // verus!
