//! What holds of every request, whatever the surroundings answer.

use vstd::prelude::*;
use crate::bin_crate::{
    ActionView,
    BinCrateView,
    EventView,
    PhaseView,
    cache_key_of,
    cached,
    coherent,
    entry_of,
    invocation_of,
    origin_of,
    replaces,
    resolved_of,
    step,
    url_of,
};
use crate::cache::{lemma_entries_distinct, lock_path_of, manifest_in};
use crate::command::{InvocationStyle, located};
use crate::error::BuildErrorView;
use crate::registry::is_success_status;

verus! {

/// The steps that a request names when it is given `events` one after the other.
pub open spec fn actions(s: BinCrateView, events: Seq<EventView>) -> Seq<ActionView>
    decreases events.len(),
{
    if events.len() == 0 {
        Seq::empty()
    } else {
        seq![step(s, events[0]).1] + actions(step(s, events[0]).0, events.drop_first())
    }
}

/// As many steps are named as answers are given.
pub proof fn lemma_actions_len(s: BinCrateView, events: Seq<EventView>)
    ensures
        actions(s, events).len() == events.len(),
    decreases events.len(),
{
    if events.len() > 0 {
        lemma_actions_len(step(s, events[0]).0, events.drop_first());
    }
}

/// The steps named for a list of answers are the step named for the first,
/// then those named for the rest.
proof fn lemma_actions_unfold(s: BinCrateView, first: EventView, rest: Seq<EventView>)
    ensures
        actions(s, seq![first] + rest) == seq![step(s, first).1] + actions(step(s, first).0, rest),
{
    assert((seq![first] + rest).drop_first() =~= rest);
}

/// The request holds the lock on its cache entry while it is in this phase.
pub open spec fn holds_lock(p: PhaseView) -> bool {
    p is Probing || p is Clearing || p is Fetching || p is Unpacking || p is Copying
        || p is Checking || p is Discarding
}

/// The step reads or changes the cache entry, or fetches what is to fill it.
pub open spec fn works_on_entry(a: ActionView) -> bool {
    a is Probe || a is Remove || a is Fetch || a is Unpack || a is Copy
}

/// The step fills the cache entry.
pub open spec fn fills_entry(a: ActionView) -> bool {
    a is Fetch || a is Unpack || a is Copy
}

/// The step is the run of the toolchain or the end of the request.
pub open spec fn builds_or_ends(a: ActionView) -> bool {
    a is Invoke || a is Finish
}

/// The step that fills the entry of a cached source: the download for a
/// package of the registry, the copy for a directory.
pub open spec fn filling(s: BinCrateView) -> ActionView {
    if s.source is RegistryPackage {
        ActionView::Fetch { url: url_of(s) }
    } else {
        ActionView::Copy { from: origin_of(s.source), into: entry_of(s) }
    }
}

/// A request never changes what it was asked for: only the phase moves, and
/// the manifest becomes known.
pub proof fn lemma_request_unchanged(s: BinCrateView, e: EventView)
    ensures
        step(s, e).0 == (BinCrateView {
            phase: step(s, e).0.phase,
            manifest_path: step(s, e).0.manifest_path,
            ..s
        }),
{
}

/// The phase of a request fits its source from its first step to its last.
pub proof fn lemma_coherent_kept(s: BinCrateView, e: EventView)
    requires
        coherent(s),
    ensures
        coherent(step(s, e).0),
{
}

/// How many answers a request can take at most before it ends.
pub open spec fn steps_to_end(p: PhaseView) -> nat {
    match p {
        PhaseView::Ready => 10,
        PhaseView::Locking => 9,
        PhaseView::Probing => 8,
        PhaseView::Clearing => 7,
        PhaseView::Fetching => 6,
        PhaseView::Unpacking | PhaseView::Copying => 5,
        PhaseView::Checking => 4,
        PhaseView::Discarding(_) => 3,
        PhaseView::Unlocking(_) | PhaseView::Inspecting => 2,
        PhaseView::Building => 1,
        PhaseView::Finished => 0,
    }
}

/// Every request ends: after ten answers at most, whatever they are, it has
/// named its end.
pub proof fn lemma_request_ends(s: BinCrateView, events: Seq<EventView>)
    requires
        !(s.phase is Finished),
        events.len() >= steps_to_end(s.phase),
    ensures
        exists|i: int|
            0 <= i < steps_to_end(s.phase) && i < actions(s, events).len()
                && #[trigger] actions(s, events)[i] is Finish,
    decreases steps_to_end(s.phase),
{
    let next = step(s, events[0]).0;
    let rest = events.drop_first();
    assert(actions(s, events)[0] == step(s, events[0]).1);
    if !(step(s, events[0]).1 is Finish) {
        lemma_request_ends(next, rest);
        let i = choose|i: int|
            0 <= i < steps_to_end(next.phase) && i < actions(next, rest).len()
                && #[trigger] actions(next, rest)[i] is Finish;
        assert(actions(s, events)[i + 1] == actions(next, rest)[i]);
    }
}

/// All work on a cache entry is done under its lock. A step that reads,
/// changes or fills the entry is named only in a phase that holds the lock;
/// such a phase is entered only when the lock was granted; and the step that
/// leaves it gives the lock back. So two requests for one key, whose locks
/// exclude each other, never work on the entry at the same time.
pub proof fn lemma_entry_under_lock(s: BinCrateView, e: EventView)
    ensures
        works_on_entry(step(s, e).1) ==> holds_lock(step(s, e).0.phase),
        holds_lock(step(s, e).0.phase) && !holds_lock(s.phase) ==> s.phase is Locking
            && e is Done,
        holds_lock(s.phase) && !holds_lock(step(s, e).0.phase) ==> step(s, e).1
            == (ActionView::Unlock { path: lock_path_of(entry_of(s)) }),
        step(s, e).1 is Unlock ==> holds_lock(s.phase),
        builds_or_ends(step(s, e).1) ==> !holds_lock(s.phase),
{
}

/// How many answers a request that holds the lock can take at most before
/// it gives the lock back.
pub open spec fn steps_under_lock(p: PhaseView) -> nat {
    match p {
        PhaseView::Probing => 6,
        PhaseView::Clearing => 5,
        PhaseView::Fetching => 4,
        PhaseView::Unpacking | PhaseView::Copying => 3,
        PhaseView::Checking => 2,
        PhaseView::Discarding(_) => 1,
        _ => 0,
    }
}

/// The lock is never kept: a request that holds it gives it back after six
/// answers at most, whatever they are.
pub proof fn lemma_lock_is_given_back(s: BinCrateView, events: Seq<EventView>)
    requires
        holds_lock(s.phase),
        events.len() >= steps_under_lock(s.phase),
    ensures
        exists|i: int|
            0 <= i < steps_under_lock(s.phase) && i < actions(s, events).len()
                && #[trigger] actions(s, events)[i] is Unlock,
    decreases steps_under_lock(s.phase),
{
    let next = step(s, events[0]).0;
    let rest = events.drop_first();
    assert(actions(s, events)[0] == step(s, events[0]).1);
    if !(step(s, events[0]).1 is Unlock) {
        lemma_lock_is_given_back(next, rest);
        let i = choose|i: int|
            0 <= i < steps_under_lock(next.phase) && i < actions(next, rest).len()
                && #[trigger] actions(next, rest)[i] is Unlock;
        assert(actions(s, events)[i + 1] == actions(next, rest)[i]);
    }
}

/// A request with an explicit manifest goes straight to the toolchain: it
/// never asks for the workspace, the cache or the registry, whatever the
/// surroundings answer.
pub proof fn lemma_explicit_manifest_is_direct(s: BinCrateView, events: Seq<EventView>, i: int)
    requires
        s.source is ExplicitManifest,
        s.phase is Ready || s.phase is Building || s.phase is Finished,
        0 <= i < actions(s, events).len(),
    ensures
        builds_or_ends(actions(s, events)[i]),
    decreases events.len(),
{
    if i > 0 {
        lemma_explicit_manifest_is_direct(step(s, events[0]).0, events.drop_first(), i - 1);
    }
}

/// An entry that does not exist is filled, whether or not a rebuild is forced.
pub proof fn lemma_miss_fills(s: BinCrateView)
    requires
        s.phase is Probing,
        s.source is RegistryPackage || s.source is SourceDirectory,
    ensures
        step(s, EventView::Exists(false)).1 == filling(s),
{
}

/// A first build of a package of the registry fills the cache and builds
/// from it: with no entry in place and every step answered with success, the
/// request takes the lock, downloads and unpacks the package into its entry,
/// sees the manifest there, gives the lock back, runs the toolchain in the
/// entry, and ends with the place of the artifact in the output directory.
pub proof fn lemma_first_build_fills_the_cache(s: BinCrateView, status: u16, unlocked: EventView)
    requires
        s.phase is Ready,
        s.source is RegistryPackage,
        is_success_status(status),
    ensures
        actions(
            s,
            seq![
                EventView::Start,
                EventView::Done,
                EventView::Exists(false),
                EventView::Status(status),
                EventView::Done,
                EventView::Exists(true),
                unlocked,
                (EventView::Exited { code: Some(0i32) }),
            ],
        ) == seq![
            (ActionView::Lock { path: lock_path_of(entry_of(s)) }),
            (ActionView::Probe { path: entry_of(s) }),
            (ActionView::Fetch { url: url_of(s) }),
            (ActionView::Unpack { into: entry_of(s) }),
            (ActionView::Probe { path: manifest_in(entry_of(s)) }),
            (ActionView::Unlock { path: lock_path_of(entry_of(s)) }),
            ActionView::Invoke(invocation_of(s, entry_of(s), None)),
            ActionView::Finish(Ok(located(s.output_dir, s.name, InvocationStyle::Build))),
        ],
{
    let e7 = seq![(EventView::Exited { code: Some(0i32) })];
    let e6 = seq![unlocked] + e7;
    let e5 = seq![EventView::Exists(true)] + e6;
    let e4 = seq![EventView::Done] + e5;
    let e3 = seq![EventView::Status(status)] + e4;
    let e2 = seq![EventView::Exists(false)] + e3;
    let e1 = seq![EventView::Done] + e2;
    let s1 = step(s, EventView::Start).0;
    let s2 = step(s1, EventView::Done).0;
    let s3 = step(s2, EventView::Exists(false)).0;
    let s4 = step(s3, EventView::Status(status)).0;
    let s5 = step(s4, EventView::Done).0;
    let s6 = step(s5, EventView::Exists(true)).0;
    let s7 = step(s6, unlocked).0;
    assert(seq![
        EventView::Start,
        EventView::Done,
        EventView::Exists(false),
        EventView::Status(status),
        EventView::Done,
        EventView::Exists(true),
        unlocked,
        (EventView::Exited { code: Some(0i32) }),
    ] =~= seq![EventView::Start] + e1);
    lemma_actions_unfold(s, EventView::Start, e1);
    lemma_actions_unfold(s1, EventView::Done, e2);
    lemma_actions_unfold(s2, EventView::Exists(false), e3);
    lemma_actions_unfold(s3, EventView::Status(status), e4);
    lemma_actions_unfold(s4, EventView::Done, e5);
    lemma_actions_unfold(s5, EventView::Exists(true), e6);
    lemma_actions_unfold(s6, unlocked, e7);
    assert(e7 =~= e7 + Seq::<EventView>::empty());
    lemma_actions_unfold(s7, EventView::Exited { code: Some(0i32) }, Seq::empty());
}

/// An entry that exists is used as it is: where the entry is found and the
/// request does not replace it, no step fills or removes it, whatever
/// answers follow.
pub proof fn lemma_hit_fills_nothing(s: BinCrateView, events: Seq<EventView>, i: int)
    requires
        s.phase is Probing,
        !replaces(s),
        events.len() > 0,
        events[0] == EventView::Exists(true),
        0 <= i < actions(s, events).len(),
    ensures
        !fills_entry(actions(s, events)[i]),
        !(actions(s, events)[i] is Remove),
{
    let next = step(s, events[0]).0;
    if i > 0 {
        lemma_past_the_cache(next, events.drop_first(), i - 1);
    }
}

/// Once the lock is being given back, the entry is left alone: what follows
/// is the run of the toolchain and the end.
pub proof fn lemma_past_the_cache(s: BinCrateView, events: Seq<EventView>, i: int)
    requires
        s.phase is Unlocking || s.phase is Building || s.phase is Finished,
        0 <= i < actions(s, events).len(),
    ensures
        builds_or_ends(actions(s, events)[i]),
    decreases events.len(),
{
    if i > 0 {
        lemma_past_the_cache(step(s, events[0]).0, events.drop_first(), i - 1);
    }
}

/// A request for a package of the registry that finds its entry in the
/// cache, and does not force a rebuild, builds from that entry: it takes the
/// lock, sees the entry, and neither fills nor removes it, whatever answers
/// follow.
pub proof fn lemma_cached_package_is_reused(s: BinCrateView, rest: Seq<EventView>, i: int)
    requires
        s.phase is Ready,
        s.source is RegistryPackage,
        !s.force_rebuild,
        0 <= i < 3 + rest.len(),
    ensures
        actions(
            s,
            seq![EventView::Start, EventView::Done, EventView::Exists(true)] + rest,
        ).len() == 3 + rest.len(),
        !fills_entry(
            actions(s, seq![EventView::Start, EventView::Done, EventView::Exists(true)] + rest)[i],
        ),
        !(actions(
            s,
            seq![EventView::Start, EventView::Done, EventView::Exists(true)] + rest,
        )[i] is Remove),
{
    let events = seq![EventView::Start, EventView::Done, EventView::Exists(true)] + rest;
    let locking = step(s, EventView::Start).0;
    let probing = step(locking, EventView::Done).0;
    let found = seq![EventView::Exists(true)] + rest;
    assert(events =~= seq![EventView::Start] + (seq![EventView::Done] + found));
    lemma_actions_unfold(s, EventView::Start, seq![EventView::Done] + found);
    lemma_actions_unfold(locking, EventView::Done, found);
    lemma_actions_len(probing, found);
    if i >= 2 {
        lemma_hit_fills_nothing(probing, found, i - 2);
    }
}

/// Where the request forces a rebuild, or copies a directory, an entry that
/// exists is removed and then filled anew: from the registry for a package
/// of the registry, from the directory for a copy.
pub proof fn lemma_forced_rebuild(s: BinCrateView)
    requires
        s.phase is Probing,
        replaces(s),
        s.source is RegistryPackage || s.source is SourceDirectory,
    ensures
        actions(s, seq![EventView::Exists(true), EventView::Done]) == seq![
            (ActionView::Remove { path: entry_of(s) }),
            filling(s),
        ],
{
    let events = seq![EventView::Exists(true), EventView::Done];
    let next = step(s, events[0]).0;
    assert(events.drop_first() =~= seq![EventView::Done]);
    assert(events.drop_first().drop_first() =~= Seq::<EventView>::empty());
    assert(actions(step(next, EventView::Done).0, Seq::<EventView>::empty()) =~= Seq::empty());
    assert(actions(next, seq![EventView::Done]) =~= seq![step(next, EventView::Done).1]);
}

/// A request that forces a rebuild of a package of the registry has the
/// entry that it finds removed, and downloads the package anew.
pub proof fn lemma_forced_package_is_fetched_again(s: BinCrateView)
    requires
        s.phase is Ready,
        s.source is RegistryPackage,
        s.force_rebuild,
    ensures
        actions(
            s,
            seq![EventView::Start, EventView::Done, EventView::Exists(true), EventView::Done],
        ) == seq![
            (ActionView::Lock { path: lock_path_of(entry_of(s)) }),
            (ActionView::Probe { path: entry_of(s) }),
            (ActionView::Remove { path: entry_of(s) }),
            (ActionView::Fetch { url: url_of(s) }),
        ],
{
    let locking = step(s, EventView::Start).0;
    let probing = step(locking, EventView::Done).0;
    let found = seq![EventView::Exists(true), EventView::Done];
    assert(seq![EventView::Start, EventView::Done, EventView::Exists(true), EventView::Done]
        =~= seq![EventView::Start] + (seq![EventView::Done] + found));
    lemma_actions_unfold(s, EventView::Start, seq![EventView::Done] + found);
    lemma_actions_unfold(locking, EventView::Done, found);
    lemma_forced_rebuild(probing);
}

/// The toolchain runs on a cached source only after the entry was found in
/// place, or was filled and seen to hold its manifest.
pub proof fn lemma_build_needs_manifest(s: BinCrateView, e: EventView)
    requires
        holds_lock(s.phase),
        step(s, e).0.phase == PhaseView::Unlocking(None),
    ensures
        (s.phase is Probing && e == EventView::Exists(true) && !replaces(s)) || (s.phase is Checking
            && e == EventView::Exists(true)),
{
}

/// The toolchain runs where the source was found: whenever a request names
/// the run of the toolchain, its manifest is known, and the run is in the
/// working directory that belongs to it. The manifest of a cached source is
/// the one in its entry.
pub proof fn lemma_build_runs_where_resolved(s: BinCrateView, e: EventView)
    requires
        coherent(s),
        step(s, e).1 is Invoke,
    ensures
        resolved_of(step(s, e).0) is Some,
        step(s, e).1->Invoke_0.working_dir == resolved_of(step(s, e).0)->0.working_dir,
        cached(s.source) ==> resolved_of(step(s, e).0)->0.manifest == manifest_in(entry_of(s)),
        s.source is ExplicitManifest ==> resolved_of(step(s, e).0)->0.manifest == origin_of(
            s.source,
        ),
{
}

/// A response of the registry other than success ends the request with the
/// download error that carries the status, after the entry was removed and
/// the lock given back, whatever the answers to these two steps.
pub proof fn lemma_failed_download_leaves_no_entry(
    s: BinCrateView,
    status: u16,
    removed: EventView,
    unlocked: EventView,
)
    requires
        s.phase is Fetching,
        !is_success_status(status),
    ensures
        actions(s, seq![EventView::Status(status), removed, unlocked]) == seq![
            (ActionView::Remove { path: entry_of(s) }),
            (ActionView::Unlock { path: lock_path_of(entry_of(s)) }),
            ActionView::Finish(Err(BuildErrorView::Download { url: url_of(s), status })),
        ],
{
    let events = seq![EventView::Status(status), removed, unlocked];
    let one = step(s, events[0]);
    let two = step(one.0, removed);
    let three = step(two.0, unlocked);
    assert(events.drop_first() =~= seq![removed, unlocked]);
    assert(events.drop_first().drop_first() =~= seq![unlocked]);
    assert(events.drop_first().drop_first().drop_first() =~= Seq::<EventView>::empty());
    assert(actions(three.0, Seq::<EventView>::empty()) =~= Seq::empty());
    assert(actions(two.0, seq![unlocked]) =~= seq![three.1]);
    assert(actions(one.0, seq![removed, unlocked]) =~= seq![two.1, three.1]);
}

/// A request for a package of the registry whose download is answered with
/// a status other than success ends with the download error that carries
/// the status, after the entry was removed and the lock given back.
pub proof fn lemma_failed_download_ends_the_request(
    s: BinCrateView,
    status: u16,
    removed: EventView,
    unlocked: EventView,
)
    requires
        s.phase is Ready,
        s.source is RegistryPackage,
        !is_success_status(status),
    ensures
        actions(
            s,
            seq![
                EventView::Start,
                EventView::Done,
                EventView::Exists(false),
                EventView::Status(status),
                removed,
                unlocked,
            ],
        ) == seq![
            (ActionView::Lock { path: lock_path_of(entry_of(s)) }),
            (ActionView::Probe { path: entry_of(s) }),
            (ActionView::Fetch { url: url_of(s) }),
            (ActionView::Remove { path: entry_of(s) }),
            (ActionView::Unlock { path: lock_path_of(entry_of(s)) }),
            ActionView::Finish(Err(BuildErrorView::Download { url: url_of(s), status })),
        ],
{
    let locking = step(s, EventView::Start).0;
    let probing = step(locking, EventView::Done).0;
    let fetching = step(probing, EventView::Exists(false)).0;
    let answer = seq![EventView::Status(status), removed, unlocked];
    assert(seq![
        EventView::Start,
        EventView::Done,
        EventView::Exists(false),
        EventView::Status(status),
        removed,
        unlocked,
    ] =~= seq![EventView::Start] + (seq![EventView::Done] + (seq![EventView::Exists(false)]
        + answer)));
    lemma_actions_unfold(
        s,
        EventView::Start,
        seq![EventView::Done] + (seq![EventView::Exists(false)] + answer),
    );
    lemma_actions_unfold(locking, EventView::Done, seq![EventView::Exists(false)] + answer);
    lemma_actions_unfold(probing, EventView::Exists(false), answer);
    lemma_failed_download_leaves_no_entry(fetching, status, removed, unlocked);
}

/// Filling an entry either succeeds, or the entry is removed: from a phase
/// in which the entry is being filled, every answer but the one that
/// reports success leads to the removal of the entry, and the failure is
/// what the request ends with once the lock is given back.
pub proof fn lemma_failed_fill_is_discarded(
    s: BinCrateView,
    e: EventView,
    removed: EventView,
    unlocked: EventView,
)
    requires
        s.phase is Fetching || s.phase is Unpacking || s.phase is Copying || s.phase is Checking,
        !(s.phase is Fetching && e is Status && is_success_status(e->Status_0)),
        !((s.phase is Unpacking || s.phase is Copying) && e is Done),
        !(s.phase is Checking && e == EventView::Exists(true)),
    ensures
        step(s, e).1 == (ActionView::Remove { path: entry_of(s) }),
        step(s, e).0.phase is Discarding,
        step(step(s, e).0, removed).1 == (ActionView::Unlock { path: lock_path_of(entry_of(s)) }),
        step(step(step(s, e).0, removed).0, unlocked).1 == ActionView::Finish(
            Err(step(s, e).0.phase->Discarding_0),
        ),
{
}

/// Two copies of a directory under the same name get directories of their
/// own in the cache when the numbers drawn for them differ.
pub proof fn lemma_fresh_entries_distinct(a: BinCrateView, b: BinCrateView)
    requires
        a.source is SourceDirectory,
        b.source is SourceDirectory,
        a.name == b.name,
        a.cache_root == b.cache_root,
        a.suffix != b.suffix,
    ensures
        entry_of(a) != entry_of(b),
{
    lemma_entries_distinct(a.cache_root, cache_key_of(a), cache_key_of(b));
}

} // verus!
