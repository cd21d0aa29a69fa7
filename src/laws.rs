//! What holds of every run, proved over the transition functions.

use vstd::prelude::*;
use crate::traversal::{
    accepts, advance, halted, initial, next, Action, CloneError, Entry, EntryKind, Event, Model,
    Phase,
};

verus! {

/// The entries of `s` that are directories or regular files, in order.
pub open spec fn without_others<P>(s: Seq<Entry<P>>) -> Seq<Entry<P>>
    decreases s.len(),
{
    if s.len() == 0 {
        s
    } else if s[0].kind == EntryKind::Other {
        without_others(s.drop_first())
    } else {
        seq![s[0]] + without_others(s.drop_first())
    }
}

/// Whether `e` reports that the last action failed.
pub open spec fn reports_failure<P>(e: Event<P>) -> bool {
    match e {
        Event::Created(ok) => !ok,
        Event::Listed(listing) => listing is None,
        Event::Cloned(ok) => !ok,
    }
}

/// The error that a failure reported by `e` ends the run with.
pub open spec fn failed_step<P>(e: Event<P>) -> CloneError {
    match e {
        Event::Created(_) => CloneError::DestinationUncreatable,
        Event::Listed(_) => CloneError::SourceUnreadable,
        Event::Cloned(_) => CloneError::CloneOrCopyFailed,
    }
}

/// The clone of a regular file `e` into the destination under its own name.
pub open spec fn clone_of<P>(e: Entry<P>) -> Action<P> {
    Action::CloneFile { source: e.path, name: e.name->Some_0 }
}

/// The state and action after `k` successful clones in a row, from `s`.
pub open spec fn after_clones<P>(s: (Model<P>, Action<P>), k: nat) -> (Model<P>, Action<P>)
    decreases k,
{
    if k == 0 {
        s
    } else {
        after_clones(next(s.0, Event::Cloned(true)), (k - 1) as nat)
    }
}

/// Whether every entry of `s` is a regular file with a name.
pub open spec fn named_files<P>(s: Seq<Entry<P>>) -> bool {
    forall|i: int| 0 <= i < s.len() ==> #[trigger] s[i].kind == EntryKind::RegularFile
        && s[i].name is Some
}

proof fn lemma_without_others_append<P>(a: Seq<Entry<P>>, b: Seq<Entry<P>>)
    ensures
        without_others(a + b) == without_others(a) + without_others(b),
    decreases a.len(),
{
    if a.len() == 0 {
        assert(a + b =~= b);
    } else {
        assert((a + b).drop_first() =~= a.drop_first() + b);
        lemma_without_others_append(a.drop_first(), b);
        if a[0].kind != EntryKind::Other {
            assert(seq![a[0]] + (without_others(a.drop_first()) + without_others(b))
                =~= (seq![a[0]] + without_others(a.drop_first())) + without_others(b));
        }
    }
}

proof fn lemma_without_others_twice<P>(s: Seq<Entry<P>>)
    ensures
        without_others(without_others(s)) == without_others(s),
    decreases s.len(),
{
    if s.len() > 0 {
        lemma_without_others_twice(s.drop_first());
        if s[0].kind != EntryKind::Other {
            let w = seq![s[0]] + without_others(s.drop_first());
            assert(w.drop_first() =~= without_others(s.drop_first()));
        }
    }
}

/// Two pending sequences with the same directories and regular files, in
/// the same order, lead to the same phase and action, and what remains
/// differs again in other entries only.
proof fn lemma_advance_ignores_others<P>(s: Seq<Entry<P>>, t: Seq<Entry<P>>)
    requires
        without_others(s) == without_others(t),
    ensures
        advance(s).0.phase == advance(t).0.phase,
        advance(s).1 == advance(t).1,
        without_others(advance(s).0.pending) == without_others(advance(t).0.pending),
    decreases s.len() + t.len(),
{
    if s.len() > 0 && s[0].kind == EntryKind::Other {
        lemma_advance_ignores_others(s.drop_first(), t);
    } else if t.len() > 0 && t[0].kind == EntryKind::Other {
        lemma_advance_ignores_others(s, t.drop_first());
    } else if s.len() > 0 {
        let ws = seq![s[0]] + without_others(s.drop_first());
        let wt = seq![t[0]] + without_others(t.drop_first());
        assert(ws[0] == s[0]);
        assert(wt[0] == t[0]);
        assert(ws.drop_first() =~= without_others(s.drop_first()));
        assert(wt.drop_first() =~= without_others(t.drop_first()));
    } else if t.len() > 0 {
        assert(without_others(t).len() > 0);
    }
}

/// Entries that are neither directories nor regular files (links, devices,
/// pipes, sockets) are skipped without error: a listing that holds them
/// leads to the same action and phase as the same listing without them, and
/// what remains pending differs in such entries only.
pub proof fn lemma_other_entries_skipped<P>(
    m: Model<P>,
    listing: Vec<Entry<P>>,
    kept: Vec<Entry<P>>,
)
    requires
        m.phase == Phase::<P>::Listing,
        kept@ == without_others(listing@),
    ensures
        next(m, Event::Listed(Some(listing))).1 == next(m, Event::Listed(Some(kept))).1,
        next(m, Event::Listed(Some(listing))).0.phase == next(
            m,
            Event::Listed(Some(kept)),
        ).0.phase,
        without_others(next(m, Event::Listed(Some(listing))).0.pending) == without_others(
            next(m, Event::Listed(Some(kept))).0.pending,
        ),
{
    lemma_without_others_append(listing@, m.pending);
    lemma_without_others_append(kept@, m.pending);
    lemma_without_others_twice(listing@);
    lemma_advance_ignores_others(listing@ + m.pending, kept@ + m.pending);
}

/// The first failure ends the run: the machine answers it with `Fail` of
/// the step that failed, and takes no event after that, so no further
/// directory is listed and no further file is cloned.
pub proof fn lemma_failure_halts<P>(m: Model<P>, e: Event<P>)
    requires
        accepts(m, e),
        reports_failure(e),
    ensures
        next(m, e).0 == halted::<P>(),
        next(m, e).1 == Action::<P>::Fail(failed_step(e)),
        forall|f: Event<P>| !accepts(next(m, e).0, f),
{
}

/// A run on a source that cannot be listed creates the destination, asks
/// for the listing, and then fails with `SourceUnreadable`: it clones
/// nothing and creates nothing but the destination.
pub proof fn lemma_unreadable_source_fails<P>(source: P)
    ensures
        initial(source).1 == Action::<P>::CreateDestination,
        next(initial(source).0, Event::Created(true)).1 == Action::List(source),
        next(next(initial(source).0, Event::Created(true)).0, Event::Listed(None)).0 == halted::<P>(),
        next(next(initial(source).0, Event::Created(true)).0, Event::Listed(None)).1 == Action::<P>::Fail(CloneError::SourceUnreadable),
{
}

/// The tree is flattened: a subdirectory is entered by creating the same
/// destination again and then listing the subdirectory, and a regular file
/// found at any depth is cloned into that one destination under its own
/// name.
pub proof fn lemma_flattened_into_destination<P>(pending: Seq<Entry<P>>)
    requires
        pending.len() > 0,
        pending[0].kind != EntryKind::Other,
    ensures
        pending[0].kind == EntryKind::Directory ==> advance(pending).1 == Action::<P>::CreateDestination,
        pending[0].kind == EntryKind::Directory ==> next(advance(pending).0, Event::Created(true)).1 == Action::List(pending[0].path),
        pending[0].kind == EntryKind::Directory ==> next(advance(pending).0, Event::Created(true)).0.pending == pending.drop_first(),
        pending[0].kind == EntryKind::RegularFile ==> (pending[0].name is Some) ==> advance(pending).1 == clone_of(pending[0]),
{
}

/// A listing of regular files is cloned one file after another, in the
/// order listed and each under its own name; after the last clone the walk
/// goes on with the entries that were pending before (none, for the top
/// directory: the run is done).
pub proof fn lemma_files_cloned_in_order<P>(m: Model<P>, files: Vec<Entry<P>>)
    requires
        m.phase == Phase::<P>::Listing,
        named_files(files@),
    ensures
        forall|i: nat| i < files@.len() ==> #[trigger] after_clones(next(m, Event::Listed(Some(files))), i).1 == clone_of(files@[i as int]),
        after_clones(next(m, Event::Listed(Some(files))), files@.len()) == advance(m.pending),
        m.pending.len() == 0 ==> after_clones(next(m, Event::Listed(Some(files))), files@.len()).1 == Action::<P>::Done,
{
    let first = next(m, Event::Listed(Some(files)));
    let n = files@.len();
    assert forall|i: nat| i <= n implies after_clones(first, i) == cloning_at(m, files@, i) by {
        lemma_clones_from(m, files, i);
    }
    if m.pending.len() == 0 {
        reveal_with_fuel(advance, 1);
    }
}

spec fn cloning_at<P>(m: Model<P>, files: Seq<Entry<P>>, i: nat) -> (Model<P>, Action<P>) {
    if i < files.len() {
        (
            Model { phase: Phase::Cloning, pending: files.skip(i + 1 as int) + m.pending },
            clone_of(files[i as int]),
        )
    } else {
        advance(m.pending)
    }
}

proof fn lemma_clones_from<P>(m: Model<P>, files: Vec<Entry<P>>, i: nat)
    requires
        m.phase == Phase::<P>::Listing,
        named_files(files@),
        i <= files@.len(),
    ensures
        after_clones(next(m, Event::Listed(Some(files))), i) == cloning_at(m, files@, i),
    decreases i,
{
    let n = files@.len();
    if i == 0 {
        if n > 0 {
            let s = files@ + m.pending;
            assert(s[0] == files@[0]);
            assert(s.drop_first() =~= files@.skip(1) + m.pending);
        } else {
            assert(files@ + m.pending =~= m.pending);
        }
    } else {
        lemma_clones_from(m, files, (i - 1) as nat);
        let prev = after_clones(next(m, Event::Listed(Some(files))), (i - 1) as nat);
        lemma_after_clones_unfold(next(m, Event::Listed(Some(files))), (i - 1) as nat);
        let rest = files@.skip(i as int) + m.pending;
        assert(prev.0.pending == rest);
        if i < n {
            assert(rest[0] == files@[i as int]);
            assert(rest.drop_first() =~= files@.skip(i + 1 as int) + m.pending);
        } else {
            assert(rest =~= m.pending);
        }
    }
}

proof fn lemma_after_clones_unfold<P>(s: (Model<P>, Action<P>), k: nat)
    ensures
        after_clones(s, k + 1) == next(after_clones(s, k).0, Event::Cloned(true)),
    decreases k,
{
    let t = next(s.0, Event::Cloned(true));
    assert(after_clones(s, k + 1) == after_clones(t, k));
    if k > 0 {
        lemma_after_clones_unfold(t, (k - 1) as nat);
        assert(after_clones(s, k) == after_clones(t, (k - 1) as nat));
    } else {
        assert(after_clones(t, 0) == t);
    }
}

} // verus!
