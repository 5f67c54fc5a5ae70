//! An abstract model of the external tool's state as the workflows touch
//! it: the uncommitted changes in the working tree, the tool's internal
//! snapshot list, and the contents of the stash file. Each operation's
//! effect is given as a function of that state, and the end-to-end laws of
//! the two workflows are proved over it.
//!
//! The model encodes a set of uncommitted changes as an opaque byte
//! sequence; an empty sequence means a clean tree. Snapshots are passed
//! through whole, never inspected, matching how the workflows treat them.

use vstd::prelude::*;

use crate::git::{GitOp, spec_classify};

verus! {

/// The external state the workflows operate on.
pub ghost struct RepoModel {
    /// The uncommitted changes in the working tree; empty means clean.
    pub changes: Seq<u8>,
    /// The tool's internal snapshot list; the last element is the top.
    pub stashes: Seq<Seq<u8>>,
    /// The contents of the stash file at the computed path.
    pub file: Seq<u8>,
}

/// The capture operation: a dirty tree's changes move whole onto the top of
/// the snapshot list and the tree becomes clean; on a clean tree it is a
/// no-op. It exits with code 0 either way.
pub open spec fn capture_step(m: RepoModel) -> RepoModel {
    if m.changes.len() == 0 {
        m
    } else {
        RepoModel { changes: Seq::<u8>::empty(), stashes: m.stashes.push(m.changes), file: m.file }
    }
}

/// The drop operation: deletes the top snapshot, or exits with code 1 when
/// the list is empty.
pub open spec fn drop_step(m: RepoModel) -> (RepoModel, i32) {
    if m.stashes.len() == 0 {
        (m, 1)
    } else {
        (RepoModel { changes: m.changes, stashes: m.stashes.drop_last(), file: m.file }, 0)
    }
}

/// The restore operation: pops the top snapshot back into a clean tree, or
/// exits with code 1 when the list is empty. Popping onto a tree that
/// already has changes may conflict; the workflows never do.
pub open spec fn restore_step(m: RepoModel) -> (RepoModel, i32) {
    if m.stashes.len() == 0 {
        (m, 1)
    } else if m.changes.len() == 0 {
        (RepoModel { changes: m.stashes.last(), stashes: m.stashes.drop_last(), file: m.file }, 0)
    } else {
        (m, 1)
    }
}

/// The show operation: writes the top snapshot to the stash file as a
/// binary patch, leaving the list alone; with no snapshot the written patch
/// encodes an empty set of changes.
pub open spec fn show_step(m: RepoModel) -> RepoModel {
    RepoModel {
        changes: m.changes,
        stashes: m.stashes,
        file: if m.stashes.len() == 0 {
            Seq::<u8>::empty()
        } else {
            m.stashes.last()
        },
    }
}

/// The apply operation: replays the stash file onto a clean tree, an empty
/// patch being a successful no-op. On a tree that already has changes the
/// patch may conflict; the load workflow cleans the tree first.
pub open spec fn apply_step(m: RepoModel) -> (RepoModel, i32) {
    if m.changes.len() == 0 {
        (RepoModel { changes: m.file, stashes: m.stashes, file: m.file }, 0)
    } else {
        (m, 1)
    }
}

/// The save workflow over the model: capture, write the snapshot out, pop
/// it back, with a benign failure of the pop treated as success.
pub open spec fn run_save(m: RepoModel) -> (RepoModel, bool) {
    let m1 = capture_step(m);
    let m2 = show_step(m1);
    let (m3, code) = restore_step(m2);
    if code == 0 || spec_classify(GitOp::RestoreTopSnapshot, code) is Benign {
        (m3, true)
    } else {
        (m3, false)
    }
}

/// The load workflow over the model: capture a safety snapshot, drop it,
/// apply the stash file, with a benign failure of the drop treated as
/// success.
pub open spec fn run_load(m: RepoModel) -> (RepoModel, bool) {
    let m1 = capture_step(m);
    let (m2, dcode) = drop_step(m1);
    if dcode == 0 || spec_classify(GitOp::DropTopSnapshot, dcode) is Benign {
        let (m3, acode) = apply_step(m2);
        (m3, acode == 0)
    } else {
        (m2, false)
    }
}

/// On a clean tree, saving and then immediately loading succeeds — both
/// benign exit-code paths are exercised rather than surfaced — and leaves
/// the tree exactly as it was. Holds when the tool's internal snapshot
/// list starts empty, the workflows' steady state. The last two clauses
/// pin down that the benign branches really are taken: the save's restore
/// step and the load's drop step both exit with the benign code 1.
pub proof fn lemma_save_then_load_on_clean_tree(m: RepoModel)
    requires
        m.changes.len() == 0,
        m.stashes.len() == 0,
    ensures
        run_save(m).1,
        run_load(run_save(m).0).1,
        run_load(run_save(m).0).0.changes == m.changes,
        restore_step(show_step(capture_step(m))).1 == 1,
        drop_step(capture_step(run_save(m).0)).1 == 1,
{
    let (m1, saved) = run_save(m);
    assert(m1.changes =~= m.changes);
    let (m2, loaded) = run_load(m1);
    assert(m2.changes =~= m.changes);
}

/// Saving leaves the working tree exactly as it was — the captured changes
/// come back whole — and fills the stash file with the captured snapshot,
/// which is non-empty whenever there were changes. Holds when the tool's
/// internal snapshot list starts empty.
pub proof fn lemma_save_round_trips_changes(m: RepoModel)
    requires
        m.stashes.len() == 0,
        m.changes.len() > 0,
    ensures
        run_save(m).1,
        run_save(m).0.changes == m.changes,
        run_save(m).0.file == m.changes,
        run_save(m).0.file.len() > 0,
        run_save(m).0.stashes.len() == 0,
{
    let captured = capture_step(m);
    assert(captured.stashes.last() == m.changes);
    assert(captured.stashes.drop_last().len() == 0);
}

/// Loading discards whatever uncommitted changes the tree held and replaces
/// them with exactly the stash file's contents, whatever was there before.
/// Holds when the tool's internal snapshot list starts empty.
pub proof fn lemma_load_overwrites_tree(m: RepoModel)
    requires
        m.stashes.len() == 0,
    ensures
        run_load(m).1,
        run_load(m).0.changes == m.file,
        run_load(m).0.stashes.len() == 0,
{
    if m.changes.len() > 0 {
        let m1 = capture_step(m);
        assert(m1.stashes.drop_last().len() == 0);
    }
}

/// A stash file written by a save in one working tree, loaded in another
/// clean checkout of the same repository and branch, reproduces the saved
/// changes there exactly.
pub proof fn lemma_saved_file_reproduces_changes_elsewhere(m: RepoModel, other: RepoModel)
    requires
        m.stashes.len() == 0,
        m.changes.len() > 0,
        other.stashes.len() == 0,
        other.file == run_save(m).0.file,
    ensures
        run_save(m).1,
        run_load(other).1,
        run_load(other).0.changes == m.changes,
{
    lemma_save_round_trips_changes(m);
    lemma_load_overwrites_tree(other);
}

/// Loading a stash file that encodes an empty set of changes succeeds as a
/// no-op: the tree ends clean, not in error.
pub proof fn lemma_load_empty_file_is_noop(m: RepoModel)
    requires
        m.stashes.len() == 0,
        m.file.len() == 0,
    ensures
        run_load(m).1,
        run_load(m).0.changes.len() == 0,
{
    lemma_load_overwrites_tree(m);
}

} // verus!
