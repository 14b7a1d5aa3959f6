//! Properties of whole lock and unlock runs, proved over the directory
//! model of [`crate::fs_model`].
//!
//! A run of the orchestrator emits a fixed sequence of effects; each stage's
//! `action_model` says which. The lemmas here fold those sequences over
//! [`apply_actions`] — the model of an environment that performs every
//! effect faithfully — and pin down the directory state that results.

use vstd::prelude::*;
use crate::fs_model::{apply_action, apply_actions, DirNames, DirState, FsActionModel, FsModel};
use crate::folder_operations::{
    LockConcealStage,
    LockMetadataStage,
    LockProfileStage,
    UnlockReject,
    UnlockRelaxStage,
    UnlockRemoveStage,
    UnlockRenameStage,
    UnlockVerifyStage,
};
use crate::password::verify_outcome;
use crate::paths::FolderPaths;
use crate::error::LockerError;

verus! {

/// The names a run works with, from the resolved paths and the metadata
/// file name.
pub open spec fn run_names(paths: FolderPaths, metadata_name: Seq<char>) -> DirNames {
    DirNames {
        visible: paths.visible_view(),
        concealed: paths.concealed_view(),
        metadata: metadata_name,
    }
}

/// The effects a lock run asks for once the password stage has produced
/// `s`: conceal the directory, write the digest, apply the profile — in
/// that order, each stage's own action.
pub open spec fn lock_action_seq(s: LockConcealStage) -> Seq<FsActionModel> {
    seq![
        s.action_model(),
        (LockMetadataStage {
            paths: s.paths,
            metadata_name: s.metadata_name,
            digest: s.digest,
        }).action_model(),
        (LockProfileStage { paths: s.paths }).action_model(),
    ]
}

/// The effects a successful unlock run asks for from `s` on: relax the
/// profile, read the metadata, remove the metadata, rename back — in that
/// order, each stage's own action.
pub open spec fn unlock_action_seq(s: UnlockRelaxStage) -> Seq<FsActionModel> {
    seq![
        s.action_model(),
        (UnlockVerifyStage { paths: s.paths, metadata_name: s.metadata_name }).read_model(),
        (UnlockRemoveStage { paths: s.paths, metadata_name: s.metadata_name }).action_model(),
        (UnlockRenameStage { paths: s.paths }).action_model(),
    ]
}

/// A completed lock run on an unlocked directory leaves it locked: the one
/// entry on disk is the concealed path, the visible path is gone, the
/// metadata file holds exactly the digest, the profile is applied, and the
/// directory's contents are untouched.
pub proof fn lemma_lock_run_locks(fs0: FsModel, s: LockConcealStage)
    requires
        fs0.state() == DirState::Unlocked,
        s.visible_exists == fs0.visible_exists,
    ensures
        ({
            let names = run_names(s.paths, s.metadata_name@);
            let locked = apply_actions(names, fs0, lock_action_seq(s));
            &&& locked.state() == DirState::Locked
            &&& locked.concealed_exists
            &&& !locked.visible_exists
            &&& locked.metadata == Some(s.digest@)
            &&& locked.profile_applied
            &&& locked.contents == fs0.contents
        }),
{
    let names = run_names(s.paths, s.metadata_name@);
    let actions = lock_action_seq(s);
    reveal_with_fuel(apply_actions, 4);
    let fs1 = apply_action(names, fs0, actions[0]);
    let fs2 = apply_action(names, fs1, actions[1]);
    let fs3 = apply_action(names, fs2, actions[2]);
    assert(actions.drop_first() =~= seq![actions[1], actions[2]]);
    assert(actions.drop_first().drop_first() =~= seq![actions[2]]);
    assert(actions.drop_first().drop_first().drop_first() =~= Seq::<FsActionModel>::empty());
    assert(apply_actions(names, fs0, actions) == fs3);
}

/// A completed lock run where the directory never existed creates the
/// concealed path fresh and empty, and leaves it locked.
pub proof fn lemma_lock_run_creates_fresh(fs0: FsModel, s: LockConcealStage)
    requires
        !fs0.visible_exists,
        !fs0.concealed_exists,
        !s.visible_exists,
    ensures
        ({
            let names = run_names(s.paths, s.metadata_name@);
            let locked = apply_actions(names, fs0, lock_action_seq(s));
            &&& locked.state() == DirState::Locked
            &&& locked.metadata == Some(s.digest@)
            &&& locked.contents == Seq::<u8>::empty()
        }),
{
    let names = run_names(s.paths, s.metadata_name@);
    let actions = lock_action_seq(s);
    reveal_with_fuel(apply_actions, 4);
    let fs1 = apply_action(names, fs0, actions[0]);
    let fs2 = apply_action(names, fs1, actions[1]);
    let fs3 = apply_action(names, fs2, actions[2]);
    assert(actions.drop_first() =~= seq![actions[1], actions[2]]);
    assert(actions.drop_first().drop_first() =~= seq![actions[2]]);
    assert(actions.drop_first().drop_first().drop_first() =~= Seq::<FsActionModel>::empty());
    assert(apply_actions(names, fs0, actions) == fs3);
}

/// A completed unlock run on a locked directory returns it to unlocked:
/// the visible path is back, the concealed path and the metadata file are
/// gone, the profile is relaxed, and the contents are untouched.
pub proof fn lemma_unlock_run_unlocks(fs0: FsModel, s: UnlockRelaxStage)
    requires
        fs0.state() == DirState::Locked,
    ensures
        ({
            let names = run_names(s.paths, s.metadata_name@);
            let unlocked = apply_actions(names, fs0, unlock_action_seq(s));
            &&& unlocked.state() == DirState::Unlocked
            &&& unlocked.visible_exists
            &&& !unlocked.concealed_exists
            &&& unlocked.metadata is None
            &&& !unlocked.profile_applied
            &&& unlocked.contents == fs0.contents
        }),
{
    let names = run_names(s.paths, s.metadata_name@);
    let actions = unlock_action_seq(s);
    reveal_with_fuel(apply_actions, 5);
    let fs1 = apply_action(names, fs0, actions[0]);
    let fs2 = apply_action(names, fs1, actions[1]);
    let fs3 = apply_action(names, fs2, actions[2]);
    let fs4 = apply_action(names, fs3, actions[3]);
    assert(actions.drop_first() =~= seq![actions[1], actions[2], actions[3]]);
    assert(actions.drop_first().drop_first() =~= seq![actions[2], actions[3]]);
    assert(actions.drop_first().drop_first().drop_first() =~= seq![actions[3]]);
    assert(actions.drop_first().drop_first().drop_first().drop_first() =~= Seq::<
        FsActionModel,
    >::empty());
    assert(apply_actions(names, fs0, actions) == fs4);
}

/// Round trip: locking an unlocked directory and then unlocking it with a
/// password that matches the stored digest — which the unlock's
/// verification step demands before it lets the run go on — returns the
/// directory to unlocked, with the same contents and no metadata file left
/// behind.
pub proof fn lemma_lock_unlock_round_trip(fs0: FsModel, s: LockConcealStage, password: Seq<char>)
    requires
        fs0.state() == DirState::Unlocked,
        s.visible_exists == fs0.visible_exists,
        verify_outcome(password, s.digest@) == Some(true),
    ensures
        ({
            let names = run_names(s.paths, s.metadata_name@);
            let locked = apply_actions(names, fs0, lock_action_seq(s));
            let unlocked = apply_actions(
                names,
                locked,
                unlock_action_seq(
                    UnlockRelaxStage { paths: s.paths, metadata_name: s.metadata_name },
                ),
            );
            // what the unlock's verification step reads and checks:
            &&& locked.metadata == Some(s.digest@)
            &&& verify_outcome(password, s.digest@) == Some(true)
            // and what the completed run leaves behind:
            &&& unlocked.state() == DirState::Unlocked
            &&& unlocked.metadata is None
            &&& unlocked.contents == fs0.contents
        }),
{
    let names = run_names(s.paths, s.metadata_name@);
    lemma_lock_run_locks(fs0, s);
    let locked = apply_actions(names, fs0, lock_action_seq(s));
    lemma_unlock_run_unlocks(
        locked,
        UnlockRelaxStage { paths: s.paths, metadata_name: s.metadata_name },
    );
}

/// Wrong-password rejection: a locked directory holds the stored digest,
/// and the unlock attempt supplies a candidate whose verification against
/// that digest yields false. By [`UnlockVerifyStage::verify`]'s contract
/// the attempt is then rejected as `InvalidPassword`, and the only effects
/// it ever asked for — relaxing the profile, reading the metadata,
/// restoring the profile — return the directory model to exactly its prior
/// state: still locked, concealed path present, the same digest stored,
/// profile applied.
///
/// The premise is verification yielding false rather than mere inequality
/// of the passwords: bcrypt truncates at 72 bytes, so a candidate that
/// differs from the password only beyond that point verifies true.
pub proof fn lemma_wrong_password_rejection_leaves_locked(
    fs0: FsModel,
    s: UnlockRelaxStage,
    candidate: Seq<char>,
    digest: Seq<char>,
)
    requires
        fs0.state() == DirState::Locked,
        fs0.profile_applied,
        fs0.metadata == Some(digest),
        verify_outcome(candidate, digest) == Some(false),
    ensures
        ({
            let names = run_names(s.paths, s.metadata_name@);
            let relaxed = apply_action(names, fs0, s.action_model());
            let read = apply_action(
                names,
                relaxed,
                (UnlockVerifyStage { paths: s.paths, metadata_name: s.metadata_name }).read_model(),
            );
            let reject = UnlockReject { error: LockerError::InvalidPassword, paths: s.paths };
            let restored = apply_action(names, read, reject.restore_model());
            &&& restored == fs0
            &&& restored.state() == DirState::Locked
            &&& restored.concealed_exists
            &&& restored.metadata == Some(digest)
            &&& restored.profile_applied
        }),
{
}

/// Partial-failure safety: when applying the permission profile fails
/// during a lock, only the conceal and the metadata write took hold. The
/// directory is nevertheless locked at rest, and a later unlock run still
/// returns it to unlocked with its contents intact — relaxing a profile
/// that was never applied is a harmless no-op.
pub proof fn lemma_profile_failure_still_locks(fs0: FsModel, s: LockConcealStage)
    requires
        fs0.state() == DirState::Unlocked,
        s.visible_exists == fs0.visible_exists,
    ensures
        ({
            let names = run_names(s.paths, s.metadata_name@);
            let locked = apply_actions(names, fs0, lock_action_seq(s).take(2));
            let unlocked = apply_actions(
                names,
                locked,
                unlock_action_seq(
                    UnlockRelaxStage { paths: s.paths, metadata_name: s.metadata_name },
                ),
            );
            &&& locked.state() == DirState::Locked
            &&& locked.profile_applied == fs0.profile_applied
            &&& locked.metadata == Some(s.digest@)
            &&& unlocked.state() == DirState::Unlocked
            &&& unlocked.contents == fs0.contents
        }),
{
    let names = run_names(s.paths, s.metadata_name@);
    let actions = lock_action_seq(s).take(2);
    reveal_with_fuel(apply_actions, 3);
    let fs1 = apply_action(names, fs0, actions[0]);
    let fs2 = apply_action(names, fs1, actions[1]);
    assert(actions.drop_first() =~= seq![actions[1]]);
    assert(actions.drop_first().drop_first() =~= Seq::<FsActionModel>::empty());
    assert(apply_actions(names, fs0, actions) == fs2);
    lemma_unlock_run_unlocks(fs2, UnlockRelaxStage { paths: s.paths, metadata_name: s.metadata_name });
}

/// Idempotent double lock: a locked directory has its concealed path on
/// disk, so by the contract of [`crate::folder_operations::lock_folder`] a
/// second lock request returns [`crate::folder_operations::LockStart::AlreadyLocked`],
/// which carries no further stage and asks for no effect — and no effects
/// leave the model, and with it the stored digest, exactly as they were.
pub proof fn lemma_double_lock_is_noop(fs: FsModel, names: DirNames)
    requires
        fs.state() == DirState::Locked,
    ensures
        fs.concealed_exists,
        apply_actions(names, fs, Seq::<FsActionModel>::empty()) == fs,
{
}

/// Unlock without lock: a directory that was never locked has no concealed
/// path, so by the contract of [`crate::folder_operations::unlock_folder`]
/// the request is refused as `FolderNotLocked` before any stage exists —
/// no effect is asked for, and the model stays as it was.
pub proof fn lemma_unlock_without_lock_is_rejected(fs: FsModel, names: DirNames)
    requires
        fs.state() == DirState::Unlocked,
    ensures
        !fs.concealed_exists,
        apply_actions(names, fs, Seq::<FsActionModel>::empty()) == fs,
{
}

/// Applying or relaxing the permission profile twice is no different from
/// doing it once: each sets an absolute state, so the repetition changes
/// nothing further.
pub proof fn lemma_profile_changes_idempotent(names: DirNames, fs: FsModel)
    ensures
        ({
            let hardened = apply_action(
                names,
                fs,
                FsActionModel::ApplyProfile { path: names.concealed },
            );
            let relaxed = apply_action(
                names,
                fs,
                FsActionModel::RelaxProfile { path: names.concealed },
            );
            &&& apply_action(names, hardened, FsActionModel::ApplyProfile { path: names.concealed })
                == hardened
            &&& apply_action(names, relaxed, FsActionModel::RelaxProfile { path: names.concealed })
                == relaxed
        }),
{
}

} // verus!
