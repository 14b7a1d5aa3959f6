//! The lock orchestrator: the state machine that decides the legality of a
//! requested lock or unlock, sequences its effects, and reports the result.
//!
//! Locking runs: resolve names, obtain and hash the password, conceal the
//! directory (rename, or create it fresh), write the digest to the metadata
//! file, then apply the permission profile. Applying the profile last means
//! a failure partway through never leaves a directory the user cannot reach.
//!
//! Unlocking runs in reverse: relax the profile first (a deny rule could
//! otherwise block the rename), verify the password against the stored
//! digest, remove the metadata file, rename the directory back. A rejected
//! password hands back the action that re-applies the profile, so a failed
//! attempt leaves the directory as protected as before.
//!
//! Each step is a value that the previous one returned: the caller performs
//! the step's [`FsAction`] and feeds the outcome back. The caller does I/O
//! and nothing else; every decision is made, and proved, here.

use vstd::prelude::*;
use crate::error::LockerError;
use crate::fs_model::{FsAction, FsActionModel};
use crate::password::{hash_password, verify_password, verify_outcome};
use crate::paths::FolderPaths;

verus! {

/// The reserved name of the metadata file inside a locked directory. The
/// orchestrator takes the name as a parameter so that it can be varied for
/// testing; this is the name the tool uses.
pub const METADATA_FILE: &'static str = ".locker_metadata";

/// The path of the metadata file named `name` inside the directory `dir`,
/// as file-operation errors report it.
pub open spec fn metadata_path_of(dir: Seq<char>, name: Seq<char>) -> Seq<char> {
    dir + seq!['/'] + name
}

/// Joins the metadata file name onto its directory, for error reports.
fn join_metadata_path(dir: &str, name: &str) -> (r: String)
    ensures
        r@ == metadata_path_of(dir@, name@),
{
    let r = dir.to_owned().concat("/").concat(name);
    proof {
        reveal_strlit("/");
        assert(r@ =~= metadata_path_of(dir@, name@));
    }
    r
}

// ---------------------------------------------------------------------------
// Locking
// ---------------------------------------------------------------------------
/// How a lock request starts.
#[derive(Debug)]
pub enum LockStart {
    /// The concealed path already exists: the folder is already locked, and
    /// the request is a no-op success. Nothing is touched, in particular
    /// the stored digest is not overwritten.
    AlreadyLocked,
    /// The folder is not locked yet: a password is needed next.
    NeedPassword(LockPasswordStage),
}

/// Begins a lock of the folder named by `paths`. `concealed_exists` and
/// `visible_exists` are what the caller observed on disk.
pub fn lock_folder(
    paths: FolderPaths,
    metadata_name: String,
    concealed_exists: bool,
    visible_exists: bool,
) -> (r: LockStart)
    ensures
        concealed_exists <==> r is AlreadyLocked,
        r matches LockStart::NeedPassword(s) ==> s.paths == paths && s.metadata_name
            == metadata_name && s.visible_exists == visible_exists,
{
    if concealed_exists {
        LockStart::AlreadyLocked
    } else {
        LockStart::NeedPassword(LockPasswordStage { paths, metadata_name, visible_exists })
    }
}

/// A lock waiting for the password and its confirmation.
#[derive(Debug)]
pub struct LockPasswordStage {
    pub paths: FolderPaths,
    pub metadata_name: String,
    pub visible_exists: bool,
}

impl LockPasswordStage {
    /// The caller could not obtain a password at all.
    pub fn input_failed(self) -> (e: LockerError)
        ensures
            e matches LockerError::PasswordOperationFailed { operation, reason } && operation@
                == "input"@ && reason@ == "User interaction error"@,
    {
        LockerError::PasswordOperationFailed {
            operation: String::from_str("input"),
            reason: String::from_str("User interaction error"),
        }
    }

    /// Takes the entered password and its confirmation. A mismatch fails
    /// the input step; otherwise the password is hashed, and on success the
    /// digest that will be stored verifies as a match for the password.
    pub fn supply_password(self, password: String, confirmation: String) -> (r: Result<
        LockConcealStage,
        LockerError,
    >)
        ensures
            r matches Ok(s) ==> password@ == confirmation@ && s.paths == self.paths
                && s.metadata_name == self.metadata_name && s.visible_exists == self.visible_exists
                && verify_outcome(password@, s.digest@) == Some(true) && (forall|
                candidate: Seq<char>,
            | verify_outcome(candidate, s.digest@) is Some),
            password@ != confirmation@ ==> (r matches Err(e) && e matches
                LockerError::PasswordOperationFailed { operation, reason } && operation@ == "input"@
                && reason@ == "Passwords don't match"@),
            password@ == confirmation@ && r is Err ==> (r matches Err(e) && e matches
                LockerError::PasswordOperationFailed { operation, .. } && operation@ == "hash"@),
    {
        if password != confirmation {
            return Err(LockerError::PasswordOperationFailed {
                operation: String::from_str("input"),
                reason: String::from_str("Passwords don't match"),
            });
        }
        let digest = hash_password(password.as_str())?;
        Ok(
            LockConcealStage {
                paths: self.paths,
                metadata_name: self.metadata_name,
                visible_exists: self.visible_exists,
                digest,
            },
        )
    }
}

/// A lock ready to conceal the directory.
#[derive(Debug)]
pub struct LockConcealStage {
    pub paths: FolderPaths,
    pub metadata_name: String,
    pub visible_exists: bool,
    pub digest: String,
}

impl LockConcealStage {
    /// The effect to perform now: rename the visible directory to its
    /// concealed name, or create the concealed directory fresh if the
    /// visible one does not exist.
    pub open spec fn action_model(&self) -> FsActionModel {
        if self.visible_exists {
            FsActionModel::Rename {
                from: self.paths.visible_view(),
                to: self.paths.concealed_view(),
            }
        } else {
            FsActionModel::Create { path: self.paths.concealed_view() }
        }
    }

    /// The conceal effect to perform.
    pub fn action(&self) -> (a: FsAction)
        ensures
            a@ == self.action_model(),
    {
        if self.visible_exists {
            FsAction::Rename {
                from: self.paths.visible_name().to_owned(),
                to: self.paths.concealed_name().to_owned(),
            }
        } else {
            FsAction::Create { path: self.paths.concealed_name().to_owned() }
        }
    }

    /// Takes the outcome of the conceal effect. At this point no metadata
    /// or permissions have been touched, so on failure the directory is
    /// recoverable by a plain rename back.
    pub fn concealed(self, outcome: Result<(), String>) -> (r: Result<
        LockMetadataStage,
        LockerError,
    >)
        ensures
            outcome is Ok ==> (r matches Ok(s) && s.paths == self.paths && s.metadata_name
                == self.metadata_name && s.digest == self.digest),
            outcome matches Err(msg) ==> (r matches Err(e) && e matches
                LockerError::FileOperationFailed { operation, path, error } && error@ == msg@ && (
            self.visible_exists ==> operation@ == "rename"@ && path@ == self.paths.visible_view())
                && (!self.visible_exists ==> operation@ == "create"@ && path@
                == self.paths.concealed_view())),
    {
        match outcome {
            Ok(()) => Ok(
                LockMetadataStage {
                    paths: self.paths,
                    metadata_name: self.metadata_name,
                    digest: self.digest,
                },
            ),
            Err(msg) => {
                if self.visible_exists {
                    Err(
                        LockerError::FileOperationFailed {
                            operation: String::from_str("rename"),
                            path: self.paths.visible_name().to_owned(),
                            error: msg,
                        },
                    )
                } else {
                    Err(
                        LockerError::FileOperationFailed {
                            operation: String::from_str("create"),
                            path: self.paths.concealed_name().to_owned(),
                            error: msg,
                        },
                    )
                }
            },
        }
    }
}

/// A lock ready to write the digest to the metadata file.
#[derive(Debug)]
pub struct LockMetadataStage {
    pub paths: FolderPaths,
    pub metadata_name: String,
    pub digest: String,
}

impl LockMetadataStage {
    /// The effect to perform now: write the digest as the sole contents of
    /// the metadata file inside the concealed directory.
    pub open spec fn action_model(&self) -> FsActionModel {
        FsActionModel::WriteFile {
            dir: self.paths.concealed_view(),
            name: self.metadata_name@,
            contents: self.digest@,
        }
    }

    /// The metadata write to perform.
    pub fn action(&self) -> (a: FsAction)
        ensures
            a@ == self.action_model(),
    {
        FsAction::WriteFile {
            dir: self.paths.concealed_name().to_owned(),
            name: self.metadata_name.clone(),
            contents: self.digest.clone(),
        }
    }

    /// Takes the outcome of the metadata write. A failure here leaves the
    /// directory concealed but unprotected; it is reported, not rolled
    /// back.
    pub fn written(self, outcome: Result<(), String>) -> (r: Result<LockProfileStage, LockerError>)
        ensures
            outcome is Ok ==> (r matches Ok(s) && s.paths == self.paths),
            outcome matches Err(msg) ==> (r matches Err(e) && e matches
                LockerError::FileOperationFailed { operation, path, error } && operation@
                == "write"@ && path@ == metadata_path_of(
                self.paths.concealed_view(),
                self.metadata_name@,
            ) && error@ == msg@),
    {
        match outcome {
            Ok(()) => Ok(LockProfileStage { paths: self.paths }),
            Err(msg) => Err(
                LockerError::FileOperationFailed {
                    operation: String::from_str("write"),
                    path: join_metadata_path(
                        self.paths.concealed_name(),
                        self.metadata_name.as_str(),
                    ),
                    error: msg,
                },
            ),
        }
    }
}

/// A lock ready to apply the permission profile.
#[derive(Debug)]
pub struct LockProfileStage {
    pub paths: FolderPaths,
}

impl LockProfileStage {
    /// The effect to perform now: apply the permission profile to the
    /// concealed directory.
    pub open spec fn action_model(&self) -> FsActionModel {
        FsActionModel::ApplyProfile { path: self.paths.concealed_view() }
    }

    /// The profile application to perform.
    pub fn action(&self) -> (a: FsAction)
        ensures
            a@ == self.action_model(),
    {
        FsAction::ApplyProfile { path: self.paths.concealed_name().to_owned() }
    }

    /// Takes the outcome of the profile application and finishes the lock.
    /// A profile failure is deliberately non-fatal: the directory is then
    /// concealed and password-protected, just not hardened, so the lock
    /// still reports success.
    pub fn profile_applied(self, outcome: Result<(), String>) -> (r: Result<(), LockerError>)
        ensures
            r is Ok,
    {
        let _ = outcome;
        Ok(())
    }
}

// ---------------------------------------------------------------------------
// Unlocking
// ---------------------------------------------------------------------------
/// Begins an unlock of the folder named by `paths`. `concealed_exists` is
/// what the caller observed on disk; a folder whose concealed path does not
/// exist is not locked, which is an error, not a no-op.
pub fn unlock_folder(paths: FolderPaths, metadata_name: String, concealed_exists: bool) -> (r:
    Result<UnlockRelaxStage, LockerError>)
    ensures
        !concealed_exists ==> (r matches Err(e) && e is FolderNotLocked),
        concealed_exists ==> (r matches Ok(s) && s.paths == paths && s.metadata_name
            == metadata_name),
{
    if !concealed_exists {
        Err(LockerError::FolderNotLocked)
    } else {
        Ok(UnlockRelaxStage { paths, metadata_name })
    }
}

/// An unlock ready to relax the permission profile. This happens before
/// anything else: a deny-delete rule would otherwise make the later rename
/// fail.
#[derive(Debug)]
pub struct UnlockRelaxStage {
    pub paths: FolderPaths,
    pub metadata_name: String,
}

impl UnlockRelaxStage {
    /// The effect to perform now: reset the concealed directory's
    /// permissions to inherited defaults.
    pub open spec fn action_model(&self) -> FsActionModel {
        FsActionModel::RelaxProfile { path: self.paths.concealed_view() }
    }

    /// The profile relaxation to perform.
    pub fn action(&self) -> (a: FsAction)
        ensures
            a@ == self.action_model(),
    {
        FsAction::RelaxProfile { path: self.paths.concealed_name().to_owned() }
    }

    /// Takes the outcome of the relaxation. A failure is non-fatal, in
    /// symmetry with profile application during locking: the unlock goes
    /// on to verification either way.
    pub fn relaxed(self, outcome: Result<(), String>) -> (s: UnlockVerifyStage)
        ensures
            s.paths == self.paths && s.metadata_name == self.metadata_name,
    {
        let _ = outcome;
        UnlockVerifyStage { paths: self.paths, metadata_name: self.metadata_name }
    }
}

/// An unlock waiting for the password and the stored digest.
#[derive(Debug)]
pub struct UnlockVerifyStage {
    pub paths: FolderPaths,
    pub metadata_name: String,
}

/// An unlock attempt that was turned away before touching anything. The
/// profile was already relaxed, so the rejection hands back the action that
/// re-applies it: a failed attempt leaves the directory as protected as
/// before.
#[derive(Debug)]
pub struct UnlockReject {
    pub error: LockerError,
    pub paths: FolderPaths,
}

impl UnlockReject {
    /// The effect that restores the permission profile.
    pub open spec fn restore_model(&self) -> FsActionModel {
        FsActionModel::ApplyProfile { path: self.paths.concealed_view() }
    }

    /// The profile restoration to perform.
    pub fn restore_action(&self) -> (a: FsAction)
        ensures
            a@ == self.restore_model(),
    {
        FsAction::ApplyProfile { path: self.paths.concealed_name().to_owned() }
    }
}

/// What password verification decided.
#[derive(Debug)]
pub enum UnlockVerifyOutcome {
    /// The password matches the stored digest: go on to remove metadata.
    Proceed(UnlockRemoveStage),
    /// The attempt is rejected; the directory stays concealed and locked.
    Reject(UnlockReject),
}

impl UnlockVerifyStage {
    /// The read to perform now: the stored digest is the full contents of
    /// the metadata file inside the concealed directory. Reading changes
    /// nothing.
    pub open spec fn read_model(&self) -> FsActionModel {
        FsActionModel::ReadFile { dir: self.paths.concealed_view(), name: self.metadata_name@ }
    }

    /// The metadata read to perform.
    pub fn read_action(&self) -> (a: FsAction)
        ensures
            a@ == self.read_model(),
    {
        FsAction::ReadFile {
            dir: self.paths.concealed_name().to_owned(),
            name: self.metadata_name.clone(),
        }
    }

    /// The caller could not obtain a password at all.
    pub fn input_failed(self) -> (r: UnlockReject)
        ensures
            r.paths == self.paths,
            r.error matches LockerError::PasswordOperationFailed { operation, reason } && operation@
                == "input"@ && reason@ == "User interaction error"@,
    {
        UnlockReject {
            error: LockerError::PasswordOperationFailed {
                operation: String::from_str("input"),
                reason: String::from_str("User interaction error"),
            },
            paths: self.paths,
        }
    }

    /// The metadata file could not be read: metadata corruption or
    /// tampering, distinct from "folder not locked".
    pub fn metadata_read_failed(self, error: String) -> (r: UnlockReject)
        ensures
            r.paths == self.paths,
            r.error matches LockerError::FileOperationFailed { operation, path, error: cause }
                && operation@ == "read"@ && path@ == metadata_path_of(
                self.paths.concealed_view(),
                self.metadata_name@,
            ) && cause@ == error@,
    {
        UnlockReject {
            error: LockerError::FileOperationFailed {
                operation: String::from_str("read"),
                path: join_metadata_path(self.paths.concealed_name(), self.metadata_name.as_str()),
                error,
            },
            paths: self.paths,
        }
    }

    /// Verifies the entered password against the stored digest. A match
    /// proceeds; a mismatch is rejected as an invalid password; a malformed
    /// digest is rejected as a verification failure. Rejection mutates
    /// nothing: the directory stays concealed, the metadata stays in
    /// place.
    pub fn verify(self, input: String, stored_password: String) -> (r: UnlockVerifyOutcome)
        ensures
            verify_outcome(input@, stored_password@) == Some(true) ==> (r matches
                UnlockVerifyOutcome::Proceed(s) && s.paths == self.paths && s.metadata_name
                == self.metadata_name),
            verify_outcome(input@, stored_password@) == Some(false) ==> (r matches
                UnlockVerifyOutcome::Reject(rej) && rej.paths == self.paths
                && rej.error is InvalidPassword),
            verify_outcome(input@, stored_password@) is None ==> (r matches
                UnlockVerifyOutcome::Reject(rej) && rej.paths == self.paths && (rej.error matches
                LockerError::PasswordOperationFailed { operation, .. } && operation@ == "verify"@)),
    {
        match verify_password(input.as_str(), stored_password.as_str()) {
            Ok(true) => UnlockVerifyOutcome::Proceed(
                UnlockRemoveStage { paths: self.paths, metadata_name: self.metadata_name },
            ),
            Ok(false) => UnlockVerifyOutcome::Reject(
                UnlockReject { error: LockerError::InvalidPassword, paths: self.paths },
            ),
            Err(e) => UnlockVerifyOutcome::Reject(UnlockReject { error: e, paths: self.paths }),
        }
    }
}

/// An unlock ready to remove the metadata file.
#[derive(Debug)]
pub struct UnlockRemoveStage {
    pub paths: FolderPaths,
    pub metadata_name: String,
}

impl UnlockRemoveStage {
    /// The effect to perform now: remove the metadata file from the
    /// concealed directory.
    pub open spec fn action_model(&self) -> FsActionModel {
        FsActionModel::RemoveFile { dir: self.paths.concealed_view(), name: self.metadata_name@ }
    }

    /// The metadata removal to perform.
    pub fn action(&self) -> (a: FsAction)
        ensures
            a@ == self.action_model(),
    {
        FsAction::RemoveFile {
            dir: self.paths.concealed_name().to_owned(),
            name: self.metadata_name.clone(),
        }
    }

    /// Takes the outcome of the metadata removal.
    pub fn removed(self, outcome: Result<(), String>) -> (r: Result<UnlockRenameStage, LockerError>)
        ensures
            outcome is Ok ==> (r matches Ok(s) && s.paths == self.paths),
            outcome matches Err(msg) ==> (r matches Err(e) && e matches
                LockerError::FileOperationFailed { operation, path, error } && operation@
                == "remove"@ && path@ == metadata_path_of(
                self.paths.concealed_view(),
                self.metadata_name@,
            ) && error@ == msg@),
    {
        match outcome {
            Ok(()) => Ok(UnlockRenameStage { paths: self.paths }),
            Err(msg) => Err(
                LockerError::FileOperationFailed {
                    operation: String::from_str("remove"),
                    path: join_metadata_path(
                        self.paths.concealed_name(),
                        self.metadata_name.as_str(),
                    ),
                    error: msg,
                },
            ),
        }
    }
}

/// An unlock ready to rename the directory back to its visible name.
#[derive(Debug)]
pub struct UnlockRenameStage {
    pub paths: FolderPaths,
}

impl UnlockRenameStage {
    /// The effect to perform now: rename the concealed directory back.
    pub open spec fn action_model(&self) -> FsActionModel {
        FsActionModel::Rename { from: self.paths.concealed_view(), to: self.paths.visible_view() }
    }

    /// The rename to perform.
    pub fn action(&self) -> (a: FsAction)
        ensures
            a@ == self.action_model(),
    {
        FsAction::Rename {
            from: self.paths.concealed_name().to_owned(),
            to: self.paths.visible_name().to_owned(),
        }
    }

    /// Takes the outcome of the rename and finishes the unlock.
    pub fn renamed(self, outcome: Result<(), String>) -> (r: Result<(), LockerError>)
        ensures
            outcome is Ok <==> r is Ok,
            outcome matches Err(msg) ==> (r matches Err(e) && e matches
                LockerError::FileOperationFailed { operation, path, error } && operation@
                == "rename"@ && path@ == self.paths.concealed_view() && error@ == msg@),
    {
        match outcome {
            Ok(()) => Ok(()),
            Err(msg) => Err(
                LockerError::FileOperationFailed {
                    operation: String::from_str("rename"),
                    path: self.paths.concealed_name().to_owned(),
                    error: msg,
                },
            ),
        }
    }
}

} // verus!
