use folder_locker::error::LockerError;
use folder_locker::folder_operations::{
    lock_folder, unlock_folder, LockStart, UnlockVerifyOutcome, METADATA_FILE,
};
use folder_locker::fs_model::{classify_state, DirState, FsAction};
use folder_locker::paths::get_folder_paths;

/// A simulated directory: the tests play the environment, performing each
/// action the orchestrator emits and checking it targets the right names.
struct SimFs {
    visible_name: String,
    concealed_name: String,
    visible_exists: bool,
    concealed_exists: bool,
    metadata: Option<String>,
    profile_applied: bool,
}

impl SimFs {
    fn unlocked(name: &str) -> SimFs {
        SimFs {
            visible_name: name.to_string(),
            concealed_name: format!(".{}", name),
            visible_exists: true,
            concealed_exists: false,
            metadata: None,
            profile_applied: false,
        }
    }

    fn state(&self) -> DirState {
        classify_state(
            self.visible_exists,
            self.concealed_exists,
            self.metadata.is_some(),
        )
    }

    fn apply(&mut self, action: FsAction) {
        match action {
            FsAction::Rename { from, to } => {
                if from == self.visible_name && to == self.concealed_name {
                    assert!(self.visible_exists && !self.concealed_exists);
                    self.visible_exists = false;
                    self.concealed_exists = true;
                } else if from == self.concealed_name && to == self.visible_name {
                    assert!(self.concealed_exists && !self.visible_exists);
                    self.concealed_exists = false;
                    self.visible_exists = true;
                } else {
                    panic!("rename of unexpected paths: {} -> {}", from, to);
                }
            }
            FsAction::Create { path } => {
                assert_eq!(path, self.concealed_name);
                assert!(!self.concealed_exists);
                self.concealed_exists = true;
                self.metadata = None;
            }
            FsAction::WriteFile { dir, name, contents } => {
                assert_eq!(dir, self.concealed_name);
                assert_eq!(name, METADATA_FILE);
                assert!(self.concealed_exists);
                self.metadata = Some(contents);
            }
            FsAction::ReadFile { dir, name } => {
                assert_eq!(dir, self.concealed_name);
                assert_eq!(name, METADATA_FILE);
            }
            FsAction::RemoveFile { dir, name } => {
                assert_eq!(dir, self.concealed_name);
                assert_eq!(name, METADATA_FILE);
                self.metadata = None;
            }
            FsAction::ApplyProfile { path } => {
                assert_eq!(path, self.concealed_name);
                self.profile_applied = true;
            }
            FsAction::RelaxProfile { path } => {
                assert_eq!(path, self.concealed_name);
                self.profile_applied = false;
            }
        }
    }
}

/// Drives a full lock run against the simulated directory; `profile_ok`
/// says whether applying the permission profile succeeds.
fn lock_with(fs: &mut SimFs, password: &str, profile_ok: bool) -> Result<(), LockerError> {
    let paths = get_folder_paths(Some(fs.visible_name.clone())).unwrap();
    match lock_folder(
        paths,
        METADATA_FILE.to_string(),
        fs.concealed_exists,
        fs.visible_exists,
    ) {
        LockStart::AlreadyLocked => Ok(()),
        LockStart::NeedPassword(stage) => {
            let stage = stage.supply_password(password.to_string(), password.to_string())?;
            fs.apply(stage.action());
            let stage = stage.concealed(Ok(()))?;
            fs.apply(stage.action());
            let stage = stage.written(Ok(()))?;
            if profile_ok {
                fs.apply(stage.action());
                stage.profile_applied(Ok(()))
            } else {
                stage.profile_applied(Err("access denied".to_string()))
            }
        }
    }
}

/// Drives a full unlock run against the simulated directory.
fn unlock_with(fs: &mut SimFs, password: &str) -> Result<(), LockerError> {
    let paths = get_folder_paths(Some(fs.visible_name.clone())).unwrap();
    let stage = unlock_folder(paths, METADATA_FILE.to_string(), fs.concealed_exists)?;
    fs.apply(stage.action());
    let stage = stage.relaxed(Ok(()));
    fs.apply(stage.read_action());
    let stored = match &fs.metadata {
        Some(digest) => digest.clone(),
        None => {
            let reject = stage.metadata_read_failed("metadata file missing".to_string());
            fs.apply(reject.restore_action());
            return Err(reject.error);
        }
    };
    match stage.verify(password.to_string(), stored) {
        UnlockVerifyOutcome::Reject(reject) => {
            fs.apply(reject.restore_action());
            Err(reject.error)
        }
        UnlockVerifyOutcome::Proceed(stage) => {
            fs.apply(stage.action());
            let stage = stage.removed(Ok(()))?;
            fs.apply(stage.action());
            stage.renamed(Ok(()))
        }
    }
}

#[test]
fn lock_then_unlock_round_trip() {
    let mut fs = SimFs::unlocked("Locker");
    lock_with(&mut fs, "hunter2", true).unwrap();
    assert_eq!(fs.state(), DirState::Locked);
    assert!(fs.concealed_exists && !fs.visible_exists);
    assert!(fs.profile_applied);
    assert_eq!(fs.metadata.as_ref().unwrap().len(), 60);

    unlock_with(&mut fs, "hunter2").unwrap();
    assert_eq!(fs.state(), DirState::Unlocked);
    assert!(fs.visible_exists && !fs.concealed_exists);
    assert!(fs.metadata.is_none());
    assert!(!fs.profile_applied);
}

#[test]
fn wrong_password_leaves_folder_locked() {
    let mut fs = SimFs::unlocked("Locker");
    lock_with(&mut fs, "right password", true).unwrap();
    let digest_before = fs.metadata.clone();

    let err = unlock_with(&mut fs, "wrong password").unwrap_err();
    assert!(matches!(err, LockerError::InvalidPassword));
    assert_eq!(err.message(), "Invalid password: Authentication failed");
    assert_eq!(fs.state(), DirState::Locked);
    assert!(fs.concealed_exists && !fs.visible_exists);
    assert_eq!(fs.metadata, digest_before);
    assert!(fs.profile_applied);
}

#[test]
fn double_lock_is_a_noop_success() {
    let mut fs = SimFs::unlocked("Locker");
    lock_with(&mut fs, "first", true).unwrap();
    let digest_before = fs.metadata.clone();

    lock_with(&mut fs, "second", true).unwrap();
    assert_eq!(fs.state(), DirState::Locked);
    assert_eq!(fs.metadata, digest_before);
}

#[test]
fn unlock_without_lock_is_rejected() {
    let mut fs = SimFs::unlocked("Locker");
    let err = unlock_with(&mut fs, "anything").unwrap_err();
    assert!(matches!(err, LockerError::FolderNotLocked));
    assert_eq!(err.message(), "Folder is not locked");
    assert_eq!(fs.state(), DirState::Unlocked);
    assert!(fs.visible_exists && !fs.concealed_exists);
    assert!(fs.metadata.is_none());
}

#[test]
fn profile_failure_still_locks_and_unlocks() {
    let mut fs = SimFs::unlocked("Locker");
    lock_with(&mut fs, "hunter2", false).unwrap();
    assert_eq!(fs.state(), DirState::Locked);
    assert!(!fs.profile_applied);

    unlock_with(&mut fs, "hunter2").unwrap();
    assert_eq!(fs.state(), DirState::Unlocked);
}

#[test]
fn locking_a_missing_folder_creates_it() {
    let mut fs = SimFs::unlocked("Locker");
    fs.visible_exists = false;
    lock_with(&mut fs, "hunter2", true).unwrap();
    assert_eq!(fs.state(), DirState::Locked);
    assert!(fs.metadata.is_some());
}

#[test]
fn missing_metadata_is_reported_and_profile_restored() {
    let mut fs = SimFs::unlocked("Locker");
    lock_with(&mut fs, "hunter2", true).unwrap();
    fs.metadata = None;

    let err = unlock_with(&mut fs, "hunter2").unwrap_err();
    match &err {
        LockerError::FileOperationFailed { operation, path, error } => {
            assert_eq!(operation, "read");
            assert_eq!(path, ".Locker/.locker_metadata");
            assert_eq!(error, "metadata file missing");
        }
        other => panic!("unexpected error: {:?}", other),
    }
    assert!(fs.concealed_exists);
    assert!(fs.profile_applied);
}

#[test]
fn password_mismatch_fails_the_input_step() {
    let paths = get_folder_paths(Some("Locker".to_string())).unwrap();
    let stage = match lock_folder(paths, METADATA_FILE.to_string(), false, true) {
        LockStart::NeedPassword(stage) => stage,
        LockStart::AlreadyLocked => panic!("folder is not locked"),
    };
    let err = stage
        .supply_password("one".to_string(), "two".to_string())
        .unwrap_err();
    assert_eq!(err.message(), "Failed to input password: Passwords don't match");
}

#[test]
fn conceal_failure_reports_the_rename() {
    let paths = get_folder_paths(Some("Locker".to_string())).unwrap();
    let stage = match lock_folder(paths, METADATA_FILE.to_string(), false, true) {
        LockStart::NeedPassword(stage) => stage,
        LockStart::AlreadyLocked => panic!("folder is not locked"),
    };
    let stage = stage
        .supply_password("pw".to_string(), "pw".to_string())
        .unwrap();
    let err = stage.concealed(Err("disk full".to_string())).unwrap_err();
    assert_eq!(err.message(), "Failed to rename at Locker: disk full");
}

#[test]
fn metadata_write_failure_reports_the_write() {
    let paths = get_folder_paths(Some("Locker".to_string())).unwrap();
    let stage = match lock_folder(paths, METADATA_FILE.to_string(), false, true) {
        LockStart::NeedPassword(stage) => stage,
        LockStart::AlreadyLocked => panic!("folder is not locked"),
    };
    let stage = stage
        .supply_password("pw".to_string(), "pw".to_string())
        .unwrap();
    let stage = stage.concealed(Ok(())).unwrap();
    let err = stage.written(Err("no space".to_string())).unwrap_err();
    assert_eq!(err.message(), "Failed to write at .Locker/.locker_metadata: no space");
}

#[test]
fn metadata_remove_failure_reports_the_remove() {
    let paths = get_folder_paths(Some("Locker".to_string())).unwrap();
    let stage = folder_locker::folder_operations::UnlockRemoveStage {
        paths,
        metadata_name: METADATA_FILE.to_string(),
    };
    let err = stage.removed(Err("file busy".to_string())).unwrap_err();
    assert_eq!(err.message(), "Failed to remove at .Locker/.locker_metadata: file busy");
}

#[test]
fn rename_back_failure_reports_the_rename() {
    let paths = get_folder_paths(Some("Locker".to_string())).unwrap();
    let stage = folder_locker::folder_operations::UnlockRenameStage { paths };
    let err = stage.renamed(Err("target exists".to_string())).unwrap_err();
    assert_eq!(err.message(), "Failed to rename at .Locker: target exists");
}

#[test]
fn classify_state_covers_every_observation() {
    assert_eq!(classify_state(true, false, false), DirState::Unlocked);
    assert_eq!(classify_state(true, false, true), DirState::Unlocked);
    assert_eq!(classify_state(false, true, true), DirState::Locked);
    assert_eq!(classify_state(false, true, false), DirState::Inconsistent);
    assert_eq!(classify_state(true, true, true), DirState::Inconsistent);
    assert_eq!(classify_state(false, false, false), DirState::Inconsistent);
}
