use folder_locker::error::LockerError;
use folder_locker::file_manager::{
    AclChangeKind, DeletionStep, FileManager, DELETE_RIGHT, FILE_ATTRIBUTE_HIDDEN,
    FILE_ATTRIBUTE_READONLY, FILE_ATTRIBUTE_SYSTEM,
};
use folder_locker::permission_manager::PermissionManager;

#[test]
fn set_attributes_builds_the_protection_commands() {
    let cmds = PermissionManager::set_attributes(".Locker");
    assert_eq!(cmds.len(), 2);
    assert_eq!(cmds[0].program, "icacls");
    assert_eq!(
        cmds[0].args,
        vec![
            ".Locker",
            "/inheritance:d",
            "/grant:r",
            "Administrators:(OI)(CI)F",
            "/remove",
            "*S-1-1-0",
            "/deny",
            "*S-1-1-0:(DE,DC)",
        ]
    );
    assert_eq!(cmds[1].program, "attrib");
    assert_eq!(cmds[1].args, vec!["+H", ".Locker"]);
}

#[test]
fn remove_attributes_builds_the_reset_commands() {
    let cmds = PermissionManager::remove_attributes(".Locker");
    assert_eq!(cmds.len(), 2);
    assert_eq!(cmds[0].program, "icacls");
    assert_eq!(cmds[0].args, vec![".Locker", "/reset", "/T"]);
    assert_eq!(cmds[1].program, "attrib");
    assert_eq!(cmds[1].args, vec!["-H", ".Locker"]);
}

#[test]
fn attribute_masks_match_their_purpose() {
    let file = FileManager::set_file_attributes(".Locker/.locker_metadata");
    assert_eq!(file.path, ".Locker/.locker_metadata");
    assert_eq!(file.attributes, FILE_ATTRIBUTE_HIDDEN | FILE_ATTRIBUTE_SYSTEM);

    let folder = FileManager::set_folder_attributes(".Locker");
    assert_eq!(
        folder.attributes,
        FILE_ATTRIBUTE_HIDDEN | FILE_ATTRIBUTE_SYSTEM | FILE_ATTRIBUTE_READONLY
    );

    let cleared = FileManager::remove_folder_attributes(".Locker");
    assert_eq!(cleared.attributes, 0);
}

#[test]
fn prevent_folder_deletion_denies_delete_to_everyone() {
    let rule = FileManager::prevent_folder_deletion(".Locker");
    assert_eq!(rule.path, ".Locker");
    assert_eq!(rule.principal, "S-1-1-0");
    assert_eq!(rule.rights, DELETE_RIGHT);
    assert_eq!(rule.kind, AclChangeKind::InstallDeny);
}

#[test]
fn allow_folder_deletion_needs_a_verified_password() {
    let steps = FileManager::allow_folder_deletion(".Locker", false, Some(0x21));
    assert!(steps.is_empty());
}

#[test]
fn allow_folder_deletion_clears_readonly_first_when_set() {
    let steps = FileManager::allow_folder_deletion(".Locker", true, Some(0x21));
    assert_eq!(steps.len(), 5);
    match &steps[0] {
        DeletionStep::SetAttributes(change) => {
            assert_eq!(change.path, ".Locker");
            assert_eq!(change.attributes, 0x20);
        }
        other => panic!("unexpected first step: {:?}", other),
    }
    match &steps[1] {
        DeletionStep::ChangeAcl(change) => {
            assert_eq!(change.kind, AclChangeKind::RemoveDeny);
            assert_eq!(change.rights, DELETE_RIGHT);
        }
        other => panic!("unexpected second step: {:?}", other),
    }
    match &steps[2] {
        DeletionStep::SetAttributes(change) => assert_eq!(change.attributes, 0),
        other => panic!("unexpected third step: {:?}", other),
    }
    match &steps[3] {
        DeletionStep::ChangeAcl(change) => {
            assert_eq!(change.kind, AclChangeKind::Grant);
            assert_eq!(change.principal, "S-1-1-0");
        }
        other => panic!("unexpected fourth step: {:?}", other),
    }
    match &steps[4] {
        DeletionStep::ReleaseLocks { path } => assert_eq!(path, ".Locker"),
        other => panic!("unexpected fifth step: {:?}", other),
    }
}

#[test]
fn allow_folder_deletion_skips_the_clear_without_readonly() {
    let steps = FileManager::allow_folder_deletion(".Locker", true, Some(0x20));
    assert_eq!(steps.len(), 4);
    assert!(matches!(&steps[0], DeletionStep::ChangeAcl(_)));

    let steps = FileManager::allow_folder_deletion(".Locker", true, None);
    assert_eq!(steps.len(), 4);
}

#[test]
fn wrapped_error_messages_name_their_source() {
    let io = LockerError::IoError("broken pipe".to_string());
    assert_eq!(io.message(), "I/O error: broken pipe");

    let bc = LockerError::BcryptError("cost out of range".to_string());
    assert_eq!(bc.message(), "Bcrypt error: cost out of range");
}
