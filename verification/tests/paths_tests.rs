use folder_locker::error::LockerError;
use folder_locker::paths::get_folder_paths;

#[test]
fn concealed_name_is_dot_prefixed() {
    let paths = get_folder_paths(Some("Locker".to_string())).unwrap();
    assert_eq!(paths.visible_name(), "Locker");
    assert_eq!(paths.concealed_name(), ".Locker");
}

#[test]
fn already_dotted_name_gets_another_marker() {
    let paths = get_folder_paths(Some(".secrets".to_string())).unwrap();
    assert_eq!(paths.concealed_name(), "..secrets");
}

#[test]
fn missing_file_name_is_rejected() {
    let err = get_folder_paths(None).unwrap_err();
    assert!(matches!(err, LockerError::InvalidFolderName));
    assert_eq!(
        err.message(),
        "Invalid folder name: Unable to process the given folder"
    );
}

#[test]
fn naming_is_deterministic() {
    let a = get_folder_paths(Some("Vault".to_string())).unwrap();
    let b = get_folder_paths(Some("Vault".to_string())).unwrap();
    assert_eq!(a.concealed_name(), b.concealed_name());
    assert_ne!(a.concealed_name(), a.visible_name());
}
