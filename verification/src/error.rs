//! Errors reported by folder locking and unlocking operations.

use vstd::prelude::*;

verus! {

/// Everything that can go wrong while locking or unlocking a folder.
///
/// `FileOperationFailed` and `PasswordOperationFailed` carry the attempted
/// operation and the underlying cause as plain strings; `IoError` and
/// `BcryptError` carry the message of an error raised outside the core
/// steps (they are kept for callers that wrap the library).
#[derive(Debug)]
pub enum LockerError {
    /// The folder path has no usable final component.
    InvalidFolderName,
    /// The supplied password does not match the stored digest.
    InvalidPassword,
    /// An unlock was requested for a folder that is not locked.
    FolderNotLocked,
    /// A create, rename, write, read or remove on the filesystem failed.
    FileOperationFailed { operation: String, path: String, error: String },
    /// Obtaining, hashing or verifying a password failed.
    PasswordOperationFailed { operation: String, reason: String },
    /// An input/output error outside the core steps.
    IoError(String),
    /// A failure of the password-hashing algorithm outside the core steps.
    BcryptError(String),
}

/// The human-readable description of an error.
pub open spec fn message_view(e: LockerError) -> Seq<char> {
    match e {
        LockerError::InvalidFolderName => "Invalid folder name: Unable to process the given folder"@,
        LockerError::InvalidPassword => "Invalid password: Authentication failed"@,
        LockerError::FolderNotLocked => "Folder is not locked"@,
        LockerError::FileOperationFailed { operation, path, error } => "Failed to "@ + operation@
            + " at "@ + path@ + ": "@ + error@,
        LockerError::PasswordOperationFailed { operation, reason } => "Failed to "@ + operation@
            + " password: "@ + reason@,
        LockerError::IoError(m) => "I/O error: "@ + m@,
        LockerError::BcryptError(m) => "Bcrypt error: "@ + m@,
    }
}

impl LockerError {
    /// Renders the error as the message a user is shown.
    pub fn message(&self) -> (r: String)
        ensures
            r@ == message_view(*self),
    {
        match self {
            LockerError::InvalidFolderName => String::from_str(
                "Invalid folder name: Unable to process the given folder",
            ),
            LockerError::InvalidPassword => String::from_str(
                "Invalid password: Authentication failed",
            ),
            LockerError::FolderNotLocked => String::from_str("Folder is not locked"),
            LockerError::FileOperationFailed { operation, path, error } => String::from_str(
                "Failed to ",
            ).concat(operation.as_str()).concat(" at ").concat(path.as_str()).concat(": ").concat(
                error.as_str(),
            ),
            LockerError::PasswordOperationFailed { operation, reason } => String::from_str(
                "Failed to ",
            ).concat(operation.as_str()).concat(" password: ").concat(reason.as_str()),
            LockerError::IoError(m) => String::from_str("I/O error: ").concat(m.as_str()),
            LockerError::BcryptError(m) => String::from_str("Bcrypt error: ").concat(m.as_str()),
        }
    }
}

} // verus!
