//! Attribute and access-control changes on files and folders, decided as
//! plain values: which attribute mask to set, which access-control rule to
//! install, remove or grant. The caller performs them through the host's
//! native interface and reports back.

use vstd::prelude::*;

verus! {

/// The read-only attribute bit of a file or folder.
pub const FILE_ATTRIBUTE_READONLY: u32 = 0x1;

/// The hidden attribute bit of a file or folder.
pub const FILE_ATTRIBUTE_HIDDEN: u32 = 0x2;

/// The system attribute bit of a file or folder.
pub const FILE_ATTRIBUTE_SYSTEM: u32 = 0x4;

/// The access right to delete an object.
pub const DELETE_RIGHT: u32 = 0x10000;

/// An absolute attribute mask to set on a path: the path's attributes
/// become exactly `attributes`.
#[derive(Debug)]
pub struct AttributeChange {
    pub path: String,
    pub attributes: u32,
}

/// What to do with an access-control rule.
#[derive(Clone, Copy, Debug, PartialEq, Eq, Structural)]
pub enum AclChangeKind {
    /// Install a rule denying `rights` to the principal.
    InstallDeny,
    /// Remove the rule denying `rights` to the principal.
    RemoveDeny,
    /// Install a rule granting `rights` to the principal.
    Grant,
}

/// One access-control change on a path: install, remove or grant `rights`
/// for `principal` (a security identifier).
#[derive(Debug)]
pub struct AclChange {
    pub path: String,
    pub principal: String,
    pub rights: u32,
    pub kind: AclChangeKind,
}

/// One step of the deletion-permission restoration sequence.
#[derive(Debug)]
pub enum DeletionStep {
    /// Set the path's attribute mask.
    SetAttributes(AttributeChange),
    /// Change the path's access-control list.
    ChangeAcl(AclChange),
    /// Rename the path onto itself to release any handles held on it.
    ReleaseLocks { path: String },
}

/// Whether the observed attribute mask carries the read-only bit, which
/// must be cleared before deletion permissions can be restored. `None`
/// means the attributes could not be read, in which case nothing is
/// cleared.
pub open spec fn needs_readonly_clear(attributes: Option<u32>) -> bool {
    match attributes {
        Some(a) => a & FILE_ATTRIBUTE_READONLY != 0,
        None => false,
    }
}

/// The observed attribute mask with the read-only bit cleared.
pub open spec fn cleared_mask(attributes: Option<u32>) -> u32 {
    match attributes {
        Some(a) => a & !FILE_ATTRIBUTE_READONLY,
        None => 0,
    }
}

/// Decides attribute and access-control changes on files and folders.
pub struct FileManager;

impl FileManager {
    /// The attribute change that conceals a file: hidden and system bits
    /// set. Applied to the metadata file after it is written, best-effort.
    pub fn set_file_attributes(path: &str) -> (r: AttributeChange)
        ensures
            r.path@ == path@,
            r.attributes == FILE_ATTRIBUTE_HIDDEN | FILE_ATTRIBUTE_SYSTEM,
    {
        AttributeChange {
            path: path.to_owned(),
            attributes: FILE_ATTRIBUTE_HIDDEN | FILE_ATTRIBUTE_SYSTEM,
        }
    }

    /// The attribute change that conceals and freezes a folder: hidden,
    /// system and read-only bits set.
    pub fn set_folder_attributes(name: &str) -> (r: AttributeChange)
        ensures
            r.path@ == name@,
            r.attributes == FILE_ATTRIBUTE_HIDDEN | FILE_ATTRIBUTE_SYSTEM
                | FILE_ATTRIBUTE_READONLY,
    {
        AttributeChange {
            path: name.to_owned(),
            attributes: FILE_ATTRIBUTE_HIDDEN | FILE_ATTRIBUTE_SYSTEM | FILE_ATTRIBUTE_READONLY,
        }
    }

    /// The attribute change that restores a folder to plain visibility:
    /// every attribute bit cleared.
    pub fn remove_folder_attributes(name: &str) -> (r: AttributeChange)
        ensures
            r.path@ == name@,
            r.attributes == 0,
    {
        AttributeChange { path: name.to_owned(), attributes: 0 }
    }

    /// The access-control change that prevents deletion of the folder: a
    /// rule denying the delete right to the general-access principal.
    pub fn prevent_folder_deletion(folder_path: &str) -> (r: AclChange)
        ensures
            r.path@ == folder_path@,
            r.principal@ == "S-1-1-0"@,
            r.rights == DELETE_RIGHT,
            r.kind == AclChangeKind::InstallDeny,
    {
        Self::modify_folder_deletion_permissions(folder_path, true)
    }

    /// The steps that make the folder deletable again. Nothing is done
    /// unless the caller verified a password first. Otherwise: clear the
    /// read-only bit if the observed attributes carry it, remove the
    /// deny-delete rule, clear all attribute bits, grant the delete right
    /// to the general-access principal, and release any handles held on
    /// the folder.
    pub fn allow_folder_deletion(
        folder_path: &str,
        password_verified: bool,
        attributes: Option<u32>,
    ) -> (steps: Vec<DeletionStep>)
        ensures
            !password_verified ==> steps@.len() == 0,
            password_verified && needs_readonly_clear(attributes) ==> steps@.len() == 5 && (
            steps@[0] matches DeletionStep::SetAttributes(c) && c.path@ == folder_path@
                && c.attributes == cleared_mask(attributes)),
            password_verified && !needs_readonly_clear(attributes) ==> steps@.len() == 4,
            password_verified ==> ({
                let n = steps@.len();
                &&& (steps@[n - 4] matches DeletionStep::ChangeAcl(c) && c.path@ == folder_path@
                    && c.principal@ == "S-1-1-0"@ && c.rights == DELETE_RIGHT && c.kind
                    == AclChangeKind::RemoveDeny)
                &&& (steps@[n - 3] matches DeletionStep::SetAttributes(c) && c.path@
                    == folder_path@ && c.attributes == 0)
                &&& (steps@[n - 2] matches DeletionStep::ChangeAcl(c) && c.path@ == folder_path@
                    && c.principal@ == "S-1-1-0"@ && c.rights == DELETE_RIGHT && c.kind
                    == AclChangeKind::Grant)
                &&& (steps@[n - 1] matches DeletionStep::ReleaseLocks { path } && path@
                    == folder_path@)
            }),
    {
        let mut steps: Vec<DeletionStep> = Vec::new();
        if !password_verified {
            return steps;
        }
        match attributes {
            Some(a) => {
                if a & FILE_ATTRIBUTE_READONLY != 0 {
                    steps.push(
                        DeletionStep::SetAttributes(
                            AttributeChange {
                                path: folder_path.to_owned(),
                                attributes: a & !FILE_ATTRIBUTE_READONLY,
                            },
                        ),
                    );
                }
            },
            None => {},
        }
        steps.push(
            DeletionStep::ChangeAcl(Self::modify_folder_deletion_permissions(folder_path, false)),
        );
        steps.push(DeletionStep::SetAttributes(Self::remove_folder_attributes(folder_path)));
        steps.push(DeletionStep::ChangeAcl(Self::grant_delete_permission_to_everyone(folder_path)));
        steps.push(DeletionStep::ReleaseLocks { path: folder_path.to_owned() });
        steps
    }

    /// The access-control change that installs (`deny`) or removes the
    /// rule denying the delete right to the general-access principal.
    fn modify_folder_deletion_permissions(folder_path: &str, deny: bool) -> (r: AclChange)
        ensures
            r.path@ == folder_path@,
            r.principal@ == "S-1-1-0"@,
            r.rights == DELETE_RIGHT,
            deny ==> r.kind == AclChangeKind::InstallDeny,
            !deny ==> r.kind == AclChangeKind::RemoveDeny,
    {
        AclChange {
            path: folder_path.to_owned(),
            principal: "S-1-1-0".to_owned(),
            rights: DELETE_RIGHT,
            kind: if deny {
                AclChangeKind::InstallDeny
            } else {
                AclChangeKind::RemoveDeny
            },
        }
    }

    /// The access-control change that grants the delete right to the
    /// general-access principal.
    fn grant_delete_permission_to_everyone(folder_path: &str) -> (r: AclChange)
        ensures
            r.path@ == folder_path@,
            r.principal@ == "S-1-1-0"@,
            r.rights == DELETE_RIGHT,
            r.kind == AclChangeKind::Grant,
    {
        AclChange {
            path: folder_path.to_owned(),
            principal: "S-1-1-0".to_owned(),
            rights: DELETE_RIGHT,
            kind: AclChangeKind::Grant,
        }
    }
}

} // verus!
