//! The permission gate, in its command form: the exact `icacls` and
//! `attrib` invocations that apply or remove the protection profile on a
//! path.
//!
//! Callers execute the commands and treat a failure as a warning, since
//! the profile is a best-effort hardening layer, not the primary control.
//! Both operations are idempotent: the commands set an absolute state, so
//! executing them twice changes nothing further.

use vstd::prelude::*;

verus! {

/// One external command: a program and its arguments, in order.
#[derive(Debug)]
pub struct OsCommand {
    pub program: String,
    pub args: Vec<String>,
}

/// The `icacls` arguments that install the protection profile on `path`:
/// inheritance from the parent is disabled, the administrative principal
/// keeps full control over the object and its children, and the
/// general-access principal ("Everyone", SID S-1-1-0) loses its
/// permissions and is denied delete and change rights.
pub open spec fn protect_acl_args(path: Seq<char>) -> Seq<Seq<char>> {
    seq![
        path,
        "/inheritance:d"@,
        "/grant:r"@,
        "Administrators:(OI)(CI)F"@,
        "/remove"@,
        "*S-1-1-0"@,
        "/deny"@,
        "*S-1-1-0:(DE,DC)"@,
    ]
}

/// The `attrib` arguments that mark `path` hidden.
pub open spec fn hide_args(path: Seq<char>) -> Seq<Seq<char>> {
    seq!["+H"@, path]
}

/// The `icacls` arguments that reset the permissions of `path`, and of
/// everything under it, to their inherited defaults.
pub open spec fn reset_acl_args(path: Seq<char>) -> Seq<Seq<char>> {
    seq![path, "/reset"@, "/T"@]
}

/// The `attrib` arguments that clear the hidden attribute of `path`.
pub open spec fn unhide_args(path: Seq<char>) -> Seq<Seq<char>> {
    seq!["-H"@, path]
}

/// Decides the commands that apply or remove the protection profile.
pub struct PermissionManager;

impl PermissionManager {
    /// The commands that apply the protection profile to `path`: an
    /// `icacls` call installing the restrictive access-control list, then
    /// an `attrib` call hiding the path.
    pub fn set_attributes(path: &str) -> (cmds: Vec<OsCommand>)
        ensures
            cmds@.len() == 2,
            cmds@[0].program@ == "icacls"@,
            cmds@[0].args.deep_view() == protect_acl_args(path@),
            cmds@[1].program@ == "attrib"@,
            cmds@[1].args.deep_view() == hide_args(path@),
    {
        let mut acl_args: Vec<String> = Vec::new();
        acl_args.push(path.to_owned());
        acl_args.push("/inheritance:d".to_owned());
        acl_args.push("/grant:r".to_owned());
        acl_args.push("Administrators:(OI)(CI)F".to_owned());
        acl_args.push("/remove".to_owned());
        acl_args.push("*S-1-1-0".to_owned());
        acl_args.push("/deny".to_owned());
        acl_args.push("*S-1-1-0:(DE,DC)".to_owned());
        assert(acl_args.deep_view() =~= protect_acl_args(path@));

        let mut hidden: Vec<String> = Vec::new();
        hidden.push("+H".to_owned());
        hidden.push(path.to_owned());
        assert(hidden.deep_view() =~= hide_args(path@));

        let mut cmds: Vec<OsCommand> = Vec::new();
        cmds.push(OsCommand { program: "icacls".to_owned(), args: acl_args });
        cmds.push(OsCommand { program: "attrib".to_owned(), args: hidden });
        cmds
    }

    /// The commands that remove the protection profile from `name`: an
    /// `icacls` call resetting the access-control list to inherited
    /// defaults, recursively, then an `attrib` call unhiding the path.
    pub fn remove_attributes(name: &str) -> (cmds: Vec<OsCommand>)
        ensures
            cmds@.len() == 2,
            cmds@[0].program@ == "icacls"@,
            cmds@[0].args.deep_view() == reset_acl_args(name@),
            cmds@[1].program@ == "attrib"@,
            cmds@[1].args.deep_view() == unhide_args(name@),
    {
        let mut acl_args: Vec<String> = Vec::new();
        acl_args.push(name.to_owned());
        acl_args.push("/reset".to_owned());
        acl_args.push("/T".to_owned());
        assert(acl_args.deep_view() =~= reset_acl_args(name@));

        let mut unhidden: Vec<String> = Vec::new();
        unhidden.push("-H".to_owned());
        unhidden.push(name.to_owned());
        assert(unhidden.deep_view() =~= unhide_args(name@));

        let mut cmds: Vec<OsCommand> = Vec::new();
        cmds.push(OsCommand { program: "icacls".to_owned(), args: acl_args });
        cmds.push(OsCommand { program: "attrib".to_owned(), args: unhidden });
        cmds
    }
}

} // verus!
