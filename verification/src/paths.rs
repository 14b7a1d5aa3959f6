//! Derivation of the concealed form of a folder name.
//!
//! While locked, a folder lives under a concealed name: its visible name
//! with a marker character prefixed. The derivation is a pure function of
//! the visible name, so the concealed location is always recoverable.

use vstd::prelude::*;
use crate::error::LockerError;

verus! {

/// The concealed form of a visible folder name: a `.` prefixed to it.
pub open spec fn concealed_of(visible: Seq<char>) -> Seq<char> {
    seq!['.'] + visible
}

/// The visible and concealed names of one folder.
///
/// Values are only built by [`get_folder_paths`], so the concealed name is
/// always the derived form of the visible one (see [`FolderPaths::wf`]).
#[derive(Debug)]
pub struct FolderPaths {
    visible: String,
    concealed: String,
}

impl FolderPaths {
    /// The visible name, as a sequence of characters.
    pub closed spec fn visible_view(&self) -> Seq<char> {
        self.visible@
    }

    /// The concealed name, as a sequence of characters.
    pub closed spec fn concealed_view(&self) -> Seq<char> {
        self.concealed@
    }

    /// The concealed name is the derived form of the visible one.
    pub open spec fn wf(&self) -> bool {
        self.concealed_view() == concealed_of(self.visible_view())
    }

    /// The visible name of the folder.
    pub fn visible_name(&self) -> (r: &str)
        ensures
            r@ == self.visible_view(),
    {
        self.visible.as_str()
    }

    /// The concealed name of the folder.
    pub fn concealed_name(&self) -> (r: &str)
        ensures
            r@ == self.concealed_view(),
    {
        self.concealed.as_str()
    }
}

/// A concealed name is never the visible name it was derived from:
/// it is one character longer.
pub proof fn lemma_concealed_name_differs(visible: Seq<char>)
    ensures
        concealed_of(visible) != visible,
{
    assert(concealed_of(visible).len() == visible.len() + 1);
}

/// Resolves the visible and concealed names of the folder to operate on.
///
/// `file_name` is the final component of the requested path, or `None`
/// when the path has no such component, which is rejected.
pub fn get_folder_paths(file_name: Option<String>) -> (r: Result<FolderPaths, LockerError>)
    ensures
        file_name matches Some(name) ==> (r matches Ok(p) && p.wf() && p.visible_view()
            == name@),
        file_name is None ==> (r matches Err(e) && e is InvalidFolderName),
{
    match file_name {
        None => Err(LockerError::InvalidFolderName),
        Some(name) => {
            let concealed = String::from_str(".").concat(name.as_str());
            proof {
                reveal_strlit(".");
                assert("."@ =~= seq!['.']);
            }
            Ok(FolderPaths { visible: name, concealed })
        },
    }
}

} // verus!
