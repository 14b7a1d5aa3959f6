//! A mathematical model of the directory under protection, and of the
//! effects the orchestrator asks for.
//!
//! The library never touches the filesystem itself: it emits [`FsAction`]
//! values and the binary around it performs them and reports back. The
//! ghost types here say what a faithful environment does with each action,
//! so that properties of whole lock and unlock runs can be stated and
//! proved over them.

use vstd::prelude::*;

verus! {

/// The rest state of a protected directory.
#[derive(Clone, Copy, Debug, PartialEq, Eq, Structural)]
pub enum DirState {
    /// Only the visible path exists.
    Unlocked,
    /// Only the concealed path exists and it holds the metadata file.
    Locked,
    /// Neither or both paths exist, or the concealed path exists without
    /// metadata: the sign of a crashed or partial operation.
    Inconsistent,
}

/// The state that the given existence facts amount to.
pub open spec fn state_from(
    visible_exists: bool,
    concealed_exists: bool,
    has_metadata: bool,
) -> DirState {
    if visible_exists && !concealed_exists {
        DirState::Unlocked
    } else if !visible_exists && concealed_exists && has_metadata {
        DirState::Locked
    } else {
        DirState::Inconsistent
    }
}

/// Classifies the directory from what the caller observed on disk:
/// whether the visible path exists, whether the concealed path exists,
/// and whether the concealed path holds the metadata file.
pub fn classify_state(visible_exists: bool, concealed_exists: bool, has_metadata: bool) -> (r:
    DirState)
    ensures
        r == state_from(visible_exists, concealed_exists, has_metadata),
{
    if visible_exists && !concealed_exists {
        DirState::Unlocked
    } else if !visible_exists && concealed_exists && has_metadata {
        DirState::Locked
    } else {
        DirState::Inconsistent
    }
}

/// The names one protected directory goes by: its visible name, its
/// concealed name, and the name of the metadata file inside it.
pub ghost struct DirNames {
    pub visible: Seq<char>,
    pub concealed: Seq<char>,
    pub metadata: Seq<char>,
}

/// The model of the directory: which of its two paths exists, the contents
/// of the metadata file if present, whether the permission profile is
/// applied, and its user files, abstracted as a byte sequence.
pub ghost struct FsModel {
    pub visible_exists: bool,
    pub concealed_exists: bool,
    pub metadata: Option<Seq<char>>,
    pub profile_applied: bool,
    pub contents: Seq<u8>,
}

impl FsModel {
    /// The rest state this model is in.
    pub open spec fn state(&self) -> DirState {
        state_from(self.visible_exists, self.concealed_exists, self.metadata is Some)
    }
}

/// One effect the orchestrator asks the environment to perform.
#[derive(Debug)]
pub enum FsAction {
    /// Rename the directory `from` to `to`, in place.
    Rename { from: String, to: String },
    /// Create the directory `path`, empty.
    Create { path: String },
    /// Create or overwrite the file `name` inside `dir` with `contents`.
    WriteFile { dir: String, name: String, contents: String },
    /// Read the file `name` inside `dir`; changes nothing.
    ReadFile { dir: String, name: String },
    /// Remove the file `name` inside `dir`.
    RemoveFile { dir: String, name: String },
    /// Apply the permission profile to `path`.
    ApplyProfile { path: String },
    /// Reset the permissions of `path` to inherited defaults.
    RelaxProfile { path: String },
}

/// The ghost counterpart of [`FsAction`], over character sequences.
pub ghost enum FsActionModel {
    Rename { from: Seq<char>, to: Seq<char> },
    Create { path: Seq<char> },
    WriteFile { dir: Seq<char>, name: Seq<char>, contents: Seq<char> },
    ReadFile { dir: Seq<char>, name: Seq<char> },
    RemoveFile { dir: Seq<char>, name: Seq<char> },
    ApplyProfile { path: Seq<char> },
    RelaxProfile { path: Seq<char> },
}

impl View for FsAction {
    type V = FsActionModel;

    open spec fn view(&self) -> FsActionModel {
        match self {
            FsAction::Rename { from, to } => FsActionModel::Rename { from: from@, to: to@ },
            FsAction::Create { path } => FsActionModel::Create { path: path@ },
            FsAction::WriteFile { dir, name, contents } => FsActionModel::WriteFile {
                dir: dir@,
                name: name@,
                contents: contents@,
            },
            FsAction::ReadFile { dir, name } => FsActionModel::ReadFile { dir: dir@, name: name@ },
            FsAction::RemoveFile { dir, name } => FsActionModel::RemoveFile {
                dir: dir@,
                name: name@,
            },
            FsAction::ApplyProfile { path } => FsActionModel::ApplyProfile { path: path@ },
            FsAction::RelaxProfile { path } => FsActionModel::RelaxProfile { path: path@ },
        }
    }
}

/// What a faithful environment does to the directory when it performs one
/// action successfully. An action aimed at a path the model does not know,
/// or impossible in the current state (renaming onto an existing path,
/// creating an existing directory), changes nothing.
pub open spec fn apply_action(names: DirNames, fs: FsModel, a: FsActionModel) -> FsModel {
    match a {
        FsActionModel::Rename { from, to } => {
            if from == names.visible && to == names.concealed && fs.visible_exists
                && !fs.concealed_exists {
                FsModel { visible_exists: false, concealed_exists: true, ..fs }
            } else if from == names.concealed && to == names.visible && fs.concealed_exists
                && !fs.visible_exists {
                FsModel { visible_exists: true, concealed_exists: false, ..fs }
            } else {
                fs
            }
        },
        FsActionModel::Create { path } => {
            if path == names.concealed && !fs.concealed_exists {
                FsModel { concealed_exists: true, metadata: None, contents: Seq::empty(), ..fs }
            } else {
                fs
            }
        },
        FsActionModel::WriteFile { dir, name, contents } => {
            if dir == names.concealed && name == names.metadata && fs.concealed_exists {
                FsModel { metadata: Some(contents), ..fs }
            } else {
                fs
            }
        },
        FsActionModel::ReadFile { .. } => fs,
        FsActionModel::RemoveFile { dir, name } => {
            if dir == names.concealed && name == names.metadata && fs.concealed_exists {
                FsModel { metadata: None, ..fs }
            } else {
                fs
            }
        },
        FsActionModel::ApplyProfile { path } => {
            if path == names.concealed {
                FsModel { profile_applied: true, ..fs }
            } else {
                fs
            }
        },
        FsActionModel::RelaxProfile { path } => {
            if path == names.concealed {
                FsModel { profile_applied: false, ..fs }
            } else {
                fs
            }
        },
    }
}

/// [`apply_action`], folded over a sequence of actions performed in order.
pub open spec fn apply_actions(names: DirNames, fs: FsModel, actions: Seq<FsActionModel>) -> FsModel
    decreases actions.len(),
{
    if actions.len() == 0 {
        fs
    } else {
        apply_actions(names, apply_action(names, fs, actions.first()), actions.drop_first())
    }
}

} // verus!
