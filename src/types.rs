use vstd::prelude::*;

verus! {

/// The id of an object in the repository's object database.
#[derive(Clone, Copy, Debug, PartialEq, Eq)]
pub struct ObjectId(pub [u8; 20]);

/// The identifier of a stack registered in a workspace.
#[derive(Clone, Copy, Debug, PartialEq, Eq, Structural)]
pub struct StackId(pub u128);

/// Why a commit request could not be resolved.
#[derive(Clone, Copy, Debug, PartialEq, Eq, Structural)]
pub enum CommitError {
    /// A new commit was requested without a message.
    MissingCommitMessage,
    /// A message was given while amending, where it would be ignored.
    UnexpectedMessageOnAmend,
    /// A revision (a revision spec or `HEAD`) could not be resolved to an object.
    RevisionResolutionFailed,
    /// A branch name does not make a valid fully-qualified reference name.
    InvalidReferenceName,
}

/// The view of an optional string.
pub open spec fn opt_view(s: Option<String>) -> Option<Seq<char>> {
    match s {
        Some(s) => Some(s@),
        None => None,
    }
}

/// A contiguous block of changed lines: where it starts and how many lines it
/// spans, before and after the change.
#[derive(Clone, Copy, Debug, PartialEq, Eq, Structural)]
pub struct HunkHeader {
    pub old_start: u32,
    pub old_lines: u32,
    pub new_start: u32,
    pub new_lines: u32,
}

/// The change of one file to commit: all of it where `hunk_headers` is empty,
/// only the listed hunks otherwise. `previous_path` is set for a rename or copy.
#[derive(Clone, Debug, PartialEq, Eq)]
pub struct ChangeSpec {
    pub previous_path: Option<String>,
    pub path: String,
    pub hunk_headers: Vec<HunkHeader>,
}

pub struct ChangeSpecView {
    pub previous_path: Option<Seq<char>>,
    pub path: Seq<char>,
    pub hunk_headers: Seq<HunkHeader>,
}

impl View for ChangeSpec {
    type V = ChangeSpecView;

    open spec fn view(&self) -> ChangeSpecView {
        ChangeSpecView {
            previous_path: opt_view(self.previous_path),
            path: self.path@,
            hunk_headers: self.hunk_headers@,
        }
    }
}

/// The views of a list of change specs.
pub open spec fn specs_view(specs: Seq<ChangeSpec>) -> Seq<ChangeSpecView> {
    specs.map_values(|c: ChangeSpec| c@)
}

/// A changed file between the working tree and its comparison base.
#[derive(Clone, Debug, PartialEq, Eq)]
pub struct TreeChange {
    pub path: String,
    pub previous_path: Option<String>,
}

/// A stack of the workspace registry, with the names of its segment heads.
#[derive(Clone, Debug, PartialEq, Eq)]
pub struct StackInfo {
    pub id: StackId,
    pub heads: Vec<String>,
}

/// A branch tip tracked as a segment of a workspace stack.
#[derive(Clone, Debug, PartialEq, Eq)]
pub struct StackSegmentId {
    pub segment_ref: String,
    pub stack_id: StackId,
}

pub struct StackSegmentView {
    pub segment_ref: Seq<char>,
    pub stack_id: StackId,
}

impl View for StackSegmentId {
    type V = StackSegmentView;

    open spec fn view(&self) -> StackSegmentView {
        StackSegmentView { segment_ref: self.segment_ref@, stack_id: self.stack_id }
    }
}

/// The view of an optional stack segment.
pub open spec fn opt_segment_view(s: Option<StackSegmentId>) -> Option<StackSegmentView> {
    match s {
        Some(s) => Some(s@),
        None => None,
    }
}

/// A branch named by the caller, with the commit that its reference peels to
/// (`None` where the repository has no such reference).
#[derive(Clone, Debug, PartialEq, Eq)]
pub struct BranchRef {
    pub name: String,
    pub commit: Option<ObjectId>,
}

/// Where the commit goes.
#[derive(Clone, Debug, PartialEq, Eq)]
pub enum Destination {
    /// A new commit on top of `parent_commit_id` (left to the engine where `None`).
    NewCommit {
        parent_commit_id: Option<ObjectId>,
        message: String,
        stack_segment: Option<StackSegmentId>,
    },
    /// The given commit is amended in place.
    AmendCommit(ObjectId),
}

pub enum DestinationView {
    NewCommit {
        parent_commit_id: Option<ObjectId>,
        message: Seq<char>,
        stack_segment: Option<StackSegmentView>,
    },
    AmendCommit(ObjectId),
}

impl View for Destination {
    type V = DestinationView;

    open spec fn view(&self) -> DestinationView {
        match self {
            Destination::NewCommit { parent_commit_id, message, stack_segment } => {
                DestinationView::NewCommit {
                    parent_commit_id: *parent_commit_id,
                    message: message@,
                    stack_segment: opt_segment_view(*stack_segment),
                }
            },
            Destination::AmendCommit(id) => DestinationView::AmendCommit(*id),
        }
    }
}

/// The commits that a result is reconciled against where no persisted
/// workspace state is at hand.
#[derive(Clone, Copy, Debug, PartialEq, Eq)]
pub struct ReferenceFrame {
    pub workspace_tip: Option<ObjectId>,
    pub branch_tip: Option<ObjectId>,
}

} // verus!
