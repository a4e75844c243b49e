//! Resolution of a commit request into an unambiguous operation: where the
//! commit goes (a new commit or an amendment), which file changes it holds, and
//! which workspace state it is reconciled against.

pub mod changes;
pub mod destination;
pub mod refname;
pub mod request;
pub mod stacks;
pub mod types;

pub use changes::{normalize_changes, select_changes, to_whole_file_diffspec, ChangeSelection, ChangeSource};
pub use destination::{get_stack_segment_info, resolve_amend_target, resolve_parent};
pub use refname::normalize_stack_segment_ref;
pub use request::{check_message, commit, CommitRequest, Executor, Workspace};
pub use stacks::{find_owning_stack, locate_stack_segment};
pub use types::{
    BranchRef, ChangeSpec, CommitError, Destination, HunkHeader, ObjectId, ReferenceFrame, StackId,
    StackInfo, StackSegmentId, TreeChange,
};
