use vstd::prelude::*;

use crate::changes::{ChangeSource, normalize_changes, normalized_changes};
use crate::destination::{
    amend_target, branch_commit, chosen_parent, get_stack_segment_info, resolve_amend_target,
    resolve_parent, segment_info,
};
use crate::types::{
    BranchRef, ChangeSpec, ChangeSpecView, CommitError, Destination, DestinationView, ObjectId,
    ReferenceFrame, StackInfo, specs_view,
};

verus! {

/// The workspace context in which a request is resolved.
#[derive(Clone, Debug, PartialEq, Eq)]
pub enum Workspace {
    /// A project, with the stacks of its persisted workspace registry.
    Project(Vec<StackInfo>),
    /// No project: only repository lookups, and the workspace tip the caller
    /// named, if any.
    Detached { workspace_tip: Option<ObjectId> },
}

/// How the commit engine is to run the request.
#[derive(Clone, Copy, Debug, PartialEq, Eq)]
pub enum Executor {
    /// Against the project's persisted workspace state.
    Project,
    /// Against the given reference frame, with a transient workspace state.
    Frame(ReferenceFrame),
}

/// A fully resolved commit request, ready for the commit engine.
#[derive(Clone, Debug, PartialEq, Eq)]
pub struct CommitRequest {
    pub destination: Destination,
    pub changes: Vec<ChangeSpec>,
    pub executor: Executor,
}

pub struct CommitRequestView {
    pub destination: DestinationView,
    pub changes: Seq<ChangeSpecView>,
    pub executor: Executor,
}

impl View for CommitRequest {
    type V = CommitRequestView;

    open spec fn view(&self) -> CommitRequestView {
        CommitRequestView {
            destination: self.destination@,
            changes: specs_view(self.changes@),
            executor: self.executor,
        }
    }
}

/// The view of an optional message.
pub open spec fn message_view(message: Option<&str>) -> Option<Seq<char>> {
    match message {
        Some(m) => Some(m@),
        None => None,
    }
}

/// What is wrong with the message of a request, if anything: a new commit
/// needs a non-empty message, and an amendment takes none.
pub open spec fn message_error(message: Option<Seq<char>>, amend: bool) -> Option<CommitError> {
    if amend {
        if message is Some {
            Some(CommitError::UnexpectedMessageOnAmend)
        } else {
            None
        }
    } else {
        match message {
            Some(m) => if m.len() == 0 {
                Some(CommitError::MissingCommitMessage)
            } else {
                None
            },
            None => Some(CommitError::MissingCommitMessage),
        }
    }
}

/// Where a request with a valid message commits to.
pub open spec fn resolved_destination(
    message: Option<Seq<char>>,
    amend: bool,
    parent_id: Option<ObjectId>,
    branch: Option<BranchRef>,
    head_id: Option<ObjectId>,
    workspace: Workspace,
) -> Result<DestinationView, CommitError> {
    if amend {
        match amend_target(parent_id, branch, head_id) {
            Some(id) => Ok(DestinationView::AmendCommit(id)),
            None => Err(CommitError::RevisionResolutionFailed),
        }
    } else {
        match workspace {
            Workspace::Project(stacks) => match segment_info(branch, parent_id, stacks@) {
                Ok((segment, parent)) => Ok(
                    DestinationView::NewCommit {
                        parent_commit_id: parent,
                        message: message->0,
                        stack_segment: segment,
                    },
                ),
                Err(e) => Err(e),
            },
            Workspace::Detached { .. } => Ok(
                DestinationView::NewCommit {
                    parent_commit_id: chosen_parent(parent_id, branch),
                    message: message->0,
                    stack_segment: None,
                },
            ),
        }
    }
}

/// How the engine runs a request: on the project where there is one, else on
/// a frame of the given workspace tip and the branch's commit, or `HEAD`.
pub open spec fn resolved_executor(
    branch: Option<BranchRef>,
    head_id: Option<ObjectId>,
    workspace: Workspace,
) -> Executor {
    match workspace {
        Workspace::Project(_) => Executor::Project,
        Workspace::Detached { workspace_tip } => Executor::Frame(
            ReferenceFrame {
                workspace_tip,
                branch_tip: match branch_commit(branch) {
                    Some(id) => Some(id),
                    None => head_id,
                },
            },
        ),
    }
}

/// What a commit request resolves to.
pub open spec fn resolved_request(
    message: Option<Seq<char>>,
    amend: bool,
    parent_id: Option<ObjectId>,
    branch: Option<BranchRef>,
    head_id: Option<ObjectId>,
    workspace: Workspace,
    changes: ChangeSource,
) -> Result<CommitRequestView, CommitError> {
    match message_error(message, amend) {
        Some(e) => Err(e),
        None => match resolved_destination(message, amend, parent_id, branch, head_id, workspace) {
            Ok(destination) => Ok(
                CommitRequestView {
                    destination,
                    changes: normalized_changes(changes),
                    executor: resolved_executor(branch, head_id, workspace),
                },
            ),
            Err(e) => Err(e),
        },
    }
}

/// A new commit without a message is refused, and so is an amendment with
/// one, whatever else the request holds.
pub proof fn lemma_message_preconditions(
    message: Seq<char>,
    parent_id: Option<ObjectId>,
    branch: Option<BranchRef>,
    head_id: Option<ObjectId>,
    workspace: Workspace,
    changes: ChangeSource,
)
    ensures
        resolved_request(None, false, parent_id, branch, head_id, workspace, changes) == Err::<
            CommitRequestView,
            _,
        >(CommitError::MissingCommitMessage),
        resolved_request(Some(message), true, parent_id, branch, head_id, workspace, changes)
            == Err::<CommitRequestView, _>(CommitError::UnexpectedMessageOnAmend),
{
}

/// Checks the message of a request: a new commit needs a non-empty message,
/// and an amendment takes none.
pub fn check_message(message: Option<&str>, amend: bool) -> (r: Result<(), CommitError>)
    ensures
        match r {
            Ok(()) => message_error(message_view(message), amend) is None,
            Err(e) => message_error(message_view(message), amend) == Some(e),
        },
{
    if amend {
        if message.is_some() {
            return Err(CommitError::UnexpectedMessageOnAmend);
        }
    } else {
        match message {
            Some(m) => {
                if m.is_empty() {
                    return Err(CommitError::MissingCommitMessage);
                }
            },
            None => return Err(CommitError::MissingCommitMessage),
        }
    }
    Ok(())
}

/// Resolves a commit request: checks its message, picks its destination (the
/// commit to amend, or the parent and stack segment of a new commit), turns
/// its change source into change specs, and says how the engine is to run it.
pub fn commit(
    message: Option<&str>,
    amend: bool,
    parent_id: Option<ObjectId>,
    branch: Option<BranchRef>,
    head_id: Option<ObjectId>,
    workspace: Workspace,
    changes: ChangeSource,
) -> (r: Result<CommitRequest, CommitError>)
    ensures
        match r {
            Ok(request) => resolved_request(
                message_view(message),
                amend,
                parent_id,
                branch,
                head_id,
                workspace,
                changes,
            ) == Ok::<_, CommitError>(request@),
            Err(e) => resolved_request(
                message_view(message),
                amend,
                parent_id,
                branch,
                head_id,
                workspace,
                changes,
            ) == Err::<CommitRequestView, _>(e),
        },
{
    check_message(message, amend)?;
    let destination = if amend {
        Destination::AmendCommit(resolve_amend_target(parent_id, &branch, head_id)?)
    } else {
        let text = match message {
            Some(m) => m.to_owned(),
            None => String::new(),
        };
        match &workspace {
            Workspace::Project(stacks) => {
                let (stack_segment, parent_commit_id) = get_stack_segment_info(
                    &branch,
                    parent_id,
                    stacks,
                )?;
                Destination::NewCommit { parent_commit_id, message: text, stack_segment }
            },
            Workspace::Detached { .. } => Destination::NewCommit {
                parent_commit_id: resolve_parent(parent_id, &branch),
                message: text,
                stack_segment: None,
            },
        }
    };
    let executor = match &workspace {
        Workspace::Project(_) => Executor::Project,
        Workspace::Detached { workspace_tip } => {
            let branch_tip = match &branch {
                Some(b) => match b.commit {
                    Some(id) => Some(id),
                    None => head_id,
                },
                None => head_id,
            };
            Executor::Frame(ReferenceFrame { workspace_tip: *workspace_tip, branch_tip })
        },
    };
    Ok(CommitRequest { destination, changes: normalize_changes(changes), executor })
}

} // verus!
