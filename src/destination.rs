use vstd::prelude::*;

use crate::stacks::{locate_stack_segment, located_segment};
use crate::types::{
    BranchRef, CommitError, ObjectId, StackInfo, StackSegmentId, StackSegmentView,
    opt_segment_view,
};

verus! {

/// The commit that a named branch peels to, if a branch is named and its
/// reference exists.
pub open spec fn branch_commit(branch: Option<BranchRef>) -> Option<ObjectId> {
    match branch {
        Some(b) => b.commit,
        None => None,
    }
}

/// The parent of a new commit: the explicit id where one is given, else the
/// commit that the named branch peels to; unresolved otherwise.
pub open spec fn chosen_parent(parent_id: Option<ObjectId>, branch: Option<BranchRef>) -> Option<
    ObjectId,
> {
    match parent_id {
        Some(id) => Some(id),
        None => branch_commit(branch),
    }
}

/// The commit to amend: chosen as a parent is, with `HEAD` as the last resort.
pub open spec fn amend_target(
    parent_id: Option<ObjectId>,
    branch: Option<BranchRef>,
    head_id: Option<ObjectId>,
) -> Option<ObjectId> {
    match chosen_parent(parent_id, branch) {
        Some(id) => Some(id),
        None => head_id,
    }
}

/// An explicit parent id always wins: whatever branch or `HEAD` is at hand,
/// it is the parent of a new commit and the commit that an amendment targets.
pub proof fn lemma_explicit_parent_wins(
    id: ObjectId,
    branch: Option<BranchRef>,
    head_id: Option<ObjectId>,
)
    ensures
        chosen_parent(Some(id), branch) == Some(id),
        amend_target(Some(id), branch, head_id) == Some(id),
{
}

/// Picks the parent of a new commit: the explicit id, else the commit that the
/// named branch peels to, else none (the engine then decides).
pub fn resolve_parent(parent_id: Option<ObjectId>, branch: &Option<BranchRef>) -> (r: Option<
    ObjectId,
>)
    ensures
        r == chosen_parent(parent_id, *branch),
{
    match parent_id {
        Some(id) => Some(id),
        None => match branch {
            Some(b) => b.commit,
            None => None,
        },
    }
}

/// Picks the commit to amend: the explicit id, else the commit that the named
/// branch peels to, else `HEAD`. Fails where none of them is at hand.
pub fn resolve_amend_target(
    parent_id: Option<ObjectId>,
    branch: &Option<BranchRef>,
    head_id: Option<ObjectId>,
) -> (r: Result<ObjectId, CommitError>)
    ensures
        match r {
            Ok(id) => amend_target(parent_id, *branch, head_id) == Some(id),
            Err(e) => amend_target(parent_id, *branch, head_id) is None && e
                == CommitError::RevisionResolutionFailed,
        },
{
    match resolve_parent(parent_id, branch) {
        Some(id) => Ok(id),
        None => match head_id {
            Some(id) => Ok(id),
            None => Err(CommitError::RevisionResolutionFailed),
        },
    }
}

/// The stack segment and the parent of a new commit in a workspace with the
/// given registry.
pub open spec fn segment_info(
    branch: Option<BranchRef>,
    parent_id: Option<ObjectId>,
    stacks: Seq<StackInfo>,
) -> Result<(Option<StackSegmentView>, Option<ObjectId>), CommitError> {
    match branch {
        Some(b) => match located_segment(stacks, b.name@) {
            Ok(seg) => Ok((seg, chosen_parent(parent_id, branch))),
            Err(e) => Err(e),
        },
        None => Ok((None, parent_id)),
    }
}

/// Determines the stack segment that a new commit belongs to and its parent.
/// With a branch named: the segment of the first stack that lists the name, if
/// any, and the parent chosen from the explicit id and the branch's commit.
/// Without one: no segment, and the explicit id as parent.
pub fn get_stack_segment_info(
    branch: &Option<BranchRef>,
    parent_id: Option<ObjectId>,
    stacks: &Vec<StackInfo>,
) -> (r: Result<(Option<StackSegmentId>, Option<ObjectId>), CommitError>)
    ensures
        match r {
            Ok((seg, parent)) => segment_info(*branch, parent_id, stacks@) == Ok::<_, CommitError>(
                (opt_segment_view(seg), parent),
            ),
            Err(e) => segment_info(*branch, parent_id, stacks@) == Err::<
                (Option<StackSegmentView>, Option<ObjectId>),
                _,
            >(e),
        },
{
    match branch {
        Some(b) => {
            let segment = locate_stack_segment(&b.name, stacks)?;
            Ok((segment, resolve_parent(parent_id, branch)))
        },
        None => Ok((None, parent_id)),
    }
}

} // verus!
