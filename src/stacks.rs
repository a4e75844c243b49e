use vstd::prelude::*;

use crate::refname::{normalize_stack_segment_ref, normalized_ref};
use crate::types::{CommitError, StackId, StackInfo, StackSegmentId, StackSegmentView};

verus! {

/// Whether `stack` lists `name` among the names of its segment heads.
pub open spec fn lists_segment(stack: StackInfo, name: Seq<char>) -> bool {
    exists|k: int| 0 <= k < stack.heads@.len() && #[trigger] stack.heads@[k]@ == name
}

/// The id of the first stack, in registry order, that lists `name`.
pub open spec fn first_owner(stacks: Seq<StackInfo>, name: Seq<char>) -> Option<StackId>
    decreases stacks.len(),
{
    if stacks.len() == 0 {
        None
    } else if lists_segment(stacks[0], name) {
        Some(stacks[0].id)
    } else {
        first_owner(stacks.drop_first(), name)
    }
}

/// The segment that a branch name stands for in a registry: an error where the
/// name does not normalize, nothing where no stack lists it.
pub open spec fn located_segment(stacks: Seq<StackInfo>, name: Seq<char>) -> Result<
    Option<StackSegmentView>,
    CommitError,
> {
    match normalized_ref(name) {
        None => Err(CommitError::InvalidReferenceName),
        Some(full) => match first_owner(stacks, name) {
            Some(id) => Ok(Some(StackSegmentView { segment_ref: full, stack_id: id })),
            None => Ok(None),
        },
    }
}

/// Where some stack lists a name, the first such stack in registry order owns
/// it; where none does, the name has no owner.
pub proof fn lemma_first_owner(stacks: Seq<StackInfo>, name: Seq<char>)
    ensures
        first_owner(stacks, name) matches Some(id) ==> exists|i: int|
            0 <= i < stacks.len() && lists_segment(#[trigger] stacks[i], name) && stacks[i].id
                == id && forall|j: int| 0 <= j < i ==> !lists_segment(#[trigger] stacks[j], name),
        first_owner(stacks, name) is None <==> forall|i: int|
            0 <= i < stacks.len() ==> !lists_segment(#[trigger] stacks[i], name),
    decreases stacks.len(),
{
    if stacks.len() > 0 {
        let rest = stacks.drop_first();
        lemma_first_owner(rest, name);
        assert forall|i: int| 0 < i < stacks.len() implies #[trigger] stacks[i] == rest[i - 1] by {}
        if !lists_segment(stacks[0], name) {
            if let Some(id) = first_owner(rest, name) {
                let i = choose|i: int|
                    0 <= i < rest.len() && lists_segment(#[trigger] rest[i], name) && rest[i].id
                        == id && forall|j: int| 0 <= j < i ==> !lists_segment(#[trigger] rest[j], name);
                assert(stacks[i + 1] == rest[i]);
                assert forall|j: int| 0 <= j < i + 1 implies !lists_segment(
                    #[trigger] stacks[j],
                    name,
                ) by {
                    if j > 0 {
                        assert(stacks[j] == rest[j - 1]);
                    }
                }
            } else {
                assert forall|i: int| 0 <= i < stacks.len() implies !lists_segment(
                    #[trigger] stacks[i],
                    name,
                ) by {
                    if i > 0 {
                        assert(stacks[i] == rest[i - 1]);
                    }
                }
            }
        }
    }
}

/// For a name that normalizes, locating it in a registry never fails: where
/// some stack lists the name, the segment found belongs to the first such
/// stack and carries the normalized name; where none does, nothing is found.
pub proof fn lemma_locate_by_listing(stacks: Seq<StackInfo>, name: Seq<char>)
    requires
        normalized_ref(name) is Some,
    ensures
        located_segment(stacks, name) matches Ok(Some(seg)) ==> exists|i: int|
            0 <= i < stacks.len() && lists_segment(#[trigger] stacks[i], name) && stacks[i].id
                == seg.stack_id && forall|j: int|
                0 <= j < i ==> !lists_segment(#[trigger] stacks[j], name),
        located_segment(stacks, name) matches Ok(Some(seg)) ==> Some(seg.segment_ref)
            == normalized_ref(name),
        (exists|i: int| 0 <= i < stacks.len() && lists_segment(#[trigger] stacks[i], name))
            ==> located_segment(stacks, name) matches Ok(Some(_)),
        (forall|i: int| 0 <= i < stacks.len() ==> !lists_segment(#[trigger] stacks[i], name))
            ==> located_segment(stacks, name) == Ok::<_, CommitError>(None::<StackSegmentView>),
{
    lemma_first_owner(stacks, name);
}

/// Whether `heads` holds `name`.
fn heads_contain(heads: &Vec<String>, name: &String) -> (r: bool)
    ensures
        r == exists|k: int| 0 <= k < heads@.len() && #[trigger] heads@[k]@ == name@,
{
    let mut i: usize = 0;
    while i < heads.len()
        invariant
            i <= heads@.len(),
            forall|k: int| 0 <= k < i ==> #[trigger] heads@[k]@ != name@,
        decreases heads@.len() - i,
    {
        if heads[i] == *name {
            assert(heads@[i as int]@ == name@);
            return true;
        }
        i = i + 1;
    }
    false
}

/// Finds the first stack, in registry order, whose segment heads hold `name`,
/// and returns its id.
pub fn find_owning_stack(name: &str, stacks: &Vec<StackInfo>) -> (r: Option<StackId>)
    ensures
        r == first_owner(stacks@, name@),
{
    let wanted = name.to_owned();
    let mut i: usize = 0;
    assert(stacks@.subrange(0, stacks@.len() as int) =~= stacks@);
    while i < stacks.len()
        invariant
            i <= stacks@.len(),
            wanted@ == name@,
            first_owner(stacks@, name@) == first_owner(stacks@.subrange(i as int, stacks@.len() as int), name@),
        decreases stacks@.len() - i,
    {
        let ghost rest = stacks@.subrange(i as int, stacks@.len() as int);
        assert(rest[0] == stacks@[i as int]);
        if heads_contain(&stacks[i].heads, &wanted) {
            return Some(stacks[i].id);
        }
        assert(rest.drop_first() =~= stacks@.subrange(i + 1, stacks@.len() as int));
        i = i + 1;
    }
    None
}

/// Finds the stack segment that a branch name stands for: the name, made
/// fully qualified, with the id of the first stack that lists it. Nothing where
/// no stack lists it; an error where the name does not normalize.
pub fn locate_stack_segment(name: &str, stacks: &Vec<StackInfo>) -> (r: Result<
    Option<StackSegmentId>,
    CommitError,
>)
    ensures
        match r {
            Ok(Some(seg)) => located_segment(stacks@, name@) == Ok::<_, CommitError>(Some(seg@)),
            Ok(None) => located_segment(stacks@, name@) == Ok::<_, CommitError>(None::<StackSegmentView>),
            Err(e) => located_segment(stacks@, name@) == Err::<Option<StackSegmentView>, _>(e),
        },
{
    let full_name = normalize_stack_segment_ref(name)?;
    match find_owning_stack(name, stacks) {
        Some(id) => Ok(Some(StackSegmentId { segment_ref: full_name, stack_id: id })),
        None => Ok(None),
    }
}

} // verus!
