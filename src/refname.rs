use vstd::prelude::*;

use crate::types::CommitError;

verus! {

/// The prefix under which branch references live.
pub open spec fn branch_prefix() -> Seq<char> {
    seq!['r', 'e', 'f', 's', '/', 'h', 'e', 'a', 'd', 's', '/']
}

/// Whether `name` is a valid fully-qualified reference name, as gix decides it.
pub uninterp spec fn is_full_ref_name(name: Seq<char>) -> bool;

/// The fully-qualified form of a branch name: kept where it already starts
/// with the branch prefix, prefixed otherwise.
pub open spec fn full_branch_ref(name: Seq<char>) -> Seq<char> {
    if branch_prefix().is_prefix_of(name) {
        name
    } else {
        branch_prefix() + name
    }
}

/// What normalizing a branch name gives: its fully-qualified form where that is
/// a valid reference name, nothing otherwise.
pub open spec fn normalized_ref(name: Seq<char>) -> Option<Seq<char>> {
    let full = full_branch_ref(name);
    if is_full_ref_name(full) {
        Some(full)
    } else {
        None
    }
}

/// Normalizing is idempotent: what a name normalizes to starts with the
/// branch prefix and normalizes to itself.
pub proof fn lemma_normalize_idempotent(name: Seq<char>)
    ensures
        normalized_ref(name) matches Some(full) ==> branch_prefix().is_prefix_of(full)
            && normalized_ref(full) == Some(full),
{
    if !branch_prefix().is_prefix_of(name) {
        let full = branch_prefix() + name;
        assert(full.subrange(0, branch_prefix().len() as int) =~= branch_prefix());
    }
}

/// Relies on `gix::refs::FullName::try_from(String)`: it accepts exactly the
/// valid full reference names and keeps the name's text unchanged.
#[verifier::external_body]
fn to_full_name(name: String) -> (r: Result<String, gix::refs::name::Error>)
    ensures
        r is Ok <==> is_full_ref_name(name@),
        r matches Ok(full) ==> full@ == name@,
{
    gix::refs::FullName::try_from(name).map(|full| full.to_string())
}

#[verifier::external_type_specification]
#[verifier::external_body]
pub struct ExRefNameError(gix::refs::name::Error);

/// Whether `name` starts with the branch prefix.
fn has_branch_prefix(name: &str) -> (r: bool)
    ensures
        r == branch_prefix().is_prefix_of(name@),
{
    let prefix = "refs/heads/";
    proof {
        reveal_strlit("refs/heads/");
    }
    assert(prefix@ =~= branch_prefix());
    let n = prefix.unicode_len();
    if name.unicode_len() < n {
        return false;
    }
    let mut i: usize = 0;
    while i < n
        invariant
            n == branch_prefix().len(),
            prefix@ == branch_prefix(),
            n <= name@.len(),
            i <= n,
            forall|j: int| 0 <= j < i ==> name@[j] == branch_prefix()[j],
        decreases n - i,
    {
        if name.get_char(i) != prefix.get_char(i) {
            assert(name@.subrange(0, n as int)[i as int] != branch_prefix()[i as int]);
            return false;
        }
        i = i + 1;
    }
    assert(branch_prefix() =~= name@.subrange(0, n as int));
    true
}

/// Turns a short or qualified branch name into a fully-qualified reference
/// name: a name that already starts with `refs/heads/` is kept, any other gets
/// that prefix. Fails where the result is not a valid reference name.
pub fn normalize_stack_segment_ref(stack_segment_ref: &str) -> (r: Result<String, CommitError>)
    ensures
        r matches Ok(full) ==> normalized_ref(stack_segment_ref@) == Some(full@),
        r matches Err(e) ==> normalized_ref(stack_segment_ref@) is None
            && e == CommitError::InvalidReferenceName,
{
    let full_name = if has_branch_prefix(stack_segment_ref) {
        stack_segment_ref.to_owned()
    } else {
        let mut full = "refs/heads/".to_owned();
        proof {
            reveal_strlit("refs/heads/");
        }
        full.append(stack_segment_ref);
        full
    };
    assert(full_name@ =~= full_branch_ref(stack_segment_ref@));
    match to_full_name(full_name) {
        Ok(full) => Ok(full),
        Err(_) => Err(CommitError::InvalidReferenceName),
    }
}

} // verus!
