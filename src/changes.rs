use vstd::prelude::*;

use crate::types::{ChangeSpec, ChangeSpecView, HunkHeader, TreeChange, opt_view, specs_view};

verus! {

/// Which changes a request selects, in exactly one of three shapes.
#[derive(Clone, Debug, PartialEq, Eq)]
pub enum ChangeSelection {
    /// A list of change specs, taken as given.
    Explicit(Vec<ChangeSpec>),
    /// Every change between the working tree and its comparison base.
    WholeWorktree,
    /// Hunks of one file, chosen by their indices.
    SinglePath { path: String, previous_path: Option<String>, headers: Vec<u32> },
}

/// Only an explicit list of changes is given.
pub open spec fn is_explicit_mode(
    current_rela_path: Option<String>,
    previous_rela_path: Option<String>,
    headers: Option<Vec<u32>>,
    diff_spec: Option<Vec<ChangeSpec>>,
) -> bool {
    current_rela_path is None && previous_rela_path is None && headers is None && diff_spec is Some
}

/// Nothing is given: the whole worktree is meant.
pub open spec fn is_worktree_mode(
    current_rela_path: Option<String>,
    previous_rela_path: Option<String>,
    headers: Option<Vec<u32>>,
    diff_spec: Option<Vec<ChangeSpec>>,
) -> bool {
    current_rela_path is None && previous_rela_path is None && headers is None && diff_spec is None
}

/// A path and hunk indices are given, and no explicit list.
pub open spec fn is_single_path_mode(
    current_rela_path: Option<String>,
    previous_rela_path: Option<String>,
    headers: Option<Vec<u32>>,
    diff_spec: Option<Vec<ChangeSpec>>,
) -> bool {
    current_rela_path is Some && headers is Some && diff_spec is None
}

/// The inputs select changes in one of the three shapes.
pub open spec fn is_well_formed_selection(
    current_rela_path: Option<String>,
    previous_rela_path: Option<String>,
    headers: Option<Vec<u32>>,
    diff_spec: Option<Vec<ChangeSpec>>,
) -> bool {
    ||| is_explicit_mode(current_rela_path, previous_rela_path, headers, diff_spec)
    ||| is_worktree_mode(current_rela_path, previous_rela_path, headers, diff_spec)
    ||| is_single_path_mode(current_rela_path, previous_rela_path, headers, diff_spec)
}

/// Well-formed inputs select changes in exactly one of the three shapes.
pub proof fn lemma_selection_modes_exclusive(
    current_rela_path: Option<String>,
    previous_rela_path: Option<String>,
    headers: Option<Vec<u32>>,
    diff_spec: Option<Vec<ChangeSpec>>,
)
    requires
        is_well_formed_selection(current_rela_path, previous_rela_path, headers, diff_spec),
    ensures
        (if is_explicit_mode(current_rela_path, previous_rela_path, headers, diff_spec) {
            1int
        } else {
            0int
        }) + (if is_worktree_mode(current_rela_path, previous_rela_path, headers, diff_spec) {
            1int
        } else {
            0int
        }) + (if is_single_path_mode(current_rela_path, previous_rela_path, headers, diff_spec) {
            1int
        } else {
            0int
        }) == 1,
{
}

/// Reads the shape of a change selection from its optional parts.
pub fn select_changes(
    current_rela_path: Option<String>,
    previous_rela_path: Option<String>,
    headers: Option<Vec<u32>>,
    diff_spec: Option<Vec<ChangeSpec>>,
) -> (r: ChangeSelection)
    requires
        is_well_formed_selection(current_rela_path, previous_rela_path, headers, diff_spec),
    ensures
        is_explicit_mode(current_rela_path, previous_rela_path, headers, diff_spec) ==> r
            == ChangeSelection::Explicit(diff_spec->0),
        is_worktree_mode(current_rela_path, previous_rela_path, headers, diff_spec) ==> r
            == ChangeSelection::WholeWorktree,
        is_single_path_mode(current_rela_path, previous_rela_path, headers, diff_spec) ==> r == (
        ChangeSelection::SinglePath {
            path: current_rela_path->0,
            previous_path: previous_rela_path,
            headers: headers->0,
        }),
{
    match (current_rela_path, headers, diff_spec) {
        (Some(path), Some(headers), None) => ChangeSelection::SinglePath {
            path,
            previous_path: previous_rela_path,
            headers,
        },
        (_, _, Some(specs)) => ChangeSelection::Explicit(specs),
        (_, _, None) => ChangeSelection::WholeWorktree,
    }
}

/// The changes of a selection, once the diff engine has done its part.
#[derive(Clone, Debug, PartialEq, Eq)]
pub enum ChangeSource {
    /// A list of change specs, taken as given.
    Explicit(Vec<ChangeSpec>),
    /// The changes of the whole worktree.
    Worktree(Vec<TreeChange>),
    /// The hunk headers that the chosen hunks of one file stand for.
    Hunks { path: String, previous_path: Option<String>, hunk_headers: Vec<HunkHeader> },
}

/// The whole-file change spec of a worktree change.
pub open spec fn whole_file(change: TreeChange) -> ChangeSpecView {
    ChangeSpecView {
        previous_path: opt_view(change.previous_path),
        path: change.path@,
        hunk_headers: Seq::empty(),
    }
}

/// The change specs that a change source comes to.
pub open spec fn normalized_changes(source: ChangeSource) -> Seq<ChangeSpecView> {
    match source {
        ChangeSource::Explicit(specs) => specs_view(specs@),
        ChangeSource::Worktree(changes) => changes@.map_values(|c: TreeChange| whole_file(c)),
        ChangeSource::Hunks { path, previous_path, hunk_headers } => seq![
            ChangeSpecView {
                previous_path: opt_view(previous_path),
                path: path@,
                hunk_headers: hunk_headers@,
            },
        ],
    }
}

/// How many changes a change source enumerates.
pub open spec fn source_len(source: ChangeSource) -> nat {
    match source {
        ChangeSource::Explicit(specs) => specs@.len(),
        ChangeSource::Worktree(changes) => changes@.len(),
        ChangeSource::Hunks { .. } => 1,
    }
}

/// Normalizing changes keeps one change spec for each change that the source
/// enumerates, so the result is empty only where the source is.
pub proof fn lemma_normalized_changes_len(source: ChangeSource)
    ensures
        normalized_changes(source).len() == source_len(source),
        source_len(source) > 0 ==> normalized_changes(source).len() > 0,
{
}

fn clone_path(p: &Option<String>) -> (r: Option<String>)
    ensures
        opt_view(r) == opt_view(*p),
{
    match p {
        Some(s) => Some(s.clone()),
        None => None,
    }
}

/// Turns worktree changes into whole-file change specs, in the same order:
/// no hunk headers, and the previous path kept for a rename or copy.
pub fn to_whole_file_diffspec(changes: Vec<TreeChange>) -> (r: Vec<ChangeSpec>)
    ensures
        specs_view(r@) == changes@.map_values(|c: TreeChange| whole_file(c)),
{
    let mut specs: Vec<ChangeSpec> = Vec::new();
    let mut i: usize = 0;
    while i < changes.len()
        invariant
            i <= changes@.len(),
            specs@.len() == i,
            forall|j: int| 0 <= j < i ==> #[trigger] specs@[j]@ == whole_file(changes@[j]),
        decreases changes@.len() - i,
    {
        let change = &changes[i];
        let spec = ChangeSpec {
            previous_path: clone_path(&change.previous_path),
            path: change.path.clone(),
            hunk_headers: Vec::new(),
        };
        assert(spec@.hunk_headers =~= Seq::<HunkHeader>::empty());
        specs.push(spec);
        i = i + 1;
    }
    assert(specs_view(specs@) =~= changes@.map_values(|c: TreeChange| whole_file(c)));
    specs
}

/// Produces the ordered change specs of a change source: an explicit list as
/// given, each worktree change as a whole file, or one spec with the chosen
/// hunks of a single file.
pub fn normalize_changes(source: ChangeSource) -> (r: Vec<ChangeSpec>)
    ensures
        specs_view(r@) == normalized_changes(source),
{
    match source {
        ChangeSource::Explicit(specs) => specs,
        ChangeSource::Worktree(changes) => to_whole_file_diffspec(changes),
        ChangeSource::Hunks { path, previous_path, hunk_headers } => {
            let specs = vec![ChangeSpec { previous_path, path, hunk_headers }];
            assert(specs_view(specs@) =~= normalized_changes(source));
            specs
        },
    }
}

} // verus!
