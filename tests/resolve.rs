use commit_resolve::{
    check_message, commit, find_owning_stack, get_stack_segment_info, locate_stack_segment,
    normalize_changes, normalize_stack_segment_ref, resolve_amend_target, resolve_parent,
    select_changes, to_whole_file_diffspec, BranchRef, ChangeSelection, ChangeSource, ChangeSpec,
    CommitError, Destination, Executor, HunkHeader, ObjectId, ReferenceFrame, StackId, StackInfo,
    StackSegmentId, TreeChange, Workspace,
};

fn oid(b: u8) -> ObjectId {
    ObjectId([b; 20])
}

fn stack(id: u128, heads: &[&str]) -> StackInfo {
    StackInfo {
        id: StackId(id),
        heads: heads.iter().map(|h| h.to_string()).collect(),
    }
}

fn branch(name: &str, commit: Option<ObjectId>) -> Option<BranchRef> {
    Some(BranchRef {
        name: name.to_string(),
        commit,
    })
}

fn no_changes() -> ChangeSource {
    ChangeSource::Worktree(Vec::new())
}

#[test]
fn normalize_prefixes_short_name() {
    assert_eq!(
        normalize_stack_segment_ref("feature-x"),
        Ok("refs/heads/feature-x".to_string())
    );
}

#[test]
fn normalize_keeps_qualified_name() {
    assert_eq!(
        normalize_stack_segment_ref("refs/heads/topic/a"),
        Ok("refs/heads/topic/a".to_string())
    );
}

#[test]
fn normalize_is_idempotent() {
    let once = normalize_stack_segment_ref("feature-x").unwrap();
    let twice = normalize_stack_segment_ref(&once).unwrap();
    assert_eq!(once, twice);
    assert!(twice.starts_with("refs/heads/"));
}

#[test]
fn normalize_rejects_repeated_dot() {
    assert_eq!(
        normalize_stack_segment_ref("feature..x"),
        Err(CommitError::InvalidReferenceName)
    );
}

#[test]
fn normalize_rejects_space_and_trailing_slash() {
    assert_eq!(
        normalize_stack_segment_ref("has space"),
        Err(CommitError::InvalidReferenceName)
    );
    assert_eq!(
        normalize_stack_segment_ref("topic/"),
        Err(CommitError::InvalidReferenceName)
    );
}

#[test]
fn find_owning_stack_takes_first_match() {
    let stacks = vec![stack(1, &["a"]), stack(2, &["b", "c"]), stack(3, &["c"])];
    assert_eq!(find_owning_stack("c", &stacks), Some(StackId(2)));
    assert_eq!(find_owning_stack("a", &stacks), Some(StackId(1)));
    assert_eq!(find_owning_stack("d", &stacks), None);
    assert_eq!(find_owning_stack("a", &Vec::new()), None);
}

#[test]
fn locate_builds_segment_of_owning_stack() {
    let stacks = vec![stack(10, &["main"]), stack(20, &["feature-x"])];
    assert_eq!(
        locate_stack_segment("feature-x", &stacks),
        Ok(Some(StackSegmentId {
            segment_ref: "refs/heads/feature-x".to_string(),
            stack_id: StackId(20),
        }))
    );
}

#[test]
fn locate_unknown_branch_is_no_error() {
    let stacks = vec![stack(10, &["main"])];
    assert_eq!(locate_stack_segment("other", &stacks), Ok(None));
}

#[test]
fn locate_compares_the_short_form() {
    let stacks = vec![stack(10, &["feature-x"])];
    assert_eq!(locate_stack_segment("refs/heads/feature-x", &stacks), Ok(None));
}

#[test]
fn locate_invalid_name_fails() {
    let stacks = vec![stack(10, &["a..b"])];
    assert_eq!(
        locate_stack_segment("a..b", &stacks),
        Err(CommitError::InvalidReferenceName)
    );
}

#[test]
fn explicit_parent_wins_over_branch() {
    assert_eq!(resolve_parent(Some(oid(1)), &branch("x", Some(oid(2)))), Some(oid(1)));
    assert_eq!(
        resolve_amend_target(Some(oid(1)), &branch("x", Some(oid(2))), Some(oid(3))),
        Ok(oid(1))
    );
}

#[test]
fn parent_falls_back_to_branch_then_nothing() {
    assert_eq!(resolve_parent(None, &branch("x", Some(oid(2)))), Some(oid(2)));
    assert_eq!(resolve_parent(None, &branch("x", None)), None);
    assert_eq!(resolve_parent(None, &None), None);
}

#[test]
fn amend_target_falls_back_to_head() {
    assert_eq!(resolve_amend_target(None, &branch("x", None), Some(oid(3))), Ok(oid(3)));
    assert_eq!(
        resolve_amend_target(None, &None, None),
        Err(CommitError::RevisionResolutionFailed)
    );
}

#[test]
fn segment_info_without_branch() {
    let stacks = vec![stack(1, &["a"])];
    assert_eq!(
        get_stack_segment_info(&None, Some(oid(4)), &stacks),
        Ok((None, Some(oid(4))))
    );
}

#[test]
fn segment_info_with_untracked_branch() {
    let stacks = vec![stack(1, &["a"])];
    assert_eq!(
        get_stack_segment_info(&branch("b", Some(oid(5))), None, &stacks),
        Ok((None, Some(oid(5))))
    );
}

#[test]
fn message_checks() {
    assert_eq!(check_message(None, false), Err(CommitError::MissingCommitMessage));
    assert_eq!(check_message(Some(""), false), Err(CommitError::MissingCommitMessage));
    assert_eq!(
        check_message(Some("m"), true),
        Err(CommitError::UnexpectedMessageOnAmend)
    );
    assert_eq!(check_message(Some("m"), false), Ok(()));
    assert_eq!(check_message(None, true), Ok(()));
}

#[test]
fn commit_without_message_fails() {
    let r = commit(
        None,
        false,
        Some(oid(1)),
        None,
        Some(oid(2)),
        Workspace::Project(Vec::new()),
        no_changes(),
    );
    assert_eq!(r, Err(CommitError::MissingCommitMessage));
}

#[test]
fn amend_with_message_fails() {
    let r = commit(
        Some("msg"),
        true,
        None,
        None,
        Some(oid(2)),
        Workspace::Detached { workspace_tip: None },
        no_changes(),
    );
    assert_eq!(r, Err(CommitError::UnexpectedMessageOnAmend));
}

#[test]
fn amend_defaults_to_head() {
    let c = oid(0xc);
    for workspace in [
        Workspace::Project(vec![stack(1, &["a"])]),
        Workspace::Detached { workspace_tip: None },
    ] {
        let r = commit(None, true, None, None, Some(c), workspace, no_changes()).unwrap();
        assert_eq!(r.destination, Destination::AmendCommit(c));
    }
}

#[test]
fn amend_without_head_fails() {
    let r = commit(
        None,
        true,
        None,
        None,
        None,
        Workspace::Detached { workspace_tip: None },
        no_changes(),
    );
    assert_eq!(r, Err(CommitError::RevisionResolutionFailed));
}

#[test]
fn new_commit_on_registered_segment() {
    let d = oid(0xd);
    let stacks = vec![stack(7, &["main"]), stack(42, &["feature-x"])];
    let r = commit(
        Some("add feature"),
        false,
        None,
        branch("feature-x", Some(d)),
        Some(oid(1)),
        Workspace::Project(stacks),
        no_changes(),
    )
    .unwrap();
    assert_eq!(
        r.destination,
        Destination::NewCommit {
            parent_commit_id: Some(d),
            message: "add feature".to_string(),
            stack_segment: Some(StackSegmentId {
                segment_ref: "refs/heads/feature-x".to_string(),
                stack_id: StackId(42),
            }),
        }
    );
    assert_eq!(r.executor, Executor::Project);
}

#[test]
fn new_commit_with_invalid_branch_fails() {
    let r = commit(
        Some("m"),
        false,
        None,
        branch("bad..name", None),
        None,
        Workspace::Project(Vec::new()),
        no_changes(),
    );
    assert_eq!(r, Err(CommitError::InvalidReferenceName));
}

#[test]
fn detached_new_commit_builds_frame() {
    let r = commit(
        Some("m"),
        false,
        None,
        branch("topic", Some(oid(8))),
        Some(oid(9)),
        Workspace::Detached {
            workspace_tip: Some(oid(6)),
        },
        no_changes(),
    )
    .unwrap();
    assert_eq!(
        r.destination,
        Destination::NewCommit {
            parent_commit_id: Some(oid(8)),
            message: "m".to_string(),
            stack_segment: None,
        }
    );
    assert_eq!(
        r.executor,
        Executor::Frame(ReferenceFrame {
            workspace_tip: Some(oid(6)),
            branch_tip: Some(oid(8)),
        })
    );
}

#[test]
fn detached_frame_falls_back_to_head() {
    let r = commit(
        Some("m"),
        false,
        Some(oid(3)),
        branch("missing", None),
        Some(oid(9)),
        Workspace::Detached { workspace_tip: None },
        no_changes(),
    )
    .unwrap();
    assert_eq!(
        r.executor,
        Executor::Frame(ReferenceFrame {
            workspace_tip: None,
            branch_tip: Some(oid(9)),
        })
    );
    assert_eq!(
        r.destination,
        Destination::NewCommit {
            parent_commit_id: Some(oid(3)),
            message: "m".to_string(),
            stack_segment: None,
        }
    );
}

#[test]
fn whole_worktree_with_rename() {
    let changes = vec![
        TreeChange {
            path: "b.txt".to_string(),
            previous_path: Some("a.txt".to_string()),
        },
        TreeChange {
            path: "c.txt".to_string(),
            previous_path: None,
        },
    ];
    let specs = to_whole_file_diffspec(changes);
    assert_eq!(
        specs,
        vec![
            ChangeSpec {
                previous_path: Some("a.txt".to_string()),
                path: "b.txt".to_string(),
                hunk_headers: Vec::new(),
            },
            ChangeSpec {
                previous_path: None,
                path: "c.txt".to_string(),
                hunk_headers: Vec::new(),
            },
        ]
    );
}

#[test]
fn commit_carries_normalized_changes() {
    let changes = ChangeSource::Worktree(vec![TreeChange {
        path: "x.rs".to_string(),
        previous_path: None,
    }]);
    let r = commit(
        Some("m"),
        false,
        None,
        None,
        None,
        Workspace::Detached { workspace_tip: None },
        changes,
    )
    .unwrap();
    assert_eq!(r.changes.len(), 1);
    assert_eq!(r.changes[0].path, "x.rs");
    assert!(r.changes[0].hunk_headers.is_empty());
    assert_eq!(
        r.executor,
        Executor::Frame(ReferenceFrame {
            workspace_tip: None,
            branch_tip: None,
        })
    );
}

#[test]
fn select_changes_modes() {
    let explicit = vec![ChangeSpec {
        previous_path: None,
        path: "f".to_string(),
        hunk_headers: Vec::new(),
    }];
    assert_eq!(
        select_changes(None, None, None, Some(explicit.clone())),
        ChangeSelection::Explicit(explicit)
    );
    assert_eq!(select_changes(None, None, None, None), ChangeSelection::WholeWorktree);
    assert_eq!(
        select_changes(
            Some("new".to_string()),
            Some("old".to_string()),
            Some(vec![0, 2]),
            None
        ),
        ChangeSelection::SinglePath {
            path: "new".to_string(),
            previous_path: Some("old".to_string()),
            headers: vec![0, 2],
        }
    );
}

#[test]
fn normalize_changes_single_path() {
    let header = HunkHeader {
        old_start: 3,
        old_lines: 2,
        new_start: 3,
        new_lines: 4,
    };
    let specs = normalize_changes(ChangeSource::Hunks {
        path: "src/x.rs".to_string(),
        previous_path: None,
        hunk_headers: vec![header],
    });
    assert_eq!(
        specs,
        vec![ChangeSpec {
            previous_path: None,
            path: "src/x.rs".to_string(),
            hunk_headers: vec![header],
        }]
    );
}

#[test]
fn normalize_changes_explicit_and_empty() {
    let explicit = vec![
        ChangeSpec {
            previous_path: None,
            path: "a".to_string(),
            hunk_headers: Vec::new(),
        },
        ChangeSpec {
            previous_path: Some("b0".to_string()),
            path: "b".to_string(),
            hunk_headers: Vec::new(),
        },
    ];
    assert_eq!(normalize_changes(ChangeSource::Explicit(explicit.clone())), explicit);
    assert!(normalize_changes(ChangeSource::Worktree(Vec::new())).is_empty());
}
