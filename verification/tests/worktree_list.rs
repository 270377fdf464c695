use zellij_worktree::state::State;

#[test]
fn parses_worktrees_and_marks_the_detected_repository() {
    let mut state = State {
        repo_root: Some("/projects/topic".to_string()),
        ..State::default()
    };

    state.parse_worktree_list(
        b"worktree /projects/main\nHEAD abc\nbranch refs/heads/main\n\
          \nworktree /projects/topic\nHEAD def\nbranch refs/heads/topic\n",
    );

    assert_eq!(state.worktrees.len(), 1);
    assert_eq!(state.worktrees[0].path, "/projects/topic");
    assert_eq!(
        state.worktrees[0].branch.as_deref(),
        Some("refs/heads/topic")
    );
    assert!(state.worktrees[0].is_current);
}

#[test]
fn resolves_relative_worktree_paths_from_the_repository_root() {
    let state = State {
        repo_root: Some("/projects/main".to_string()),
        ..State::default()
    };

    assert_eq!(
        state.resolve_worktree_path("../topic").as_deref(),
        Some("/projects/main/../topic")
    );
}

#[test]
fn detached_worktrees_have_no_branch_and_others_are_not_current() {
    let mut state = State {
        repo_root: Some("/r/main".to_string()),
        selected_index: 3,
        ..State::default()
    };
    state.parse_worktree_list(
        b"worktree /r/main\nHEAD 1\nbranch refs/heads/main\n\n\
          worktree /r/a\nHEAD 2\ndetached\n\n\
          worktree /r/b\r\nHEAD 3\r\nbranch refs/heads/b\r\n",
    );
    assert_eq!(state.selected_index, 0);
    assert_eq!(state.worktrees.len(), 2);
    assert_eq!(state.worktrees[0].path, "/r/a");
    assert_eq!(state.worktrees[0].branch, None);
    assert!(!state.worktrees[0].is_current);
    assert_eq!(state.worktrees[1].path, "/r/b");
    assert_eq!(state.worktrees[1].branch.as_deref(), Some("refs/heads/b"));
    assert!(!state.worktrees[1].is_current);
}

#[test]
fn records_without_branch_line_are_skipped_and_empty_output_lists_nothing() {
    let mut state = State::default();
    state.parse_worktree_list(b"");
    assert!(state.worktrees.is_empty());
    state.parse_worktree_list(b"worktree /only/main\nbare\n\nworktree /x\nbranch refs/heads/x\n");
    // the main worktree's record is the one dropped, closed or not
    assert_eq!(state.worktrees.len(), 1);
    assert_eq!(state.worktrees[0].path, "/x");
    state.parse_worktree_list(b"branch refs/heads/stray\nworktree /m\nbranch b\nworktree /n\nbranch c\n");
    assert_eq!(state.worktrees.len(), 1);
    assert_eq!(state.worktrees[0].path, "/n");
    assert_eq!(state.worktrees[0].branch.as_deref(), Some("c"));
}

#[test]
fn invalid_utf8_in_output_is_replaced() {
    let mut state = State::default();
    state.parse_worktree_list(b"worktree /m\nbranch m\nworktree /p\xff\nbranch q\n");
    assert_eq!(state.worktrees.len(), 1);
    assert_eq!(state.worktrees[0].path, "/p\u{FFFD}");
}

#[test]
fn resolves_absolute_branch_and_base_paths() {
    let mut state = State {
        repo_root: Some("/projects/main".to_string()),
        ..State::default()
    };
    assert_eq!(state.resolve_worktree_path("/abs/x").as_deref(), Some("/abs/x"));
    assert_eq!(state.resolve_worktree_path("~/x").as_deref(), Some("~/x"));
    assert_eq!(state.resolve_worktree_path("./x").as_deref(), Some("/projects/main/./x"));
    assert_eq!(state.resolve_worktree_path("feature").as_deref(), Some("/projects/feature"));
    state.base_path = Some("/base".to_string());
    assert_eq!(state.resolve_worktree_path("feature").as_deref(), Some("/base/feature"));
    assert_eq!(state.resolve_worktree_path("../y").as_deref(), Some("/projects/main/../y"));

    let none = State::default();
    assert_eq!(none.resolve_worktree_path("../y"), None);
    assert_eq!(none.resolve_worktree_path("feature"), None);
    assert_eq!(none.resolve_worktree_path("/z").as_deref(), Some("/z"));

    let rootless_parent = State {
        repo_root: Some("/".to_string()),
        ..State::default()
    };
    assert_eq!(rootless_parent.resolve_worktree_path("f").as_deref(), Some("./f"));
}

#[test]
fn tab_names_are_the_last_path_component() {
    let state = State::default();
    assert_eq!(state.get_tab_name("/projects/topic"), "topic");
    assert_eq!(state.get_tab_name("/projects/topic/"), "topic");
    assert_eq!(state.get_tab_name("/"), "worktree");
    assert_eq!(state.get_tab_name("/a/.."), "worktree");
}

#[test]
fn a_bare_main_repository_hides_no_worktree() {
    let mut state = State::default();
    state.parse_worktree_list(
        b"worktree /srv/repo.git\nbare\n\nworktree /srv/feat\nHEAD abc\nbranch refs/heads/feat\n",
    );
    assert_eq!(state.worktrees.len(), 1);
    assert_eq!(state.worktrees[0].path, "/srv/feat");
    assert_eq!(state.worktrees[0].branch.as_deref(), Some("refs/heads/feat"));
}
