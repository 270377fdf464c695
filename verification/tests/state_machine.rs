use std::collections::HashMap;
use zellij_worktree::model::{Effect, KeyCode, KeyPress, Mode, Modifiers, PaneSummary, TabSummary};
use zellij_worktree::state::{State, DISCOVERY_SCRIPT};
use zellij_worktree::worktree::WorktreeInfo;

fn s(x: &str) -> String {
    x.to_string()
}

fn plain(code: KeyCode) -> KeyPress {
    KeyPress {
        code,
        modifiers: Modifiers { ctrl: false, alt: false, shift: false, super_key: false },
    }
}

fn ctrl(code: KeyCode) -> KeyPress {
    KeyPress {
        code,
        modifiers: Modifiers { ctrl: true, alt: false, shift: false, super_key: false },
    }
}

fn wt(path: &str, branch: Option<&str>) -> WorktreeInfo {
    WorktreeInfo { path: s(path), branch: branch.map(s), is_current: false }
}

fn listed() -> State {
    State {
        repo_root: Some(s("/p/main")),
        initialized: true,
        first_render: false,
        worktrees: vec![wt("/p/a", Some("refs/heads/a")), wt("/p/b", None), wt("/p/c", Some("c"))],
        ..State::default()
    }
}

fn ctx(pairs: &[(&str, &str)]) -> Vec<(String, String)> {
    pairs.iter().map(|(k, v)| (s(k), s(v))).collect()
}

fn run(argv: &[&str], cwd: &str, context: &[(&str, &str)]) -> Effect {
    Effect::RunCommand { argv: argv.iter().map(|a| s(a)).collect(), cwd: Some(s(cwd)), context: ctx(context) }
}

fn open(name: &str, cwd: &str) -> Effect {
    Effect::OpenTab { name: s(name), cwd: Some(s(cwd)), command: None }
}

#[test]
fn navigation_wraps_around() {
    let mut st = listed();
    assert_eq!(st.handle_key(plain(KeyCode::Up)), (true, vec![]));
    assert_eq!(st.selected_index, 2);
    st.handle_key(plain(KeyCode::Down));
    assert_eq!(st.selected_index, 0);
    st.handle_key(plain(KeyCode::Char('j')));
    st.handle_key(plain(KeyCode::Char('j')));
    assert_eq!(st.selected_index, 2);
    st.handle_key(plain(KeyCode::Char('j')));
    assert_eq!(st.selected_index, 0);
    st.handle_key(plain(KeyCode::Char('k')));
    assert_eq!(st.selected_index, 2);
    // with a modifier the key does nothing
    st.handle_key(ctrl(KeyCode::Up));
    assert_eq!(st.selected_index, 2);
}

#[test]
fn keys_are_ignored_while_waiting() {
    let mut st = listed();
    st.waiting_for_command = true;
    assert_eq!(st.handle_key(plain(KeyCode::Esc)), (false, vec![]));
    assert_eq!(st.handle_key(plain(KeyCode::Down)), (false, vec![]));
    assert_eq!(st.selected_index, 0);
}

#[test]
fn escape_and_ctrl_c_close_from_the_list() {
    let mut st = listed();
    assert_eq!(st.handle_key(plain(KeyCode::Esc)), (true, vec![Effect::CloseSelf]));
    assert_eq!(st.handle_key(ctrl(KeyCode::Char('c'))), (true, vec![Effect::CloseSelf]));
    assert_eq!(st.handle_key(plain(KeyCode::Other)), (true, vec![]));
}

#[test]
fn enter_opens_the_selected_worktree() {
    let mut st = listed();
    st.handle_key(plain(KeyCode::Down));
    let (redraw, effects) = st.handle_key(plain(KeyCode::Enter));
    assert!(redraw);
    assert_eq!(effects, vec![open("b", "/p/b"), Effect::CloseSelf]);
    let mut empty = State { initialized: true, ..State::default() };
    assert_eq!(empty.handle_key(plain(KeyCode::Enter)), (true, vec![]));
}

#[test]
fn typing_at_the_prompt_and_escaping() {
    let mut st = listed();
    st.error_message = Some(s("old"));
    st.handle_key(plain(KeyCode::Char('n')));
    assert_eq!(st.mode, Mode::Create);
    assert_eq!(st.error_message, None);
    for c in ['f', 'n', 'k', 'j', 'd', 'é'] {
        st.handle_key(plain(KeyCode::Char(c)));
    }
    assert_eq!(st.input, "fnkjd");
    st.handle_key(plain(KeyCode::Backspace));
    assert_eq!(st.input, "fnkj");
    st.handle_key(ctrl(KeyCode::Char('x')));
    assert_eq!(st.input, "fnkj");
    st.selected_index = 1;
    st.handle_key(plain(KeyCode::Esc));
    assert_eq!(st.mode, Mode::List);
    assert_eq!(st.input, "");
    assert_eq!(st.selected_index, 0);
}

#[test]
fn creating_a_worktree_runs_git_and_opens_it() {
    let mut st = listed();
    st.handle_key(plain(KeyCode::Char('n')));
    // Enter with an empty prompt does nothing
    assert_eq!(st.handle_key(plain(KeyCode::Enter)), (true, vec![]));
    for c in "topic".chars() {
        st.handle_key(plain(KeyCode::Char(c)));
    }
    let (_, effects) = st.handle_key(plain(KeyCode::Enter));
    assert!(st.waiting_for_command);
    let context = &[("command", "worktree-add"), ("tab_name", "topic"), ("path", "/p/topic")];
    assert_eq!(effects, vec![run(&["git", "worktree", "add", "/p/topic"], "/p/main", context)]);

    let (redraw, effects) = st.handle_command_result(Some(0), &[], &[], &ctx(context));
    assert!(redraw);
    assert!(!st.waiting_for_command);
    assert_eq!(effects, vec![open("topic", "/p/topic"), Effect::CloseSelf]);
}

#[test]
fn creating_without_a_repository_reports_errors() {
    let mut st = State { initialized: true, mode: Mode::Create, input: s("topic"), ..State::default() };
    assert_eq!(st.handle_key(plain(KeyCode::Enter)), (true, vec![]));
    assert_eq!(st.error_message.as_deref(), Some("Could not resolve path"));
    st.input = s("/abs/topic");
    assert_eq!(st.handle_key(plain(KeyCode::Enter)), (true, vec![]));
    assert!(!st.waiting_for_command);
    assert_eq!(st.error_message.as_deref(), Some("Could not determine Git repository directory"));
}

#[test]
fn failed_commands_show_their_exit_code() {
    let mut st = listed();
    st.waiting_for_command = true;
    st.handle_command_result(Some(128), &[], b"  fatal: oops \n", &ctx(&[("command", "worktree-add")]));
    assert_eq!(st.error_message.as_deref(), Some("Error (128): fatal: oops"));
    assert!(!st.waiting_for_command);
    st.handle_command_result(None, &[], &[], &ctx(&[("command", "worktree-list")]));
    assert_eq!(st.error_message.as_deref(), Some("Failed to launch Git"));
    st.waiting_for_command = true;
    assert_eq!(st.handle_command_result(Some(0), &[], &[], &ctx(&[("other", "x")])), (true, vec![]));
    assert!(!st.waiting_for_command);
}

#[test]
fn deleting_asks_for_confirmation_then_relists() {
    let mut st = listed();
    st.handle_key(plain(KeyCode::Char('d')));
    assert_eq!(st.mode, Mode::DeleteConfirm);
    st.handle_key(plain(KeyCode::Esc));
    assert_eq!(st.mode, Mode::List);
    st.handle_key(plain(KeyCode::Char('d')));
    let (_, effects) = st.handle_key(plain(KeyCode::Enter));
    assert_eq!(effects, vec![run(&["git", "worktree", "remove", "/p/a"], "/p/main", &[("command", "worktree-remove")])]);
    assert!(st.waiting_for_command);
    let (_, effects) = st.handle_command_result(Some(0), &[], &[], &ctx(&[("command", "worktree-remove")]));
    assert_eq!(st.mode, Mode::List);
    assert!(st.waiting_for_command);
    assert_eq!(
        effects,
        vec![run(&["git", "worktree", "list", "--porcelain"], "/p/main", &[("command", "worktree-list")])]
    );
    st.handle_command_result(
        Some(0),
        b"worktree /p/main\nbranch m\nworktree /p/b\ndetached\n",
        &[],
        &ctx(&[("command", "worktree-list")]),
    );
    assert!(!st.waiting_for_command);
    assert_eq!(st.worktrees, vec![wt("/p/b", None)]);
}

#[test]
fn delete_needs_a_worktree() {
    let mut st = State { initialized: true, ..State::default() };
    st.handle_key(plain(KeyCode::Char('d')));
    assert_eq!(st.mode, Mode::List);
}

fn layout(tab: usize, panes: &[(u32, bool, bool)]) -> HashMap<usize, Vec<PaneSummary>> {
    let mut m = HashMap::new();
    m.insert(
        tab,
        panes.iter().map(|&(id, is_plugin, is_focused)| PaneSummary { id, is_plugin, is_focused }).collect(),
    );
    m
}

#[test]
fn refresh_finds_the_repository_through_the_focused_pane() {
    let mut st = State::default();
    let effects = st.begin_render();
    assert!(effects.is_empty());
    assert!(!st.first_render && st.waiting_for_command && st.refresh_pending);
    assert!(st.begin_render().is_empty());

    let tabs = vec![TabSummary { position: 0, active: false }, TabSummary { position: 1, active: true }];
    assert_eq!(st.handle_tab_update(&tabs), (false, vec![]));
    assert_eq!(st.active_tab_position, Some(1));
    let (redraw, effects) = st.handle_pane_update(layout(1, &[(7, true, true), (3, false, false), (5, false, true)]));
    assert!(!redraw);
    assert_eq!(effects, vec![Effect::QueryPaneCwd { pane_id: 5 }]);

    let effects = st.handle_pane_cwd(5, Ok(s("/home/u/p/src")));
    assert!(!st.refresh_pending);
    assert_eq!(st.working_directory.as_deref(), Some("/home/u/p/src"));
    assert_eq!(effects, vec![Effect::QueryPanePid { pane_id: 5, cwd: s("/home/u/p/src") }]);

    let effects = st.handle_pane_pid(5, "/home/u/p/src", Ok(4242));
    assert_eq!(st.cwd_diagnostic.as_deref(), Some("pane=5 pid=4242 zellij_cwd=/home/u/p/src"));
    assert_eq!(
        effects,
        vec![run(
            &["sh", "-c", DISCOVERY_SCRIPT, "zellij-worktree", "4242"],
            "/home/u/p/src",
            &[("command", "rev-parse"), ("cwd_source", "process-tree")]
        )]
    );

    // the lookup through the process fails: tried again in the directory
    let (_, effects) = st.handle_command_result(
        Some(1),
        &[],
        b"no such process\n",
        &ctx(&[("command", "rev-parse"), ("cwd_source", "process-tree")]),
    );
    assert_eq!(
        st.cwd_diagnostic.as_deref(),
        Some("pane=5 pid=4242 zellij_cwd=/home/u/p/src | process_tree_error=no such process (Some(1))")
    );
    assert_eq!(
        effects,
        vec![run(
            &["git", "rev-parse", "--show-toplevel"],
            "/home/u/p/src",
            &[("command", "rev-parse"), ("cwd_source", "zellij")]
        )]
    );

    let (_, effects) = st.handle_command_result(
        Some(0),
        b"/home/u/p\n",
        &[],
        &ctx(&[("command", "rev-parse"), ("cwd_source", "zellij")]),
    );
    assert_eq!(st.repo_root.as_deref(), Some("/home/u/p"));
    assert_eq!(
        effects,
        vec![run(&["git", "worktree", "list", "--porcelain"], "/home/u/p", &[("command", "worktree-list")])]
    );
    st.handle_command_result(
        Some(0),
        b"worktree /home/u/p\nbranch refs/heads/main\n\nworktree /home/u/p-x\nbranch refs/heads/x\n",
        &[],
        &ctx(&[("command", "worktree-list")]),
    );
    assert!(st.initialized);
    assert!(!st.waiting_for_command);
    assert_eq!(st.worktrees.len(), 1);
}

#[test]
fn refresh_without_a_live_pid_runs_git_in_the_pane_directory() {
    let mut st = State { refresh_pending: true, waiting_for_command: true, ..State::default() };
    let effects = st.handle_pane_pid(2, "/w", Err(s("gone")));
    assert_eq!(st.cwd_diagnostic.as_deref(), Some("pane=2 pid=unknown zellij_cwd=/w"));
    assert_eq!(effects, vec![run(&["git", "rev-parse", "--show-toplevel"], "/w", &[("command", "rev-parse")])]);
    let effects = st.handle_pane_pid(2, "/w", Ok(0));
    assert_eq!(st.cwd_diagnostic.as_deref(), Some("pane=2 pid=unknown zellij_cwd=/w"));
    assert_eq!(effects.len(), 1);
}

#[test]
fn refresh_failures_are_reported() {
    let mut st = State { refresh_pending: true, waiting_for_command: true, active_tab_position: Some(0), ..State::default() };
    let (_, effects) = st.handle_pane_update(layout(0, &[(1, true, true)]));
    assert!(effects.is_empty());
    assert_eq!(st.error_message.as_deref(), Some("No focused terminal pane found"));
    assert!(!st.waiting_for_command && !st.refresh_pending);

    let mut st = State { refresh_pending: true, waiting_for_command: true, ..State::default() };
    st.handle_pane_cwd(4, Err(s("denied")));
    assert_eq!(st.error_message.as_deref(), Some("Could not determine focused pane working directory: denied"));

    let mut st = State { waiting_for_command: true, working_directory: Some(s("/tmp/x")), ..State::default() };
    st.handle_command_result(Some(128), &[], &[], &ctx(&[("command", "rev-parse")]));
    assert_eq!(
        st.error_message.as_deref(),
        Some("Focused pane directory is not inside a Git repository: /tmp/x")
    );
    let mut st = State { waiting_for_command: true, ..State::default() };
    st.handle_command_result(Some(1), &[], &[], &ctx(&[("command", "rev-parse")]));
    assert_eq!(
        st.error_message.as_deref(),
        Some("Focused pane directory is not inside a Git repository: the focused pane directory")
    );
    st.handle_command_result(None, &[], &[], &ctx(&[("command", "rev-parse")]));
    assert_eq!(st.error_message.as_deref(), Some("Failed to launch Git"));
    st.handle_command_result(Some(0), b"  \n", &[], &ctx(&[("command", "rev-parse")]));
    assert_eq!(st.error_message.as_deref(), Some("Could not determine git root"));
    st.handle_command_result(Some(2), &[], &[], &ctx(&[("command", "rev-parse"), ("cwd_source", "process-tree")]));
    assert_eq!(st.error_message.as_deref(), Some("Could not determine focused pane directory"));
}

#[test]
fn becoming_visible_refreshes_when_idle() {
    let mut st = listed();
    st.mode = Mode::Create;
    st.input = s("abc");
    let (redraw, effects) = st.handle_visible(true);
    assert!(redraw && effects.is_empty());
    assert_eq!(st.mode, Mode::List);
    assert!(st.worktrees.is_empty() && st.input.is_empty() && st.repo_root.is_none());
    assert!(st.waiting_for_command && st.refresh_pending && !st.initialized);
    let mut idle = listed();
    assert_eq!(idle.handle_visible(false), (true, vec![]));
    assert_eq!(idle.worktrees.len(), 3);
}

#[test]
fn load_takes_the_base_path() {
    let mut st = State::default();
    st.load(&ctx(&[("other", "1")]));
    assert_eq!(st.base_path, None);
    st.load(&ctx(&[("base_path", "~/projects")]));
    assert_eq!(st.base_path.as_deref(), Some("~/projects"));
}

fn remote(argv: &[&str], context: &[(&str, &str)]) -> Effect {
    Effect::RunCommand { argv: argv.iter().map(|a| s(a)).collect(), cwd: None, context: ctx(context) }
}

#[test]
fn ssh_mode_runs_everything_over_ssh() {
    let mut st = State::default();
    st.load(&ctx(&[("remote_host", "dev-vm"), ("remote_repo", "/home/r/my project")]));
    assert_eq!(st.remote_host.as_deref(), Some("dev-vm"));
    let effects = st.begin_render();
    assert_eq!(
        effects,
        vec![remote(
            &["ssh", "dev-vm", "git -C '/home/r/my project' 'rev-parse' '--show-toplevel'"],
            &[("command", "rev-parse"), ("cwd_source", "ssh")]
        )]
    );
    assert!(!st.refresh_pending && st.waiting_for_command);
    // tab and pane updates do not start a local lookup
    assert_eq!(st.handle_pane_update(layout(0, &[(1, false, true)])), (false, vec![]));

    let (_, effects) = st.handle_command_result(
        Some(0),
        b"/home/r/my project\n",
        &[],
        &ctx(&[("command", "rev-parse"), ("cwd_source", "ssh")]),
    );
    assert_eq!(st.repo_root.as_deref(), Some("/home/r/my project"));
    assert_eq!(
        effects,
        vec![remote(
            &["ssh", "dev-vm", "git -C '/home/r/my project' 'worktree' 'list' '--porcelain'"],
            &[("command", "worktree-list")]
        )]
    );
    st.handle_command_result(
        Some(0),
        b"worktree /home/r/my project\nbranch refs/heads/main\n\nworktree /home/r/it's\nbranch refs/heads/x\n",
        &[],
        &ctx(&[("command", "worktree-list")]),
    );
    assert_eq!(st.worktrees.len(), 1);

    let (_, effects) = st.handle_key(plain(KeyCode::Enter));
    assert_eq!(
        effects,
        vec![
            Effect::OpenTab {
                name: s("it's"),
                cwd: None,
                command: Some(vec![
                    s("ssh"),
                    s("-t"),
                    s("dev-vm"),
                    s("cd -- '/home/r/it'\\''s' && exec \"$SHELL\" -l"),
                ]),
            },
            Effect::CloseSelf,
        ]
    );

    // create: a branch name goes beside the remote repository
    st.handle_key(plain(KeyCode::Char('n')));
    for c in "feat".chars() {
        st.handle_key(plain(KeyCode::Char(c)));
    }
    let (_, effects) = st.handle_key(plain(KeyCode::Enter));
    assert_eq!(
        effects,
        vec![remote(
            &["ssh", "dev-vm", "git -C '/home/r/my project' 'worktree' 'add' '/home/r/feat'"],
            &[("command", "worktree-add"), ("tab_name", "feat"), ("path", "/home/r/feat")]
        )]
    );
    let (_, effects) = st.handle_command_result(
        Some(0),
        &[],
        &[],
        &ctx(&[("command", "worktree-add"), ("tab_name", "feat"), ("path", "/home/r/feat")]),
    );
    assert!(matches!(&effects[0], Effect::OpenTab { cwd: None, command: Some(_), .. }));

    // delete
    let mut st2 = State {
        mode: zellij_worktree::model::Mode::DeleteConfirm,
        repo_root: Some(s("/home/r/my project")),
        remote_host: Some(s("dev-vm")),
        remote_repo: Some(s("/home/r/my project")),
        initialized: true,
        worktrees: vec![wt("/home/r/x", None)],
        ..State::default()
    };
    let (_, effects) = st2.handle_key(plain(KeyCode::Enter));
    assert_eq!(
        effects,
        vec![remote(
            &["ssh", "dev-vm", "git -C '/home/r/my project' 'worktree' 'remove' '/home/r/x'"],
            &[("command", "worktree-remove")]
        )]
    );
}

#[test]
fn ssh_mode_failures_are_reported() {
    let mut st = State {
        remote_host: Some(s("h")),
        remote_repo: Some(s("/r")),
        waiting_for_command: true,
        ..State::default()
    };
    st.handle_command_result(Some(255), &[], b"ssh: connect refused\n", &ctx(&[("command", "rev-parse"), ("cwd_source", "ssh")]));
    assert_eq!(st.error_message.as_deref(), Some("Error (255): ssh: connect refused"));
    assert!(!st.waiting_for_command);
}

#[test]
fn ssh_mode_needs_both_settings() {
    let mut st = State::default();
    st.load(&ctx(&[("remote_host", "h")]));
    st.begin_render();
    assert!(st.refresh_pending);
}

#[test]
fn workbench_command_opens_worktrees() {
    let mut st = listed();
    st.load(&ctx(&[("workbench_command", "/opt/wb/bin/surface-workbench")]));
    let (_, effects) = st.handle_key(plain(KeyCode::Enter));
    assert_eq!(
        effects,
        vec![
            Effect::OpenTab {
                name: s("a"),
                cwd: Some(s("/p/a")),
                command: Some(vec![s("/opt/wb/bin/surface-workbench")]),
            },
            Effect::CloseSelf,
        ]
    );
}

#[test]
fn discovery_command_is_built_for_any_pid() {
    let e = State::launch_repository_discovery(-3, s("/w"), ctx(&[("command", "rev-parse")]));
    assert_eq!(e, run(&["sh", "-c", DISCOVERY_SCRIPT, "zellij-worktree", "-3"], "/w", &[("command", "rev-parse")]));
    let e = State::launch_git_command(vec![s("status")], s("/w"), vec![]);
    assert_eq!(e, run(&["git", "status"], "/w", &[]));
}
