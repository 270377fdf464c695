//! Properties of the plugin that span its functions, stated over the spec
//! functions that their contracts use, and proved.

use vstd::prelude::*;
use crate::model::{
    lookup, EffectView, KeyCode, KeyPress, Mode, Modifiers, PaneSummary, TabSummary,
};
use crate::state::{
    git_launch, open_worktree, remote_git, remote_root_context, remote_target, toplevel_args,
    cleared, command_finished, initial_state, key_pressed, list_args, list_context, moved_down,
    moved_up, pane_cwd_reported, pane_pid_reported, panes_updated, refresh_requested,
    refresh_started, render_started, resolved_path, selection_in_range, tab_name, tabs_updated,
    visibility_changed, StateView,
};
use crate::text::{shell_quote, shell_words};
use crate::worktree::{listed_worktrees, scan_records};

verus! {

/// No modifier held.
pub open spec fn no_modifiers() -> Modifiers {
    Modifiers { ctrl: false, alt: false, shift: false, super_key: false }
}

/// A key pressed without modifiers.
pub open spec fn plain_key(code: KeyCode) -> KeyPress {
    KeyPress { code, modifiers: no_modifiers() }
}

/// While a command is waited for, a key changes nothing, asks nothing of the
/// host and does not redraw.
pub proof fn keys_ignored_while_waiting(s: StateView, key: KeyPress)
    requires
        s.waiting_for_command,
    ensures
        key_pressed(s, key) == (s, Seq::<EffectView>::empty(), false),
{
}

/// In a non-empty list, moving the selection up and then down (or down and
/// then up) comes back to the same worktree, wrapping around at either end.
pub proof fn up_and_down_cancel(s: StateView)
    requires
        0 < s.worktrees.len() <= usize::MAX,
        selection_in_range(s),
    ensures
        moved_down(moved_up(s)) == s,
        moved_up(moved_down(s)) == s,
{
}

/// Moving up from the first worktree selects the last; moving down from the
/// last selects the first.
pub proof fn selection_wraps_around(s: StateView)
    requires
        0 < s.worktrees.len() <= usize::MAX,
    ensures
        s.selected_index == 0 ==> moved_up(s).selected_index == s.worktrees.len() - 1,
        s.selected_index == s.worktrees.len() - 1 ==> moved_down(s).selected_index == 0,
{
}

/// Esc at the prompt or at the delete confirmation goes back to the list,
/// with the prompt and the messages cleared, and asks nothing of the host.
pub proof fn escape_returns_to_list(s: StateView)
    requires
        !s.waiting_for_command,
        s.mode != Mode::List,
    ensures
        key_pressed(s, plain_key(KeyCode::Esc)) == (
            cleared(StateView { mode: Mode::List, ..s }),
            Seq::<EffectView>::empty(),
            true,
        ),
        key_pressed(s, plain_key(KeyCode::Esc)).0.input.len() == 0,
        key_pressed(s, plain_key(KeyCode::Esc)).0.error_message is None,
{
}

/// At the prompt, typing an ASCII character and then Backspace leaves the
/// state as it was.
pub proof fn backspace_undoes_typing(s: StateView, c: char)
    requires
        !s.waiting_for_command,
        s.mode == Mode::Create,
        (c as u32) < 128,
    ensures
        key_pressed(s, plain_key(KeyCode::Char(c))).0.input == s.input.push(c),
        key_pressed(key_pressed(s, plain_key(KeyCode::Char(c))).0, plain_key(KeyCode::Backspace)).0
            == s,
{
    let t = key_pressed(s, plain_key(KeyCode::Char(c))).0;
    assert(t.input.drop_last() =~= s.input);
    assert(StateView { input: t.input.drop_last(), ..t } =~= s);
}

/// A path that starts with `/` or `~` is where the worktree goes, unchanged.
pub proof fn absolute_paths_are_kept(input: Seq<char>, root: Option<Seq<char>>, base: Option<Seq<char>>)
    requires
        "/"@.is_prefix_of(input) || "~"@.is_prefix_of(input),
    ensures
        resolved_path(input, root, base) == Some(input),
{
}

/// In the worktree list, a worktree is marked current exactly when its path
/// is the repository root.
pub proof fn current_iff_repository_root(lines: Seq<Seq<char>>, root: Option<Seq<char>>, i: int)
    requires
        0 <= i < listed_worktrees(lines, root).len(),
    ensures
        listed_worktrees(lines, root)[i].is_current <==> root == Some(
            listed_worktrees(lines, root)[i].path,
        ),
{
    scan_marks_current(lines, None, false, false, root);
}

proof fn scan_marks_current(
    lines: Seq<Seq<char>>,
    current: Option<Seq<char>>,
    in_main: bool,
    seen: bool,
    root: Option<Seq<char>>,
)
    ensures
        forall|i: int|
            0 <= i < scan_records(lines, current, in_main, seen, root).len() ==> (#[trigger] scan_records(
                lines,
                current,
                in_main,
                seen,
                root,
            )[i]).is_current == (root == Some(scan_records(lines, current, in_main, seen, root)[i].path)),
    decreases lines.len(),
{
    if lines.len() > 0 {
        let line = lines[0];
        let rest = lines.drop_first();
        if "worktree "@.is_prefix_of(line) {
            scan_marks_current(rest, Some(line.skip("worktree "@.len() as int)), !seen, true, root);
        } else {
            scan_marks_current(rest, None, false, seen, root);
            scan_marks_current(rest, None, in_main, seen, root);
            scan_marks_current(rest, current, in_main, seen, root);
        }
    }
}

/// Adding a worktree from the prompt: Enter asks `git worktree add <path>`
/// in the repository (over `ssh` in SSH mode), and the context it attaches
/// makes a successful result open the new worktree in a tab named after it,
/// as every worktree is opened, and close the plugin.
pub proof fn added_worktree_opens_in_new_tab(
    s: StateView,
    path: Seq<char>,
    root: Seq<char>,
    lines: Seq<Seq<char>>,
    stdout: Seq<char>,
    stderr: Seq<char>,
)
    requires
        !s.waiting_for_command,
        s.mode == Mode::Create,
        s.input.len() > 0,
        s.repo_root == Some(root),
        resolved_path(s.input, s.repo_root, s.base_path) == Some(path),
    ensures
        ({
            let (t, e, redraw) = key_pressed(s, plain_key(KeyCode::Enter));
            &&& redraw
            &&& t.waiting_for_command
            &&& e.len() == 1
            &&& e[0] matches EffectView::RunCommand { context, .. }
                && git_launch(s, seq!["worktree"@, "add"@, path], context) == Ok::<EffectView, Seq<char>>(e[0])
                && command_finished(t, Some(0i32), lines, stdout, stderr, context) == (
                StateView { waiting_for_command: false, ..t },
                seq![open_worktree(t, tab_name(path), path), EffectView::CloseSelf],
            )
        }),
{
    reveal_strlit("command");
    reveal_strlit("tab_name");
    reveal_strlit("path");
    reveal_strlit("rev-parse");
    reveal_strlit("worktree-list");
    reveal_strlit("worktree-add");
    let (t, e, redraw) = key_pressed(s, plain_key(KeyCode::Enter));
    let context = seq![("command"@, "worktree-add"@), ("tab_name"@, tab_name(path)), ("path"@, path)];
    reveal_with_fuel(lookup, 4);
    assert("command"@[0] != "tab_name"@[0] && "command"@[0] != "path"@[0] && "tab_name"@[0] != "path"@[0]);
    assert("worktree-add"@[0] != "rev-parse"@[0] && "worktree-add"@[9] != "worktree-list"@[9]);
    assert(lookup(context, "command"@) == Some("worktree-add"@));
    assert(lookup(context, "tab_name"@) == Some(tab_name(path)));
    assert(lookup(context, "path"@) == Some(path));
}

/// Deleting the selected worktree on this machine: Enter at the
/// confirmation asks `git worktree remove <path>` in the repository, and a
/// successful result goes back to a cleared list and reads the worktrees again.
pub proof fn removed_worktree_relists(
    s: StateView,
    root: Seq<char>,
    lines: Seq<Seq<char>>,
    stdout: Seq<char>,
    stderr: Seq<char>,
)
    requires
        !s.waiting_for_command,
        s.mode == Mode::DeleteConfirm,
        s.selected_index < s.worktrees.len(),
        s.repo_root == Some(root),
        remote_target(s) is None,
    ensures
        ({
            let (t, e, redraw) = key_pressed(s, plain_key(KeyCode::Enter));
            &&& t.waiting_for_command
            &&& e.len() == 1
            &&& e[0] matches EffectView::RunCommand { argv, cwd, context }
                && argv == seq!["git"@, "worktree"@, "remove"@, s.worktrees[s.selected_index as int].path]
                && cwd == Some(root)
                && command_finished(t, Some(0i32), lines, stdout, stderr, context) == (
                StateView {
                    mode: Mode::List,
                    input: Seq::empty(),
                    error_message: None,
                    cwd_diagnostic: None,
                    selected_index: 0,
                    waiting_for_command: true,
                    ..t
                },
                seq![
                    EffectView::RunCommand {
                        argv: seq!["git"@, "worktree"@, "list"@, "--porcelain"@],
                        cwd: Some(root),
                        context: list_context(),
                    },
                ],
            )
        }),
{
    reveal_strlit("rev-parse");
    reveal_strlit("worktree-list");
    reveal_strlit("worktree-add");
    reveal_strlit("worktree-remove");
    assert("worktree-remove"@[0] != "rev-parse"@[0] && "worktree-remove"@[9] != "worktree-list"@[9]
        && "worktree-remove"@[9] != "worktree-add"@[9]);
    let path = s.worktrees[s.selected_index as int].path;
    assert(seq!["git"@] + seq!["worktree"@, "remove"@, path] =~= seq!["git"@, "worktree"@, "remove"@, path]);
    assert(seq!["git"@] + list_args() =~= seq!["git"@, "worktree"@, "list"@, "--porcelain"@]);
    let (t, e, redraw) = key_pressed(s, plain_key(KeyCode::Enter));
    let u = cleared(StateView { mode: Mode::List, ..StateView { waiting_for_command: false, ..t } });
    assert(StateView { waiting_for_command: true, ..u } =~= StateView {
        mode: Mode::List,
        input: Seq::empty(),
        error_message: None,
        cwd_diagnostic: None,
        selected_index: 0,
        waiting_for_command: true,
        ..t
    });
}

/// Finding the repository on this machine: when the host gives no live process id for the
/// focused pane, `git rev-parse --show-toplevel` runs in the pane's working
/// directory, and a successful answer with a non-empty (trimmed) output
/// makes that output the repository root and asks for the worktree list there.
pub proof fn found_root_lists_worktrees(
    s: StateView,
    pane_id: u32,
    dir: Seq<char>,
    error: Seq<char>,
    lines: Seq<Seq<char>>,
    stdout: Seq<char>,
    stderr: Seq<char>,
)
    requires
        stdout.len() > 0,
        remote_target(s) is None,
    ensures
        ({
            let (t, e) = pane_pid_reported(s, pane_id, dir, Err(error));
            let root = stdout;
            &&& e.len() == 1
            &&& e[0] matches EffectView::RunCommand { argv, cwd, context }
                && argv == seq!["git"@, "rev-parse"@, "--show-toplevel"@] && cwd == Some(dir)
                && command_finished(t, Some(0i32), lines, stdout, stderr, context) == (
                StateView { repo_root: Some(root), ..t },
                seq![
                    EffectView::RunCommand {
                        argv: seq!["git"@, "worktree"@, "list"@, "--porcelain"@],
                        cwd: Some(root),
                        context: list_context(),
                    },
                ],
            )
        }),
{
    assert(seq!["git"@] + toplevel_args() =~= seq!["git"@, "rev-parse"@, "--show-toplevel"@]);
    assert(seq!["git"@] + list_args() =~= seq!["git"@, "worktree"@, "list"@, "--porcelain"@]);
}

/// SSH mode: a refresh looks for the repository root with
/// `git rev-parse --show-toplevel` run over `ssh` in the configured remote
/// repository, and nothing runs on this machine; a successful, non-empty
/// answer becomes the repository root, and the worktree list is then read
/// over `ssh` too.
pub proof fn ssh_mode_refreshes_remotely(
    s: StateView,
    host: Seq<char>,
    repo: Seq<char>,
    lines: Seq<Seq<char>>,
    stdout: Seq<char>,
    stderr: Seq<char>,
)
    requires
        remote_target(s) == Some((host, repo)),
        stdout.len() > 0,
    ensures
        ({
            let (t, e) = refresh_requested(s);
            &&& e == seq![remote_git(host, repo, toplevel_args(), remote_root_context())]
            &&& t.waiting_for_command
            &&& command_finished(t, Some(0i32), lines, stdout, stderr, remote_root_context()) == (
                StateView { repo_root: Some(stdout), ..t },
                seq![remote_git(host, repo, list_args(), list_context())],
            )
        }),
{
    reveal_strlit("command");
    reveal_strlit("rev-parse");
    reveal_with_fuel(lookup, 2);
}

/// SSH mode: every `git` command the plugin runs in the repository (to list,
/// add or remove worktrees) runs over `ssh` on the configured host, in the
/// configured remote repository.
pub proof fn ssh_mode_runs_git_remotely(
    s: StateView,
    host: Seq<char>,
    repo: Seq<char>,
    root: Seq<char>,
    args: Seq<Seq<char>>,
    context: Seq<(Seq<char>, Seq<char>)>,
)
    requires
        remote_target(s) == Some((host, repo)),
        s.repo_root == Some(root),
    ensures
        git_launch(s, args, context) == Ok::<EffectView, Seq<char>>(
            EffectView::RunCommand {
                argv: seq!["ssh"@, host, "git -C "@ + shell_quote(repo) + shell_words(args)],
                cwd: None,
                context,
            },
        ),
{
}

/// SSH mode: Enter on a worktree opens a new local tab whose only command
/// is `ssh -t <host>` running a login shell in the worktree's directory.
pub proof fn ssh_mode_opens_remote_shell(s: StateView, host: Seq<char>, repo: Seq<char>)
    requires
        remote_target(s) == Some((host, repo)),
        !s.waiting_for_command,
        s.mode == Mode::List,
        s.selected_index < s.worktrees.len(),
    ensures
        ({
            let path = s.worktrees[s.selected_index as int].path;
            key_pressed(s, plain_key(KeyCode::Enter)) == (
                s,
                seq![
                    EffectView::OpenTab {
                        name: tab_name(path),
                        cwd: None,
                        command: Some(
                            seq![
                                "ssh"@,
                                "-t"@,
                                host,
                                "cd -- "@ + shell_quote(path) + " && exec \"$SHELL\" -l"@,
                            ],
                        ),
                    },
                    EffectView::CloseSelf,
                ],
                true,
            )
        }),
{
}

/// Outside SSH mode, with a workbench command configured, Enter on a
/// worktree opens a new tab in the worktree's directory running that command.
pub proof fn workbench_opens_worktrees(s: StateView, workbench: Seq<char>)
    requires
        remote_target(s) is None,
        s.workbench_command == Some(workbench),
        !s.waiting_for_command,
        s.mode == Mode::List,
        s.selected_index < s.worktrees.len(),
    ensures
        ({
            let path = s.worktrees[s.selected_index as int].path;
            key_pressed(s, plain_key(KeyCode::Enter)) == (
                s,
                seq![
                    EffectView::OpenTab {
                        name: tab_name(path),
                        cwd: Some(path),
                        command: Some(seq![workbench]),
                    },
                    EffectView::CloseSelf,
                ],
                true,
            )
        }),
{
}

/// The selection points into a non-empty list at the start.
pub proof fn initial_selection_in_range()
    ensures
        selection_in_range(initial_state()),
{
}

proof fn refresh_keeps_selection(s: StateView)
    requires
        selection_in_range(s),
    ensures
        selection_in_range(refresh_started(s).0),
        selection_in_range(refresh_requested(s).0),
{
}

/// Every key press keeps the selection inside a non-empty list.
pub proof fn key_keeps_selection(s: StateView, key: KeyPress)
    requires
        selection_in_range(s),
    ensures
        selection_in_range(key_pressed(s, key).0),
{
}

/// Every command result keeps the selection inside a non-empty list.
pub proof fn command_result_keeps_selection(
    s: StateView,
    exit: Option<i32>,
    lines: Seq<Seq<char>>,
    stdout: Seq<char>,
    stderr: Seq<char>,
    context: Seq<(Seq<char>, Seq<char>)>,
)
    requires
        selection_in_range(s),
    ensures
        selection_in_range(command_finished(s, exit, lines, stdout, stderr, context).0),
{
}

/// Every report of the host keeps the selection inside a non-empty list.
pub proof fn host_reports_keep_selection(
    s: StateView,
    tabs: Seq<TabSummary>,
    layout: Map<usize, Vec<PaneSummary>>,
    visible: bool,
    pane_id: u32,
    cwd: Result<Seq<char>, Seq<char>>,
    dir: Seq<char>,
    pid: Result<i32, Seq<char>>,
)
    requires
        selection_in_range(s),
    ensures
        selection_in_range(tabs_updated(s, tabs).0),
        selection_in_range(panes_updated(s, layout).0),
        selection_in_range(visibility_changed(s, visible).0),
        selection_in_range(pane_cwd_reported(s, pane_id, cwd).0),
        selection_in_range(pane_pid_reported(s, pane_id, dir, pid).0),
        selection_in_range(render_started(s).0),
{
    refresh_keeps_selection(StateView { active_tab_position: crate::model::first_active_tab(tabs), ..s });
    refresh_keeps_selection(StateView { pane_manifest: Some(layout), ..s });
    refresh_keeps_selection(s);
    refresh_keeps_selection(StateView { first_render: false, ..s });
}

} // verus!
