//! The plugin's state and the transitions that each event makes of it.
//!
//! Every handler is an exec function whose `ensures` equates the new state,
//! and the effects it asks for, with a spec function of the old state and
//! the event. The host calls themselves are left to the caller, which
//! performs the returned [`Effect`]s in order.

use vstd::prelude::*;
use vstd::string::*;
use crate::model::{
    active_tab, context_get, effect_views, first_active_tab, focused_pane,
    focused_terminal_pane, lookup, pair_texts, text_or_empty, texts, CommandContext, Effect,
    EffectView, KeyCode, KeyPress, Mode, PaneLayout, PaneSummary, TabSummary,
};
use crate::text::{
    shell_quote, shell_quoted, shell_words,
    decimal, decimal_text, decode_lossy, file_name_of, has_prefix, join_path, opt_text, owned,
    parent_path, path_file_name, path_join, path_parent, split_lines, text_lines, trim_text,
    trimmed, utf8_lossy,
};
use crate::worktree::{
    line_texts, listed_worktrees, scan_worktree_lines, worktree_views, WorktreeInfo,
    WorktreeView,
};

verus! {

/// The shell script that finds the repository of the process in the
/// foreground of a pane: it asks `ps` for the terminal's foreground process
/// group of the pane's process and runs `git rev-parse --show-toplevel` in
/// that process's working directory.
pub const DISCOVERY_SCRIPT: &'static str = "pane_pid=$1; target_pid=$(ps -o tpgid= -p \"$pane_pid\" 2>/dev/null); set -- $target_pid; target_pid=${1:-$pane_pid}; [ \"$target_pid\" -gt 0 ] 2>/dev/null || target_pid=$pane_pid; exec git -C /proc/$target_pid/cwd rev-parse --show-toplevel";

/// The state of the plugin.
pub struct State {
    pub mode: Mode,
    /// What has been typed at the create prompt.
    pub input: String,
    /// The worktrees listed, without the main one.
    pub worktrees: Vec<WorktreeInfo>,
    /// The index of the selected worktree.
    pub selected_index: usize,
    pub error_message: Option<String>,
    /// How the repository was found, shown above everything else.
    pub cwd_diagnostic: Option<String>,
    /// Whether a command is running whose result the plugin waits for.
    pub waiting_for_command: bool,
    /// The top level of the repository.
    pub repo_root: Option<String>,
    /// The working directory of the focused pane.
    pub working_directory: Option<String>,
    /// Where new worktrees named by a branch go, when configured.
    pub base_path: Option<String>,
    /// Whether the worktree list has been read.
    pub initialized: bool,
    pub first_render: bool,
    /// Whether a refresh waits for the tab and pane layout to be known.
    pub refresh_pending: bool,
    pub active_tab_position: Option<usize>,
    pub pane_manifest: Option<PaneLayout>,
    /// The machine that holds the worktrees, in SSH mode.
    pub remote_host: Option<String>,
    /// A worktree of the repository on the remote machine, in SSH mode.
    pub remote_repo: Option<String>,
    /// The command that a worktree is opened with, when configured.
    pub workbench_command: Option<String>,
}

/// The mathematical value of a [`State`].
#[verifier::ext_equal]
pub struct StateView {
    pub mode: Mode,
    pub input: Seq<char>,
    pub worktrees: Seq<WorktreeView>,
    pub selected_index: usize,
    pub error_message: Option<Seq<char>>,
    pub cwd_diagnostic: Option<Seq<char>>,
    pub waiting_for_command: bool,
    pub repo_root: Option<Seq<char>>,
    pub working_directory: Option<Seq<char>>,
    pub base_path: Option<Seq<char>>,
    pub initialized: bool,
    pub first_render: bool,
    pub refresh_pending: bool,
    pub active_tab_position: Option<usize>,
    pub pane_manifest: Option<Map<usize, Vec<PaneSummary>>>,
    pub remote_host: Option<Seq<char>>,
    pub remote_repo: Option<Seq<char>>,
    pub workbench_command: Option<Seq<char>>,
}

impl View for State {
    type V = StateView;

    open spec fn view(&self) -> StateView {
        StateView {
            mode: self.mode,
            input: self.input@,
            worktrees: worktree_views(self.worktrees@),
            selected_index: self.selected_index,
            error_message: opt_text(self.error_message),
            cwd_diagnostic: opt_text(self.cwd_diagnostic),
            waiting_for_command: self.waiting_for_command,
            repo_root: opt_text(self.repo_root),
            working_directory: opt_text(self.working_directory),
            base_path: opt_text(self.base_path),
            initialized: self.initialized,
            first_render: self.first_render,
            refresh_pending: self.refresh_pending,
            active_tab_position: self.active_tab_position,
            pane_manifest: match self.pane_manifest {
                Some(m) => Some(m@),
                None => None,
            },
            remote_host: opt_text(self.remote_host),
            remote_repo: opt_text(self.remote_repo),
            workbench_command: opt_text(self.workbench_command),
        }
    }
}

/// The state of a plugin that has just been loaded.
pub open spec fn initial_state() -> StateView {
    StateView {
        mode: Mode::List,
        input: Seq::empty(),
        worktrees: Seq::empty(),
        selected_index: 0,
        error_message: None,
        cwd_diagnostic: None,
        waiting_for_command: false,
        repo_root: None,
        working_directory: None,
        base_path: None,
        initialized: false,
        first_render: true,
        refresh_pending: false,
        active_tab_position: None,
        pane_manifest: None,
        remote_host: None,
        remote_repo: None,
        workbench_command: None,
    }
}

/// The host and the repository path of SSH mode, when both are configured.
pub open spec fn remote_target(s: StateView) -> Option<(Seq<char>, Seq<char>)> {
    match (s.remote_host, s.remote_repo) {
        (Some(host), Some(repo)) => Some((host, repo)),
        _ => None,
    }
}

/// The shell command line that runs `git` with `args` in `repo` on the
/// remote machine.
pub open spec fn remote_git_line(repo: Seq<char>, args: Seq<Seq<char>>) -> Seq<char> {
    "git -C "@ + shell_quote(repo) + shell_words(args)
}

/// The command that runs `git` with `args` over `ssh` on `host`, in `repo`.
pub open spec fn remote_git(
    host: Seq<char>,
    repo: Seq<char>,
    args: Seq<Seq<char>>,
    context: Seq<(Seq<char>, Seq<char>)>,
) -> EffectView {
    EffectView::RunCommand { argv: seq!["ssh"@, host, remote_git_line(repo, args)], cwd: None, context }
}

/// The command that runs `git` with `args` in `cwd` on this machine.
pub open spec fn local_git(
    cwd: Seq<char>,
    args: Seq<Seq<char>>,
    context: Seq<(Seq<char>, Seq<char>)>,
) -> EffectView {
    EffectView::RunCommand { argv: seq!["git"@] + args, cwd: Some(cwd), context }
}

/// The command that looks for the repository through the foreground
/// process of the pane whose process is `pane_pid`, in `cwd` should the
/// process have none.
pub open spec fn repository_discovery(
    pane_pid: i32,
    cwd: Seq<char>,
    context: Seq<(Seq<char>, Seq<char>)>,
) -> EffectView {
    EffectView::RunCommand {
        argv: seq!["sh"@, "-c"@, DISCOVERY_SCRIPT@, "zellij-worktree"@, decimal(pane_pid as int)],
        cwd: Some(cwd),
        context,
    }
}

/// How the worktree at `path` is opened in a new tab named `name`: in SSH
/// mode the tab runs a login shell in `path` on the remote machine over
/// `ssh -t`; otherwise the tab starts in `path`, running the workbench
/// command when one is configured.
pub open spec fn open_worktree(s: StateView, name: Seq<char>, path: Seq<char>) -> EffectView {
    match remote_target(s) {
        Some((host, _repo)) => EffectView::OpenTab {
            name,
            cwd: None,
            command: Some(
                seq![
                    "ssh"@,
                    "-t"@,
                    host,
                    "cd -- "@ + shell_quote(path) + " && exec \"$SHELL\" -l"@,
                ],
            ),
        },
        None => match s.workbench_command {
            Some(w) => EffectView::OpenTab { name, cwd: Some(path), command: Some(seq![w]) },
            None => EffectView::OpenTab { name, cwd: Some(path), command: None },
        },
    }
}

/// The selection points into the list whenever the list is not empty.
pub open spec fn selection_in_range(s: StateView) -> bool {
    s.worktrees.len() == 0 || s.selected_index < s.worktrees.len()
}

/// `s` with the prompt, the messages, the waiting flag and the selection reset.
pub open spec fn cleared(s: StateView) -> StateView {
    StateView {
        input: Seq::empty(),
        error_message: None,
        cwd_diagnostic: None,
        waiting_for_command: false,
        selected_index: 0,
        ..s
    }
}

/// `s` after a refresh failed with `message`.
pub open spec fn refresh_failed(s: StateView, message: Seq<char>) -> StateView {
    StateView { refresh_pending: false, waiting_for_command: false, error_message: Some(message), ..s }
}

/// The directory that holds `root`, or `.` when it has none.
pub open spec fn parent_or_dot(root: Seq<char>) -> Seq<char> {
    match path_parent(root) {
        Some(p) => p,
        None => "."@,
    }
}

/// Where the worktree for `input` goes: absolute paths (`/`, `~`) as they
/// are; `./` and `../` paths joined to the repository root; branch names
/// under the base path when one is configured, else beside the repository.
pub open spec fn resolved_path(
    input: Seq<char>,
    root: Option<Seq<char>>,
    base: Option<Seq<char>>,
) -> Option<Seq<char>> {
    if "/"@.is_prefix_of(input) || "~"@.is_prefix_of(input) {
        Some(input)
    } else if "./"@.is_prefix_of(input) || "../"@.is_prefix_of(input) {
        match root {
            Some(r) => Some(path_join(r, input)),
            None => None,
        }
    } else {
        match base {
            Some(b) => Some(b + "/"@ + input),
            None => match root {
                Some(r) => Some(parent_or_dot(r) + "/"@ + input),
                None => None,
            },
        }
    }
}

/// The name of the tab opened for a worktree at `path`: its last component,
/// or `worktree` when it has none.
pub open spec fn tab_name(path: Seq<char>) -> Seq<char> {
    match path_file_name(path) {
        Some(n) => n,
        None => "worktree"@,
    }
}

/// The command that runs `git` with `args` in the repository (over `ssh`
/// in the configured remote repository in SSH mode, else in the repository
/// root), or the error when the repository is not known.
pub open spec fn git_launch(
    s: StateView,
    args: Seq<Seq<char>>,
    context: Seq<(Seq<char>, Seq<char>)>,
) -> Result<EffectView, Seq<char>> {
    match s.repo_root {
        Some(root) => match remote_target(s) {
            Some((host, repo)) => Ok(remote_git(host, repo, args, context)),
            None => Ok(local_git(root, args, context)),
        },
        None => Err("Could not determine Git repository directory"@),
    }
}

/// `s` after asking for `git` with `args`: the command, or, when the
/// repository is not known, no command and the error, with nothing waited for.
pub open spec fn git_requested(
    s: StateView,
    args: Seq<Seq<char>>,
    context: Seq<(Seq<char>, Seq<char>)>,
) -> (StateView, Seq<EffectView>) {
    match git_launch(s, args, context) {
        Ok(e) => (s, seq![e]),
        Err(m) => (StateView { waiting_for_command: false, error_message: Some(m), ..s }, Seq::empty()),
    }
}

/// The arguments that list the worktrees.
pub open spec fn list_args() -> Seq<Seq<char>> {
    seq!["worktree"@, "list"@, "--porcelain"@]
}

/// The context of the command that lists the worktrees.
pub open spec fn list_context() -> Seq<(Seq<char>, Seq<char>)> {
    seq![("command"@, "worktree-list"@)]
}

/// The context of the command that looks for the root of the remote repository.
pub open spec fn remote_root_context() -> Seq<(Seq<char>, Seq<char>)> {
    seq![("command"@, "rev-parse"@), ("cwd_source"@, "ssh"@)]
}

/// The start of a pending refresh: in SSH mode, `git rev-parse
/// --show-toplevel` over `ssh` in the remote repository; otherwise, once the
/// active tab and the pane layout are known, a query for the working
/// directory of the focused terminal pane, or a failed refresh when the tab
/// has none.
pub open spec fn refresh_started(s: StateView) -> (StateView, Seq<EffectView>) {
    if !s.refresh_pending {
        (s, Seq::empty())
    } else if let Some((host, repo)) = remote_target(s) {
        (
            StateView { refresh_pending: false, ..s },
            seq![remote_git(host, repo, toplevel_args(), remote_root_context())],
        )
    } else {
        match s.active_tab_position {
            None => (s, Seq::empty()),
            Some(tab) => match s.pane_manifest {
                None => (s, Seq::empty()),
                Some(layout) => match focused_pane(tab, layout) {
                    None => (refresh_failed(s, "No focused terminal pane found"@), Seq::empty()),
                    Some(id) => (s, seq![EffectView::QueryPaneCwd { pane_id: id }]),
                },
            },
        }
    }
}

/// A new refresh: everything known of the repository is forgotten, the
/// plugin waits, and the refresh starts if it can.
pub open spec fn refresh_requested(s: StateView) -> (StateView, Seq<EffectView>) {
    refresh_started(
        StateView {
            initialized: false,
            repo_root: None,
            working_directory: None,
            worktrees: Seq::empty(),
            error_message: None,
            waiting_for_command: true,
            refresh_pending: true,
            mode: Mode::List,
            input: Seq::empty(),
            ..s
        },
    )
}

/// `s` with the selection moved one up, from the first to the last.
pub open spec fn moved_up(s: StateView) -> StateView {
    if s.worktrees.len() == 0 {
        s
    } else if s.selected_index > 0 {
        StateView { selected_index: (s.selected_index - 1) as usize, ..s }
    } else {
        StateView { selected_index: (s.worktrees.len() - 1) as usize, ..s }
    }
}

/// `s` with the selection moved one down, from the last to the first.
pub open spec fn moved_down(s: StateView) -> StateView {
    if s.worktrees.len() == 0 {
        s
    } else if s.selected_index < s.worktrees.len() - 1 {
        StateView { selected_index: (s.selected_index + 1) as usize, ..s }
    } else {
        StateView { selected_index: 0, ..s }
    }
}

/// What Enter does: in the list, open the selected worktree in a new tab and
/// close; at the prompt, ask `git` to add the worktree where the input
/// resolves to; at the confirmation, ask `git` to remove the selected worktree.
pub open spec fn enter_pressed(s: StateView) -> (StateView, Seq<EffectView>) {
    match s.mode {
        Mode::List => {
            if s.selected_index < s.worktrees.len() {
                let path = s.worktrees[s.selected_index as int].path;
                (s, seq![open_worktree(s, tab_name(path), path), EffectView::CloseSelf])
            } else {
                (s, Seq::empty())
            }
        },
        Mode::Create => {
            if s.input.len() == 0 {
                (s, Seq::empty())
            } else {
                match resolved_path(s.input, s.repo_root, s.base_path) {
                    Some(path) => git_requested(
                        StateView { waiting_for_command: true, error_message: None, ..s },
                        seq!["worktree"@, "add"@, path],
                        seq![
                            ("command"@, "worktree-add"@),
                            ("tab_name"@, tab_name(path)),
                            ("path"@, path),
                        ],
                    ),
                    None => (
                        StateView {
                            error_message: Some("Could not resolve path"@ + text_or_empty(s.repo_root)),
                            ..s
                        },
                        Seq::empty(),
                    ),
                }
            }
        },
        Mode::DeleteConfirm => {
            if s.selected_index < s.worktrees.len() {
                let path = s.worktrees[s.selected_index as int].path;
                git_requested(
                    StateView { waiting_for_command: true, error_message: None, ..s },
                    seq!["worktree"@, "remove"@, path],
                    seq![("command"@, "worktree-remove"@)],
                )
            } else {
                (s, Seq::empty())
            }
        },
    }
}

/// What a character key does: Ctrl+c closes; in the list, `n` opens the
/// prompt, `d` asks to delete the selection, `k` and `j` move it; at the
/// prompt an ASCII character without modifiers is typed.
pub open spec fn char_pressed(s: StateView, c: char, key: KeyPress) -> (StateView, Seq<EffectView>) {
    let plain = key.modifiers.spec_none();
    if c == 'c' && key.modifiers.ctrl {
        (s, seq![EffectView::CloseSelf])
    } else if c == 'n' && plain && s.mode == Mode::List {
        (StateView { mode: Mode::Create, input: Seq::empty(), error_message: None, ..s }, Seq::empty())
    } else if c == 'd' && plain && s.mode == Mode::List {
        if s.worktrees.len() > 0 && s.selected_index < s.worktrees.len() {
            (StateView { mode: Mode::DeleteConfirm, ..s }, Seq::empty())
        } else {
            (s, Seq::empty())
        }
    } else if c == 'k' && plain && s.mode == Mode::List {
        (moved_up(s), Seq::empty())
    } else if c == 'j' && plain && s.mode == Mode::List {
        (moved_down(s), Seq::empty())
    } else if (c as u32) < 128 && plain {
        if s.mode == Mode::Create {
            (StateView { input: s.input.push(c), ..s }, Seq::empty())
        } else {
            (s, Seq::empty())
        }
    } else {
        (s, Seq::empty())
    }
}

/// What a key does when nothing is waited for.
pub open spec fn key_action(s: StateView, key: KeyPress) -> (StateView, Seq<EffectView>) {
    let plain = key.modifiers.spec_none();
    match key.code {
        KeyCode::Esc => {
            if s.mode != Mode::List {
                (cleared(StateView { mode: Mode::List, ..s }), Seq::empty())
            } else {
                (s, seq![EffectView::CloseSelf])
            }
        },
        KeyCode::Enter => enter_pressed(s),
        KeyCode::Backspace => {
            if s.mode == Mode::Create && s.input.len() > 0 {
                (StateView { input: s.input.drop_last(), ..s }, Seq::empty())
            } else {
                (s, Seq::empty())
            }
        },
        KeyCode::Up => {
            if plain && s.mode == Mode::List {
                (moved_up(s), Seq::empty())
            } else {
                (s, Seq::empty())
            }
        },
        KeyCode::Down => {
            if plain && s.mode == Mode::List {
                (moved_down(s), Seq::empty())
            } else {
                (s, Seq::empty())
            }
        },
        KeyCode::Char(c) => char_pressed(s, c, key),
        KeyCode::Other => (s, Seq::empty()),
    }
}

/// A key press: ignored (and no redraw) while a command is waited for,
/// otherwise the key's action, and a redraw.
pub open spec fn key_pressed(s: StateView, key: KeyPress) -> (StateView, Seq<EffectView>, bool) {
    if s.waiting_for_command {
        (s, Seq::empty(), false)
    } else {
        let (t, e) = key_action(s, key);
        (t, e, true)
    }
}

/// How `{:?}` writes an exit code.
pub open spec fn exit_debug(exit: Option<i32>) -> Seq<char> {
    match exit {
        Some(code) => "Some("@ + decimal(code as int) + ")"@,
        None => "None"@,
    }
}

/// The message for a command that exited with `code`, whose error output,
/// trimmed, is `stderr`.
pub open spec fn command_error(code: i32, stderr: Seq<char>) -> Seq<char> {
    "Error ("@ + decimal(code as int) + "): "@ + stderr
}

/// The message for a command that did not exit with 0.
pub open spec fn failure_message(exit: Option<i32>, stderr: Seq<char>) -> Seq<char> {
    match exit {
        Some(code) => command_error(code, stderr),
        None => "Failed to launch Git"@,
    }
}

/// The arguments that ask `git` for the top level of the repository.
pub open spec fn toplevel_args() -> Seq<Seq<char>> {
    seq!["rev-parse"@, "--show-toplevel"@]
}

/// The result of looking for the repository root (`stdout` and `stderr` are
/// the command's outputs, trimmed): on success the root is
/// known and the worktrees are listed; when the lookup through the pane's
/// process failed, it is tried again in the pane's working directory;
/// otherwise (in SSH mode with the command's error) the refresh fails.
pub open spec fn root_reported(
    s: StateView,
    exit: Option<i32>,
    stdout: Seq<char>,
    stderr: Seq<char>,
    context: Seq<(Seq<char>, Seq<char>)>,
) -> (StateView, Seq<EffectView>) {
    if exit == Some(0i32) {
        let path = stdout;
        if path.len() > 0 {
            git_requested(StateView { repo_root: Some(path), ..s }, list_args(), list_context())
        } else {
            (
                StateView {
                    waiting_for_command: false,
                    error_message: Some("Could not determine git root"@),
                    ..s
                },
                Seq::empty(),
            )
        }
    } else if lookup(context, "cwd_source"@) == Some("process-tree"@) {
        let t = StateView {
            cwd_diagnostic: match s.cwd_diagnostic {
                Some(d) => Some(
                    d + " | process_tree_error="@ + stderr + " ("@
                        + exit_debug(exit) + ")"@,
                ),
                None => None,
            },
            ..s
        };
        match t.working_directory {
            Some(cwd) => (
                t,
                seq![
                    local_git(
                        cwd,
                        toplevel_args(),
                        seq![("command"@, "rev-parse"@), ("cwd_source"@, "zellij"@)],
                    ),
                ],
            ),
            None => (refresh_failed(t, "Could not determine focused pane directory"@), Seq::empty()),
        }
    } else if lookup(context, "cwd_source"@) == Some("ssh"@) {
        (refresh_failed(s, failure_message(exit, stderr)), Seq::empty())
    } else if exit is None {
        (refresh_failed(s, "Failed to launch Git"@), Seq::empty())
    } else {
        (
            refresh_failed(
                s,
                "Focused pane directory is not inside a Git repository: "@ + match s.working_directory {
                    Some(w) => w,
                    None => "the focused pane directory"@,
                },
            ),
            Seq::empty(),
        )
    }
}

/// The result of listing the worktrees (`lines` the lines of its output,
/// `stderr` its error output trimmed): the list, or the error.
pub open spec fn list_reported(
    s: StateView,
    exit: Option<i32>,
    lines: Seq<Seq<char>>,
    stderr: Seq<char>,
) -> StateView {
    let t = StateView { waiting_for_command: false, ..s };
    if exit == Some(0i32) {
        StateView {
            worktrees: listed_worktrees(lines, t.repo_root),
            selected_index: 0,
            initialized: true,
            ..t
        }
    } else {
        StateView { error_message: Some(failure_message(exit, stderr)), ..t }
    }
}

/// The result of adding a worktree: its tab is opened and the plugin
/// closes, or the error is shown.
pub open spec fn add_reported(
    s: StateView,
    exit: Option<i32>,
    stderr: Seq<char>,
    context: Seq<(Seq<char>, Seq<char>)>,
) -> (StateView, Seq<EffectView>) {
    let t = StateView { waiting_for_command: false, ..s };
    if exit == Some(0i32) {
        match (lookup(context, "tab_name"@), lookup(context, "path"@)) {
            (Some(name), Some(path)) => (
                t,
                seq![open_worktree(t, name, path), EffectView::CloseSelf],
            ),
            _ => (t, Seq::empty()),
        }
    } else {
        (StateView { error_message: Some(failure_message(exit, stderr)), ..t }, Seq::empty())
    }
}

/// The result of removing a worktree: back to a cleared list, which is read
/// again, or the error.
pub open spec fn remove_reported(s: StateView, exit: Option<i32>, stderr: Seq<char>) -> (
    StateView,
    Seq<EffectView>,
) {
    let t = StateView { waiting_for_command: false, ..s };
    if exit == Some(0i32) {
        let u = cleared(StateView { mode: Mode::List, ..t });
        match git_launch(u, list_args(), list_context()) {
            Ok(e) => (StateView { waiting_for_command: true, ..u }, seq![e]),
            Err(m) => (StateView { error_message: Some(m), ..u }, Seq::empty()),
        }
    } else {
        (StateView { error_message: Some(failure_message(exit, stderr)), ..t }, Seq::empty())
    }
}

/// The result of a command, told apart by the `command` entry of its
/// context, from the lines of its output, its output trimmed, and its error
/// output trimmed.
pub open spec fn command_finished(
    s: StateView,
    exit: Option<i32>,
    lines: Seq<Seq<char>>,
    stdout: Seq<char>,
    stderr: Seq<char>,
    context: Seq<(Seq<char>, Seq<char>)>,
) -> (StateView, Seq<EffectView>) {
    let kind = lookup(context, "command"@);
    if kind == Some("rev-parse"@) {
        root_reported(s, exit, stdout, stderr, context)
    } else if kind == Some("worktree-list"@) {
        (list_reported(s, exit, lines, stderr), Seq::empty())
    } else if kind == Some("worktree-add"@) {
        add_reported(s, exit, stderr, context)
    } else if kind == Some("worktree-remove"@) {
        remove_reported(s, exit, stderr)
    } else {
        (StateView { waiting_for_command: false, ..s }, Seq::empty())
    }
}

/// The result of a command as the host reports it, its outputs as bytes.
pub open spec fn command_reported(
    s: StateView,
    exit: Option<i32>,
    stdout: Seq<u8>,
    stderr: Seq<u8>,
    context: Seq<(Seq<char>, Seq<char>)>,
) -> (StateView, Seq<EffectView>) {
    command_finished(
        s,
        exit,
        text_lines(utf8_lossy(stdout)),
        trimmed(utf8_lossy(stdout)),
        trimmed(utf8_lossy(stderr)),
        context,
    )
}

/// A new tab layout: the active tab is recorded and a pending refresh starts if it can.
pub open spec fn tabs_updated(s: StateView, tabs: Seq<TabSummary>) -> (StateView, Seq<EffectView>) {
    refresh_started(StateView { active_tab_position: first_active_tab(tabs), ..s })
}

/// A new pane layout: it is recorded and a pending refresh starts if it can.
pub open spec fn panes_updated(s: StateView, layout: Map<usize, Vec<PaneSummary>>) -> (
    StateView,
    Seq<EffectView>,
) {
    refresh_started(StateView { pane_manifest: Some(layout), ..s })
}

/// The plugin shown or hidden: shown while nothing is waited for, it refreshes.
pub open spec fn visibility_changed(s: StateView, visible: bool) -> (StateView, Seq<EffectView>) {
    if visible && !s.waiting_for_command {
        refresh_requested(s)
    } else {
        (s, Seq::empty())
    }
}

/// The working directory of the focused pane, or why it is not known: the
/// refresh fails, or goes on with a query for the pane's process.
pub open spec fn pane_cwd_reported(s: StateView, pane_id: u32, cwd: Result<Seq<char>, Seq<char>>) -> (
    StateView,
    Seq<EffectView>,
) {
    match cwd {
        Err(e) => (
            refresh_failed(s, "Could not determine focused pane working directory: "@ + e),
            Seq::empty(),
        ),
        Ok(c) => (
            StateView { working_directory: Some(c), refresh_pending: false, ..s },
            seq![EffectView::QueryPanePid { pane_id, cwd: c }],
        ),
    }
}

/// The process id the host gave, if it is a positive one.
pub open spec fn live_pid(pid: Result<i32, Seq<char>>) -> Option<i32> {
    match pid {
        Ok(p) => if p > 0 { Some(p) } else { None },
        Err(_) => None,
    }
}

/// The diagnostic line that tells how the repository is looked for.
pub open spec fn cwd_diagnostic_text(pane_id: u32, pid: Option<i32>, cwd: Seq<char>) -> Seq<char> {
    "pane="@ + decimal(pane_id as int) + " pid="@ + match pid {
        Some(p) => decimal(p as int),
        None => "unknown"@,
    } + " zellij_cwd="@ + cwd
}

/// The process id of the focused pane, or why it is not known: the
/// repository is looked for through the pane's foreground process when the
/// id is known, else in the pane's working directory.
pub open spec fn pane_pid_reported(
    s: StateView,
    pane_id: u32,
    cwd: Seq<char>,
    pid: Result<i32, Seq<char>>,
) -> (StateView, Seq<EffectView>) {
    let t = StateView { cwd_diagnostic: Some(cwd_diagnostic_text(pane_id, live_pid(pid), cwd)), ..s };
    match live_pid(pid) {
        Some(p) => (
            t,
            seq![
                repository_discovery(
                    p,
                    cwd,
                    seq![("command"@, "rev-parse"@), ("cwd_source"@, "process-tree"@)],
                ),
            ],
        ),
        None => (t, seq![local_git(cwd, toplevel_args(), seq![("command"@, "rev-parse"@)])]),
    }
}

/// Before the first drawing a refresh is requested.
pub open spec fn render_started(s: StateView) -> (StateView, Seq<EffectView>) {
    if s.first_render {
        refresh_requested(StateView { first_render: false, ..s })
    } else {
        (s, Seq::empty())
    }
}

/// The texts of a result of strings.
pub open spec fn result_text(r: Result<String, String>) -> Result<Seq<char>, Seq<char>> {
    match r {
        Ok(t) => Ok(t@),
        Err(e) => Err(e@),
    }
}

/// A result of an integer, its error as text.
pub open spec fn result_int(r: Result<i32, String>) -> Result<i32, Seq<char>> {
    match r {
        Ok(p) => Ok(p),
        Err(e) => Err(e@),
    }
}

fn exit_debug_text(exit: Option<i32>) -> (t: String)
    ensures
        t@ == exit_debug(exit),
{
    match exit {
        Some(code) => owned("Some(").concat(decimal_text(code as i64).as_str()).concat(")"),
        None => owned("None"),
    }
}

fn failure_text(exit: Option<i32>, stderr: &str) -> (t: String)
    ensures
        t@ == failure_message(exit, stderr@),
{
    match exit {
        Some(code) => owned("Error (").concat(decimal_text(code as i64).as_str()).concat(
            "): ",
        ).concat(stderr),
        None => owned("Failed to launch Git"),
    }
}

fn context_is(context: &CommandContext, key: &str, value: &str) -> (res: bool)
    ensures
        res == (lookup(pair_texts(context@), key@) == Some(value@)),
{
    match context_get(context, key) {
        Some(v) => crate::text::same_text(v.as_str(), value),
        None => false,
    }
}

fn toplevel_arg_strings() -> (v: Vec<String>)
    ensures
        texts(v@) == toplevel_args(),
{
    strings2(owned("rev-parse"), owned("--show-toplevel"))
}

/// `value` when it is given, else `old`.
pub open spec fn given_or(value: Option<Seq<char>>, old: Option<Seq<char>>) -> Option<Seq<char>> {
    match value {
        Some(v) => Some(v),
        None => old,
    }
}

/// `s` after reading the plugin's configuration: the base path, the SSH
/// host and repository, and the workbench command, each where it is set.
pub open spec fn configured(s: StateView, configuration: Seq<(Seq<char>, Seq<char>)>) -> StateView {
    StateView {
        base_path: given_or(lookup(configuration, "base_path"@), s.base_path),
        remote_host: given_or(lookup(configuration, "remote_host"@), s.remote_host),
        remote_repo: given_or(lookup(configuration, "remote_repo"@), s.remote_repo),
        workbench_command: given_or(lookup(configuration, "workbench_command"@), s.workbench_command),
        ..s
    }
}

fn configured_value(configuration: &CommandContext, key: &str, old: Option<String>) -> (value:
    Option<String>)
    ensures
        opt_text(value) == given_or(lookup(pair_texts(configuration@), key@), opt_text(old)),
{
    match context_get(configuration, key) {
        Some(v) => Some(v.clone()),
        None => old,
    }
}

/// Words of a shell command line, each quoted and preceded by a space.
fn shell_words_text(words: &Vec<String>) -> (line: String)
    ensures
        line@ == shell_words(texts(words@)),
{
    let mut line = String::new();
    let mut i: usize = 0;
    assert(texts(words@).take(0) =~= Seq::<Seq<char>>::empty());
    while i < words.len()
        invariant
            i <= words.len(),
            line@ == shell_words(texts(words@).take(i as int)),
        decreases words.len() - i,
    {
        let quoted = shell_quoted(words[i].as_str());
        line.append(" ");
        line.append(quoted.as_str());
        proof {
            reveal_strlit(" ");
            assert(texts(words@).take(i + 1).drop_last() =~= texts(words@).take(i as int));
            assert(line@ =~= shell_words(texts(words@).take(i as int)) + seq![' '] + shell_quote(
                words@[i as int]@,
            ));
        }
        i = i + 1;
    }
    assert(texts(words@).take(i as int) =~= texts(words@));
    line
}

/// The command that runs `git` with `args` over `ssh` on `host`, in `repo`.
fn remote_git_command(host: &String, repo: &String, args: &Vec<String>, context: CommandContext) -> (e:
    Effect)
    ensures
        e@ == remote_git(host@, repo@, texts(args@), pair_texts(context@)),
{
    let line = owned("git -C ").concat(shell_quoted(repo.as_str()).as_str()).concat(
        shell_words_text(args).as_str(),
    );
    let argv = strings3(owned("ssh"), host.clone(), line);
    Effect::RunCommand { argv, cwd: None, context }
}

fn strings1(a: String) -> (v: Vec<String>)
    ensures
        texts(v@) == seq![a@],
{
    let mut v = Vec::new();
    v.push(a);
    assert(texts(v@) =~= seq![a@]);
    v
}

fn strings2(a: String, b: String) -> (v: Vec<String>)
    ensures
        texts(v@) == seq![a@, b@],
{
    let mut v = Vec::new();
    v.push(a);
    v.push(b);
    assert(texts(v@) =~= seq![a@, b@]);
    v
}

fn strings3(a: String, b: String, c: String) -> (v: Vec<String>)
    ensures
        texts(v@) == seq![a@, b@, c@],
{
    let mut v = Vec::new();
    v.push(a);
    v.push(b);
    v.push(c);
    assert(texts(v@) =~= seq![a@, b@, c@]);
    v
}

fn strings4(a: String, b: String, c: String, d: String) -> (v: Vec<String>)
    ensures
        texts(v@) == seq![a@, b@, c@, d@],
{
    let mut v = Vec::new();
    v.push(a);
    v.push(b);
    v.push(c);
    v.push(d);
    assert(texts(v@) =~= seq![a@, b@, c@, d@]);
    v
}

fn strings5(a: String, b: String, c: String, d: String, e: String) -> (v: Vec<String>)
    ensures
        texts(v@) == seq![a@, b@, c@, d@, e@],
{
    let mut v = Vec::new();
    v.push(a);
    v.push(b);
    v.push(c);
    v.push(d);
    v.push(e);
    assert(texts(v@) =~= seq![a@, b@, c@, d@, e@]);
    v
}

fn context1(k1: &str, v1: String) -> (c: CommandContext)
    ensures
        pair_texts(c@) == seq![(k1@, v1@)],
{
    let mut c = Vec::new();
    c.push((owned(k1), v1));
    assert(pair_texts(c@) =~= seq![(k1@, v1@)]);
    c
}

fn context2(k1: &str, v1: String, k2: &str, v2: String) -> (c: CommandContext)
    ensures
        pair_texts(c@) == seq![(k1@, v1@), (k2@, v2@)],
{
    let mut c = Vec::new();
    c.push((owned(k1), v1));
    c.push((owned(k2), v2));
    assert(pair_texts(c@) =~= seq![(k1@, v1@), (k2@, v2@)]);
    c
}

fn context3(k1: &str, v1: String, k2: &str, v2: String, k3: &str, v3: String) -> (c:
    CommandContext)
    ensures
        pair_texts(c@) == seq![(k1@, v1@), (k2@, v2@), (k3@, v3@)],
{
    let mut c = Vec::new();
    c.push((owned(k1), v1));
    c.push((owned(k2), v2));
    c.push((owned(k3), v3));
    assert(pair_texts(c@) =~= seq![(k1@, v1@), (k2@, v2@), (k3@, v3@)]);
    c
}

fn list_arg_strings() -> (v: Vec<String>)
    ensures
        texts(v@) == list_args(),
{
    strings3(owned("worktree"), owned("list"), owned("--porcelain"))
}

fn list_context_pairs() -> (c: CommandContext)
    ensures
        pair_texts(c@) == list_context(),
{
    context1("command", owned("worktree-list"))
}

impl State {
    /// A plugin that has just been loaded.
    pub fn new() -> (s: State)
        ensures
            s@ == initial_state(),
    {
        State {
            mode: Mode::List,
            input: String::new(),
            worktrees: Vec::new(),
            selected_index: 0,
            error_message: None,
            cwd_diagnostic: None,
            waiting_for_command: false,
            repo_root: None,
            working_directory: None,
            base_path: None,
            initialized: false,
            first_render: true,
            refresh_pending: false,
            active_tab_position: None,
            pane_manifest: None,
            remote_host: None,
            remote_repo: None,
            workbench_command: None,
        }
    }

    /// Takes from the plugin's configuration the base path, the SSH host and
    /// repository, and the workbench command, each where it is set.
    pub fn load(&mut self, configuration: &CommandContext)
        ensures
            final(self)@ == configured(old(self)@, pair_texts(configuration@)),
    {
        self.base_path = configured_value(configuration, "base_path", self.base_path.clone());
        self.remote_host = configured_value(configuration, "remote_host", self.remote_host.clone());
        self.remote_repo = configured_value(configuration, "remote_repo", self.remote_repo.clone());
        self.workbench_command = configured_value(
            configuration,
            "workbench_command",
            self.workbench_command.clone(),
        );
    }

    /// The command that runs `git` with `args` in `cwd` on this machine.
    pub fn launch_git_command(args: Vec<String>, cwd: String, context: CommandContext) -> (e: Effect)
        ensures
            e@ == local_git(cwd@, texts(args@), pair_texts(context@)),
    {
        let mut argv = Vec::new();
        argv.push(owned("git"));
        let mut rest = args;
        let ghost rest_view = rest@;
        argv.append(&mut rest);
        assert(texts(argv@) =~= seq!["git"@] + texts(rest_view));
        Effect::RunCommand { argv, cwd: Some(cwd), context }
    }

    /// The command that looks for the repository through the foreground
    /// process of the pane whose process is `pane_pid`, in `fallback_cwd`.
    pub fn launch_repository_discovery(
        pane_pid: i32,
        fallback_cwd: String,
        context: CommandContext,
    ) -> (e: Effect)
        ensures
            e@ == repository_discovery(pane_pid, fallback_cwd@, pair_texts(context@)),
    {
        let argv = strings5(
            owned("sh"),
            owned("-c"),
            owned(DISCOVERY_SCRIPT),
            owned("zellij-worktree"),
            decimal_text(pane_pid as i64),
        );
        Effect::RunCommand { argv, cwd: Some(fallback_cwd), context }
    }

    /// How the worktree at `path` is opened in a new tab named `name`.
    pub fn open_worktree_effect(&self, name: String, path: String) -> (e: Effect)
        ensures
            e@ == open_worktree(self@, name@, path@),
    {
        match (&self.remote_host, &self.remote_repo) {
            (Some(host), Some(_repo)) => {
                let line = owned("cd -- ").concat(shell_quoted(path.as_str()).as_str()).concat(
                    " && exec \"$SHELL\" -l",
                );
                let command = strings4(owned("ssh"), owned("-t"), host.clone(), line);
                Effect::OpenTab { name, cwd: None, command: Some(command) }
            },
            _ => match &self.workbench_command {
                Some(w) => Effect::OpenTab {
                    name,
                    cwd: Some(path),
                    command: Some(strings1(w.clone())),
                },
                None => Effect::OpenTab { name, cwd: Some(path), command: None },
            },
        }
    }

    /// Replaces the worktree list with the records of porcelain lines, all
    /// but the main worktree's, and selects the first.
    pub fn apply_worktree_lines(&mut self, lines: &Vec<&str>)
        ensures
            final(self)@ == (StateView {
                worktrees: listed_worktrees(line_texts(lines@), old(self)@.repo_root),
                selected_index: 0,
                ..old(self)@
            }),
    {
        self.worktrees = scan_worktree_lines(lines, &self.repo_root);
        self.selected_index = 0;
    }

    /// Replaces the worktree list with what the output of
    /// `git worktree list --porcelain` reports, but for the main worktree,
    /// and selects the first.
    pub fn parse_worktree_list(&mut self, output: &[u8])
        ensures
            final(self)@ == (StateView {
                worktrees: listed_worktrees(text_lines(utf8_lossy(output@)), old(self)@.repo_root),
                selected_index: 0,
                ..old(self)@
            }),
    {
        let text = decode_lossy(output);
        let lines = split_lines(text.as_str());
        assert(line_texts(lines@) =~= text_lines(text@));
        self.apply_worktree_lines(&lines);
    }

    /// Where the worktree for `input` (a branch name or a path) goes.
    pub fn resolve_worktree_path(&self, input: &str) -> (path: Option<String>)
        ensures
            opt_text(path) == resolved_path(input@, self@.repo_root, self@.base_path),
            ("./"@.is_prefix_of(input@) || "../"@.is_prefix_of(input@)) ==> match self@.repo_root {
                Some(r) => r.len() > 0 && r.last() != '/' ==> opt_text(path) == Some(
                    r + "/"@ + input@,
                ),
                None => path is None,
            },
    {
        proof {
            reveal_strlit("./");
            reveal_strlit("../");
            reveal_strlit("/");
            reveal_strlit("~");
            if "./"@.is_prefix_of(input@) || "../"@.is_prefix_of(input@) {
                if "./"@.is_prefix_of(input@) {
                    assert(input@[0] == "./"@[0]);
                } else {
                    assert(input@[0] == "../"@[0]);
                }
                assert(input@[0] == '.');
                assert(!"/"@.is_prefix_of(input@)) by {
                    if "/"@.is_prefix_of(input@) {
                        assert(input@[0] == "/"@[0]);
                    }
                }
                assert(!"~"@.is_prefix_of(input@)) by {
                    if "~"@.is_prefix_of(input@) {
                        assert(input@[0] == "~"@[0]);
                    }
                }
            }
        }
        if has_prefix(input, "/") || has_prefix(input, "~") {
            return Some(owned(input));
        }
        if has_prefix(input, "./") || has_prefix(input, "../") {
            if let Some(repo_root) = &self.repo_root {
                return Some(join_path(repo_root.as_str(), input));
            }
            return None;
        }
        if let Some(base_path) = &self.base_path {
            Some(base_path.clone().concat("/").concat(input))
        } else if let Some(repo_root) = &self.repo_root {
            let parent = match parent_path(repo_root.as_str()) {
                Some(p) => p,
                None => owned("."),
            };
            Some(parent.concat("/").concat(input))
        } else {
            None
        }
    }

    /// The name of the tab opened for the worktree at `path`.
    pub fn get_tab_name(&self, path: &str) -> (name: String)
        ensures
            name@ == tab_name(path@),
            name@.len() > 0,
            !name@.contains('/'),
    {
        proof {
            reveal_strlit("worktree");
        }
        match file_name_of(path) {
            Some(n) => n,
            None => owned("worktree"),
        }
    }

    /// Resets the prompt, the messages, the waiting flag and the selection.
    pub fn clear_state(&mut self)
        ensures
            final(self)@ == cleared(old(self)@),
    {
        self.input.clear();
        self.error_message = None;
        self.cwd_diagnostic = None;
        self.waiting_for_command = false;
        self.selected_index = 0;
    }

    /// Gives up the refresh with `message`.
    pub fn fail_refresh(&mut self, message: String)
        ensures
            final(self)@ == refresh_failed(old(self)@, message@),
    {
        self.refresh_pending = false;
        self.waiting_for_command = false;
        self.error_message = Some(message);
    }

    /// The command that runs `git` with `args` in the repository, or the
    /// error when the repository is not known.
    pub fn run_git_command(&self, args: Vec<String>, context: CommandContext) -> (res: Result<
        Effect,
        String,
    >)
        ensures
            match res {
                Ok(e) => git_launch(self@, texts(args@), pair_texts(context@)) == Ok::<
                    EffectView,
                    Seq<char>,
                >(e@),
                Err(m) => git_launch(self@, texts(args@), pair_texts(context@)) == Err::<
                    EffectView,
                    Seq<char>,
                >(m@),
            },
    {
        match &self.repo_root {
            Some(repo_root) => match (&self.remote_host, &self.remote_repo) {
                (Some(host), Some(repo)) => Ok(remote_git_command(host, repo, &args, context)),
                _ => Ok(State::launch_git_command(args, repo_root.clone(), context)),
            },
            None => Err(owned("Could not determine Git repository directory")),
        }
    }

    /// Asks for `git` with `args`; when the repository is not known, records
    /// the error and stops waiting instead.
    fn request_git(&mut self, args: Vec<String>, context: CommandContext) -> (effects: Vec<Effect>)
        ensures
            (final(self)@, effect_views(effects@)) == git_requested(
                old(self)@,
                texts(args@),
                pair_texts(context@),
            ),
    {
        let mut effects = Vec::new();
        match self.run_git_command(args, context) {
            Ok(e) => {
                effects.push(e);
                assert(effect_views(effects@) =~= seq![effects@[0]@]);
            },
            Err(error) => {
                self.waiting_for_command = false;
                self.error_message = Some(error);
                assert(effect_views(effects@) =~= Seq::<EffectView>::empty());
            },
        }
        effects
    }

    /// Starts the pending refresh, if the active tab and the pane layout are known.
    pub fn try_start_git_refresh(&mut self) -> (effects: Vec<Effect>)
        ensures
            (final(self)@, effect_views(effects@)) == refresh_started(old(self)@),
    {
        let mut effects: Vec<Effect> = Vec::new();
        assert(effect_views(effects@) =~= Seq::<EffectView>::empty());
        if !self.refresh_pending {
            return effects;
        }
        if let (Some(host), Some(repo)) = (&self.remote_host, &self.remote_repo) {
            let e = remote_git_command(
                host,
                repo,
                &toplevel_arg_strings(),
                context2("command", owned("rev-parse"), "cwd_source", owned("ssh")),
            );
            self.refresh_pending = false;
            effects.push(e);
            assert(effect_views(effects@) =~= seq![effects@[0]@]);
            return effects;
        }
        let tab_position = match self.active_tab_position {
            Some(t) => t,
            None => {
                return effects;
            },
        };
        let focused = match &self.pane_manifest {
            Some(layout) => focused_terminal_pane(tab_position, layout),
            None => {
                return effects;
            },
        };
        match focused {
            Some(id) => {
                effects.push(Effect::QueryPaneCwd { pane_id: id });
                assert(effect_views(effects@) =~= seq![EffectView::QueryPaneCwd { pane_id: id }]);
            },
            None => {
                self.fail_refresh(owned("No focused terminal pane found"));
            },
        }
        effects
    }

    /// Forgets what is known of the repository, waits, and starts a refresh.
    pub fn request_git_refresh(&mut self) -> (effects: Vec<Effect>)
        ensures
            (final(self)@, effect_views(effects@)) == refresh_requested(old(self)@),
    {
        self.initialized = false;
        self.repo_root = None;
        self.working_directory = None;
        self.worktrees.clear();
        self.error_message = None;
        self.waiting_for_command = true;
        self.refresh_pending = true;
        self.mode = Mode::List;
        self.input.clear();
        assert(worktree_views(self.worktrees@) =~= Seq::<WorktreeView>::empty());
        self.try_start_git_refresh()
    }

    /// Handles a key press; returns whether to redraw and what to ask of the host.
    pub fn handle_key(&mut self, key: KeyPress) -> (res: (bool, Vec<Effect>))
        ensures
            (final(self)@, effect_views(res.1@), res.0) == key_pressed(old(self)@, key),
    {
        if self.waiting_for_command {
            let effects: Vec<Effect> = Vec::new();
            assert(effect_views(effects@) =~= Seq::<EffectView>::empty());
            return (false, effects);
        }
        let effects = self.apply_key(key);
        (true, effects)
    }

    fn apply_key(&mut self, key: KeyPress) -> (effects: Vec<Effect>)
        ensures
            (final(self)@, effect_views(effects@)) == key_action(old(self)@, key),
    {
        let mut effects: Vec<Effect> = Vec::new();
        assert(effect_views(effects@) =~= Seq::<EffectView>::empty());
        let plain = key.modifiers.none();
        match key.code {
            KeyCode::Esc => {
                if self.mode != Mode::List {
                    self.mode = Mode::List;
                    self.clear_state();
                } else {
                    effects.push(Effect::CloseSelf);
                    assert(effect_views(effects@) =~= seq![EffectView::CloseSelf]);
                }
            },
            KeyCode::Enter => {
                self.enter(&mut effects);
            },
            KeyCode::Backspace => {
                if self.mode == Mode::Create {
                    self.input.pop();
                }
            },
            KeyCode::Up => {
                if plain && self.mode == Mode::List {
                    self.select_previous();
                }
            },
            KeyCode::Down => {
                if plain && self.mode == Mode::List {
                    self.select_next();
                }
            },
            KeyCode::Char(c) => {
                if c == 'c' && key.modifiers.ctrl {
                    effects.push(Effect::CloseSelf);
                    assert(effect_views(effects@) =~= seq![EffectView::CloseSelf]);
                } else if c == 'n' && plain && self.mode == Mode::List {
                    self.mode = Mode::Create;
                    self.input.clear();
                    self.error_message = None;
                } else if c == 'd' && plain && self.mode == Mode::List {
                    if self.worktrees.len() > 0 && self.selected_index < self.worktrees.len() {
                        self.mode = Mode::DeleteConfirm;
                    }
                } else if c == 'k' && plain && self.mode == Mode::List {
                    self.select_previous();
                } else if c == 'j' && plain && self.mode == Mode::List {
                    self.select_next();
                } else if (c as u32) < 128 && plain {
                    if self.mode == Mode::Create {
                        self.input.push(c);
                    }
                }
            },
            KeyCode::Other => {},
        }
        effects
    }


    /// Handles the result of a command the plugin ran, as the host reports
    /// it; returns whether to redraw (always) and what to ask of the host.
    pub fn handle_command_result(
        &mut self,
        exit_code: Option<i32>,
        stdout: &[u8],
        stderr: &[u8],
        context: &CommandContext,
    ) -> (res: (bool, Vec<Effect>))
        ensures
            (final(self)@, effect_views(res.1@)) == command_reported(
                old(self)@,
                exit_code,
                stdout@,
                stderr@,
                pair_texts(context@),
            ),
            res.0,
    {
        let output = decode_lossy(stdout);
        let error = decode_lossy(stderr);
        let lines = split_lines(output.as_str());
        assert(line_texts(lines@) =~= text_lines(output@));
        let effects = self.apply_command_output(
            exit_code,
            &lines,
            trim_text(output.as_str()),
            trim_text(error.as_str()),
            context,
        );
        (true, effects)
    }

    /// Handles the result of a command the plugin ran, given the lines of its
    /// output, its output trimmed and its error output trimmed; returns what
    /// to ask of the host.
    pub fn apply_command_output(
        &mut self,
        exit_code: Option<i32>,
        stdout_lines: &Vec<&str>,
        stdout_trimmed: &str,
        stderr_trimmed: &str,
        context: &CommandContext,
    ) -> (effects: Vec<Effect>)
        ensures
            (final(self)@, effect_views(effects@)) == command_finished(
                old(self)@,
                exit_code,
                line_texts(stdout_lines@),
                stdout_trimmed@,
                stderr_trimmed@,
                pair_texts(context@),
            ),
    {
        let mut effects: Vec<Effect> = Vec::new();
        assert(effect_views(effects@) =~= Seq::<EffectView>::empty());
        if context_is(context, "command", "rev-parse") {
            effects = self.root_result(exit_code, stdout_trimmed, stderr_trimmed, context);
        } else if context_is(context, "command", "worktree-list") {
            self.list_result(exit_code, stdout_lines, stderr_trimmed);
        } else if context_is(context, "command", "worktree-add") {
            effects = self.add_result(exit_code, stderr_trimmed, context);
        } else if context_is(context, "command", "worktree-remove") {
            effects = self.remove_result(exit_code, stderr_trimmed);
        } else {
            self.waiting_for_command = false;
        }
        effects
    }

    fn root_result(
        &mut self,
        exit_code: Option<i32>,
        stdout: &str,
        stderr: &str,
        context: &CommandContext,
    ) -> (effects: Vec<Effect>)
        ensures
            (final(self)@, effect_views(effects@)) == root_reported(
                old(self)@,
                exit_code,
                stdout@,
                stderr@,
                pair_texts(context@),
            ),
    {
        let mut effects: Vec<Effect> = Vec::new();
        assert(effect_views(effects@) =~= Seq::<EffectView>::empty());
        let succeeded = match exit_code {
            Some(code) => code == 0,
            None => false,
        };
        if succeeded {
            if !stdout.is_empty() {
                self.repo_root = Some(owned(stdout));
                effects = self.request_git(list_arg_strings(), list_context_pairs());
            } else {
                self.waiting_for_command = false;
                self.error_message = Some(owned("Could not determine git root"));
            }
        } else if context_is(context, "cwd_source", "process-tree") {
            let diagnostic = match &self.cwd_diagnostic {
                Some(d) => Some(
                    d.clone().concat(" | process_tree_error=").concat(stderr).concat(" (").concat(
                        exit_debug_text(exit_code).as_str(),
                    ).concat(")"),
                ),
                None => None,
            };
            self.cwd_diagnostic = diagnostic;
            match &self.working_directory {
                Some(cwd) => {
                    let context = context2(
                        "command",
                        owned("rev-parse"),
                        "cwd_source",
                        owned("zellij"),
                    );
                    effects.push(
                        State::launch_git_command(toplevel_arg_strings(), cwd.clone(), context),
                    );
                    assert(effect_views(effects@) =~= seq![effects@[0]@]);
                },
                None => {
                    self.fail_refresh(owned("Could not determine focused pane directory"));
                },
            }
        } else if context_is(context, "cwd_source", "ssh") {
            self.fail_refresh(failure_text(exit_code, stderr));
        } else if exit_code.is_none() {
            self.fail_refresh(owned("Failed to launch Git"));
        } else {
            let message = match &self.working_directory {
                Some(w) => owned("Focused pane directory is not inside a Git repository: ").concat(
                    w.as_str(),
                ),
                None => owned("Focused pane directory is not inside a Git repository: ").concat(
                    "the focused pane directory",
                ),
            };
            self.fail_refresh(message);
        }
        effects
    }

    fn list_result(&mut self, exit_code: Option<i32>, lines: &Vec<&str>, stderr: &str)
        ensures
            final(self)@ == list_reported(old(self)@, exit_code, line_texts(lines@), stderr@),
    {
        self.waiting_for_command = false;
        match exit_code {
            Some(0) => {
                self.apply_worktree_lines(lines);
                self.initialized = true;
            },
            _ => {
                self.error_message = Some(failure_text(exit_code, stderr));
            },
        }
    }

    fn add_result(
        &mut self,
        exit_code: Option<i32>,
        stderr: &str,
        context: &CommandContext,
    ) -> (effects: Vec<Effect>)
        ensures
            (final(self)@, effect_views(effects@)) == add_reported(
                old(self)@,
                exit_code,
                stderr@,
                pair_texts(context@),
            ),
    {
        let mut effects: Vec<Effect> = Vec::new();
        assert(effect_views(effects@) =~= Seq::<EffectView>::empty());
        self.waiting_for_command = false;
        match exit_code {
            Some(0) => {
                match (context_get(context, "tab_name"), context_get(context, "path")) {
                    (Some(name), Some(path)) => {
                        let open = self.open_worktree_effect(name.clone(), path.clone());
                        effects.push(open);
                        effects.push(Effect::CloseSelf);
                        assert(effect_views(effects@) =~= seq![
                            open_worktree(self@, name@, path@),
                            EffectView::CloseSelf,
                        ]);
                    },
                    _ => {},
                }
            },
            _ => {
                self.error_message = Some(failure_text(exit_code, stderr));
            },
        }
        effects
    }

    fn remove_result(&mut self, exit_code: Option<i32>, stderr: &str) -> (effects: Vec<Effect>)
        ensures
            (final(self)@, effect_views(effects@)) == remove_reported(old(self)@, exit_code, stderr@),
    {
        let mut effects: Vec<Effect> = Vec::new();
        assert(effect_views(effects@) =~= Seq::<EffectView>::empty());
        self.waiting_for_command = false;
        match exit_code {
            Some(0) => {
                self.mode = Mode::List;
                self.clear_state();
                match self.run_git_command(list_arg_strings(), list_context_pairs()) {
                    Ok(e) => {
                        self.waiting_for_command = true;
                        effects.push(e);
                        assert(effect_views(effects@) =~= seq![effects@[0]@]);
                    },
                    Err(error) => {
                        self.error_message = Some(error);
                    },
                }
            },
            _ => {
                self.error_message = Some(failure_text(exit_code, stderr));
            },
        }
        effects
    }

    /// Handles a new tab layout; returns whether to redraw (never) and what to ask of the host.
    pub fn handle_tab_update(&mut self, tabs: &Vec<TabSummary>) -> (res: (bool, Vec<Effect>))
        ensures
            (final(self)@, effect_views(res.1@)) == tabs_updated(old(self)@, tabs@),
            !res.0,
    {
        self.active_tab_position = active_tab(tabs);
        (false, self.try_start_git_refresh())
    }

    /// Handles a new pane layout; returns whether to redraw (never) and what to ask of the host.
    pub fn handle_pane_update(&mut self, layout: PaneLayout) -> (res: (bool, Vec<Effect>))
        ensures
            (final(self)@, effect_views(res.1@)) == panes_updated(old(self)@, layout@),
            !res.0,
    {
        self.pane_manifest = Some(layout);
        (false, self.try_start_git_refresh())
    }

    /// Handles the plugin being shown or hidden; returns whether to redraw
    /// (always) and what to ask of the host.
    pub fn handle_visible(&mut self, visible: bool) -> (res: (bool, Vec<Effect>))
        ensures
            (final(self)@, effect_views(res.1@)) == visibility_changed(old(self)@, visible),
            res.0,
    {
        if visible && !self.waiting_for_command {
            (true, self.request_git_refresh())
        } else {
            let effects: Vec<Effect> = Vec::new();
            assert(effect_views(effects@) =~= Seq::<EffectView>::empty());
            (true, effects)
        }
    }

    /// Handles what the host answered for the working directory of the pane `pane_id`.
    pub fn handle_pane_cwd(&mut self, pane_id: u32, cwd: Result<String, String>) -> (effects: Vec<
        Effect,
    >)
        ensures
            (final(self)@, effect_views(effects@)) == pane_cwd_reported(
                old(self)@,
                pane_id,
                result_text(cwd),
            ),
    {
        let mut effects: Vec<Effect> = Vec::new();
        match cwd {
            Ok(c) => {
                self.working_directory = Some(c.clone());
                self.refresh_pending = false;
                effects.push(Effect::QueryPanePid { pane_id, cwd: c });
                assert(effect_views(effects@) =~= seq![effects@[0]@]);
            },
            Err(error) => {
                self.fail_refresh(
                    owned("Could not determine focused pane working directory: ").concat(
                        error.as_str(),
                    ),
                );
                assert(effect_views(effects@) =~= Seq::<EffectView>::empty());
            },
        }
        effects
    }

    /// Handles what the host answered for the process id of the pane
    /// `pane_id`, whose working directory is `cwd`.
    pub fn handle_pane_pid(&mut self, pane_id: u32, cwd: &str, pid: Result<i32, String>) -> (effects:
        Vec<Effect>)
        ensures
            (final(self)@, effect_views(effects@)) == pane_pid_reported(
                old(self)@,
                pane_id,
                cwd@,
                result_int(pid),
            ),
    {
        let live: Option<i32> = match pid {
            Ok(p) => if p > 0 {
                Some(p)
            } else {
                None
            },
            Err(_) => None,
        };
        let pid_text = match live {
            Some(p) => decimal_text(p as i64),
            None => owned("unknown"),
        };
        let diagnostic = owned("pane=").concat(decimal_text(pane_id as i64).as_str()).concat(
            " pid=",
        ).concat(pid_text.as_str()).concat(" zellij_cwd=").concat(cwd);
        self.cwd_diagnostic = Some(diagnostic);
        let mut effects: Vec<Effect> = Vec::new();
        match live {
            Some(p) => {
                let context = context2(
                    "command",
                    owned("rev-parse"),
                    "cwd_source",
                    owned("process-tree"),
                );
                effects.push(State::launch_repository_discovery(p, owned(cwd), context));
            },
            None => {
                let context = context1("command", owned("rev-parse"));
                effects.push(State::launch_git_command(toplevel_arg_strings(), owned(cwd), context));
            },
        }
        assert(effect_views(effects@) =~= seq![effects@[0]@]);
        effects
    }

    /// Before drawing: the first time, requests a refresh.
    pub fn begin_render(&mut self) -> (effects: Vec<Effect>)
        ensures
            (final(self)@, effect_views(effects@)) == render_started(old(self)@),
    {
        if self.first_render {
            self.first_render = false;
            self.request_git_refresh()
        } else {
            let effects: Vec<Effect> = Vec::new();
            assert(effect_views(effects@) =~= Seq::<EffectView>::empty());
            effects
        }
    }

    /// Moves the selection one up, from the first to the last.
    pub fn select_previous(&mut self)
        ensures
            final(self)@ == moved_up(old(self)@),
    {
        if self.worktrees.len() > 0 {
            if self.selected_index > 0 {
                self.selected_index = self.selected_index - 1;
            } else {
                self.selected_index = self.worktrees.len() - 1;
            }
        }
    }

    /// Moves the selection one down, from the last to the first.
    pub fn select_next(&mut self)
        ensures
            final(self)@ == moved_down(old(self)@),
    {
        if self.worktrees.len() > 0 {
            if self.selected_index < self.worktrees.len() - 1 {
                self.selected_index = self.selected_index + 1;
            } else {
                self.selected_index = 0;
            }
        }
    }

    fn enter(&mut self, effects: &mut Vec<Effect>)
        requires
            old(effects)@.len() == 0,
        ensures
            (final(self)@, effect_views(final(effects)@)) == enter_pressed(old(self)@),
    {
        match self.mode {
            Mode::List => {
                if self.selected_index < self.worktrees.len() {
                    let path = &self.worktrees[self.selected_index].path;
                    let name = self.get_tab_name(path.as_str());
                    let open = self.open_worktree_effect(name, path.clone());
                    effects.push(open);
                    effects.push(Effect::CloseSelf);
                    assert(effect_views(effects@) =~= seq![
                        open_worktree(self@, tab_name(path@), path@),
                        EffectView::CloseSelf,
                    ]);
                } else {
                    assert(effect_views(effects@) =~= Seq::<EffectView>::empty());
                }
            },
            Mode::Create => {
                if self.input.as_str().is_empty() {
                    assert(effect_views(effects@) =~= Seq::<EffectView>::empty());
                    return;
                }
                match self.resolve_worktree_path(self.input.as_str()) {
                    Some(path) => {
                        let name = self.get_tab_name(path.as_str());
                        self.waiting_for_command = true;
                        self.error_message = None;
                        let context = context3(
                            "command",
                            owned("worktree-add"),
                            "tab_name",
                            name,
                            "path",
                            path.clone(),
                        );
                        let args = strings3(owned("worktree"), owned("add"), path);
                        *effects = self.request_git(args, context);
                    },
                    None => {
                        let message = match &self.repo_root {
                            Some(r) => owned("Could not resolve path").concat(r.as_str()),
                            None => owned("Could not resolve path"),
                        };
                        assert(message@ =~= "Could not resolve path"@ + text_or_empty(
                            opt_text(self.repo_root),
                        ));
                        self.error_message = Some(message);
                        assert(effect_views(effects@) =~= Seq::<EffectView>::empty());
                    },
                }
            },
            Mode::DeleteConfirm => {
                if self.selected_index < self.worktrees.len() {
                    let path = self.worktrees[self.selected_index].path.clone();
                    self.waiting_for_command = true;
                    self.error_message = None;
                    let context = context1("command", owned("worktree-remove"));
                    let args = strings3(owned("worktree"), owned("remove"), path);
                    *effects = self.request_git(args, context);
                } else {
                    assert(effect_views(effects@) =~= Seq::<EffectView>::empty());
                }
            },
        }
    }
}

impl Default for State {
    fn default() -> (s: State)
        ensures
            s@ == initial_state(),
    {
        State::new()
    }
}

} // verus!
