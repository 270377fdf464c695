//! What the worktree list, path resolution, the list screen, tab updates and
//! Enter are for, stated over their inputs and results, and proved.

use vstd::prelude::*;
use crate::model::{first_active_tab, focused_pane, EffectView, KeyCode, KeyPress, Mode, TabSummary};
use crate::screen::{body, list_screen, screen, worktree_line, worktree_lines, LineView, Style};
use crate::state::{key_pressed, parent_or_dot, resolved_path, tab_name, tabs_updated, StateView};
use crate::text::shell_quote;
use crate::worktree::{listed_worktrees, scan_records, WorktreeView};

verus! {

/// The porcelain line that opens the record of the worktree at `path`.
pub open spec fn worktree_line_for(path: Seq<char>) -> Seq<char> {
    "worktree "@ + path
}

proof fn opening_line(path: Seq<char>)
    ensures
        "worktree "@.is_prefix_of(worktree_line_for(path)),
        worktree_line_for(path).skip("worktree "@.len() as int) == path,
{
    assert(worktree_line_for(path).take("worktree "@.len() as int) =~= "worktree "@);
    assert(worktree_line_for(path).skip("worktree "@.len() as int) =~= path);
}

proof fn scan_from_record_start(
    rest: Seq<Seq<char>>,
    c1: Option<Seq<char>>,
    m1: bool,
    c2: Option<Seq<char>>,
    m2: bool,
    root: Option<Seq<char>>,
)
    requires
        rest.len() == 0 || "worktree "@.is_prefix_of(rest[0]),
    ensures
        scan_records(rest, c1, m1, true, root) == scan_records(rest, c2, m2, true, root),
{
}

/// The main worktree's record (the first one of the output) is never
/// listed, whatever line follows its `worktree` line: the list is the same
/// as if that line (a `branch`, `detached`, `bare` or any other line) were
/// not there.
pub proof fn main_record_never_listed(
    main: Seq<char>,
    line: Seq<char>,
    rest: Seq<Seq<char>>,
    root: Option<Seq<char>>,
)
    requires
        !"worktree "@.is_prefix_of(line),
        rest.len() == 0 || "worktree "@.is_prefix_of(rest[0]),
    ensures
        listed_worktrees(seq![worktree_line_for(main), line] + rest, root) == listed_worktrees(
            seq![worktree_line_for(main)] + rest,
            root,
        ),
{
    opening_line(main);
    let a = seq![worktree_line_for(main), line] + rest;
    let b = seq![worktree_line_for(main)] + rest;
    assert(a[0] == worktree_line_for(main));
    assert(b[0] == worktree_line_for(main));
    assert(a.drop_first() =~= seq![line] + rest);
    assert(b.drop_first() =~= rest);
    let a1 = seq![line] + rest;
    assert(a1[0] == line);
    assert(a1.drop_first() =~= rest);
    assert(scan_records(a, None, false, false, root) == scan_records(a1, Some(main), true, true, root));
    assert(scan_records(b, None, false, false, root) == scan_records(rest, Some(main), true, true, root));
    scan_from_record_start(rest, None, false, Some(main), true, root);
    if "branch "@.is_prefix_of(line) || "detached"@.is_prefix_of(line) {
        assert(scan_records(a1, Some(main), true, true, root) == scan_records(rest, None, false, true, root));
    } else {
        assert(scan_records(a1, Some(main), true, true, root) == scan_records(rest, Some(main), true, true, root));
    }
}

proof fn main_body_passed_over(
    body: Seq<Seq<char>>,
    rest: Seq<Seq<char>>,
    current: Option<Seq<char>>,
    in_main: bool,
    root: Option<Seq<char>>,
)
    requires
        forall|i: int| 0 <= i < body.len() ==> !"worktree "@.is_prefix_of(#[trigger] body[i]),
        rest.len() == 0 || "worktree "@.is_prefix_of(rest[0]),
        current is None || in_main,
    ensures
        scan_records(body + rest, current, in_main, true, root) == scan_records(
            rest,
            None,
            false,
            true,
            root,
        ),
    decreases body.len(),
{
    if body.len() == 0 {
        assert(body + rest =~= rest);
        scan_from_record_start(rest, current, in_main, None, false, root);
    } else {
        let lines = body + rest;
        assert(lines[0] == body[0]);
        assert(lines.drop_first() =~= body.drop_first() + rest);
        let tail = body.drop_first();
        assert forall|i: int| 0 <= i < tail.len() implies !"worktree "@.is_prefix_of(#[trigger] tail[i]) by {
            assert(tail[i] == body[i + 1]);
        }
        let line = body[0];
        assert(!"worktree "@.is_prefix_of(line));
        match current {
            Some(path) => {
                if "branch "@.is_prefix_of(line) || "detached"@.is_prefix_of(line) {
                    main_body_passed_over(tail, rest, None, false, root);
                } else {
                    main_body_passed_over(tail, rest, current, in_main, root);
                }
            },
            None => {
                main_body_passed_over(tail, rest, None, in_main, root);
            },
        }
    }
}

/// Nothing of the main worktree's record (the first record of the output)
/// reaches the list, whatever lines it holds (`HEAD`, `branch`, `detached`,
/// `bare`, ...) and whatever its path: the list is that of the records after
/// it, the same as after any other main record.
pub proof fn main_record_lines_never_listed(
    main: Seq<char>,
    body: Seq<Seq<char>>,
    other: Seq<char>,
    rest: Seq<Seq<char>>,
    root: Option<Seq<char>>,
)
    requires
        forall|i: int| 0 <= i < body.len() ==> !"worktree "@.is_prefix_of(#[trigger] body[i]),
        rest.len() == 0 || "worktree "@.is_prefix_of(rest[0]),
    ensures
        listed_worktrees(seq![worktree_line_for(main)] + body + rest, root) == listed_worktrees(
            seq![worktree_line_for(other)] + rest,
            root,
        ),
{
    opening_line(main);
    opening_line(other);
    let a = seq![worktree_line_for(main)] + body + rest;
    let b = seq![worktree_line_for(other)] + rest;
    assert(a[0] == worktree_line_for(main));
    assert(b[0] == worktree_line_for(other));
    assert(a.drop_first() =~= body + rest);
    assert(b.drop_first() =~= rest);
    main_body_passed_over(body, rest, Some(main), true, root);
    main_body_passed_over(Seq::empty(), rest, Some(other), true, root);
    assert(Seq::<Seq<char>>::empty() + rest =~= rest);
}

/// After a main worktree, closed by any line, a worktree on a branch is
/// listed, alone, with its path and branch, and marked current exactly when
/// it is the repository root.
pub proof fn second_record_listed(
    main: Seq<char>,
    line: Seq<char>,
    path: Seq<char>,
    branch: Seq<char>,
    root: Option<Seq<char>>,
)
    requires
        !"worktree "@.is_prefix_of(line),
    ensures
        listed_worktrees(
            seq![worktree_line_for(main), line, worktree_line_for(path), "branch "@ + branch],
            root,
        ) == seq![WorktreeView { path, branch: Some(branch), is_current: root == Some(path) }],
{
    reveal_strlit("worktree ");
    reveal_strlit("branch ");
    opening_line(path);
    let bl = "branch "@ + branch;
    assert(bl.take("branch "@.len() as int) =~= "branch "@);
    assert(bl.skip("branch "@.len() as int) =~= branch);
    assert(!"worktree "@.is_prefix_of(bl)) by {
        if "worktree "@.is_prefix_of(bl) {
            assert(bl[0] == "worktree "@[0]);
        }
    }
    let rest = seq![worktree_line_for(path), bl];
    main_record_never_listed(main, line, rest, root);
    assert(seq![worktree_line_for(main), line, worktree_line_for(path), bl] =~= seq![
        worktree_line_for(main),
        line,
    ] + rest);
    let b = seq![worktree_line_for(main)] + rest;
    opening_line(main);
    assert(b.drop_first() =~= rest);
    assert(rest.drop_first() =~= seq![bl]);
    assert(seq![bl].drop_first() =~= Seq::<Seq<char>>::empty());
    assert(seq![bl][0] == bl);
    assert(scan_records(Seq::<Seq<char>>::empty(), None, false, true, root) =~= Seq::<WorktreeView>::empty());
    assert(scan_records(seq![bl], Some(path), false, true, root) == seq![
        crate::worktree::worktree_entry(path, Some(branch), root),
    ] + scan_records(Seq::<Seq<char>>::empty(), None, false, true, root));
    assert(rest[0] == worktree_line_for(path));
    assert(scan_records(rest, Some(main), true, true, root) == scan_records(seq![bl], Some(path), false, true, root));
    assert(scan_records(b, None, false, false, root) == scan_records(rest, Some(main), true, true, root));
    assert(scan_records(seq![bl], Some(path), false, true, root) =~= seq![
        WorktreeView { path, branch: Some(branch), is_current: root == Some(path) },
    ]);
}

/// An input at the create prompt that is a branch name: it starts with none
/// of `/`, `~`, `./` and `../`.
pub open spec fn is_branch_name(input: Seq<char>) -> bool {
    !"/"@.is_prefix_of(input) && !"~"@.is_prefix_of(input) && !"./"@.is_prefix_of(input)
        && !"../"@.is_prefix_of(input)
}

/// The directory that new worktrees named by a branch go into: the base
/// path, else the directory that holds the repository.
pub open spec fn branch_home(root: Option<Seq<char>>, base: Option<Seq<char>>) -> Option<Seq<char>> {
    match base {
        Some(b) => Some(b),
        None => match root {
            Some(r) => Some(parent_or_dot(r)),
            None => None,
        },
    }
}

/// A branch name resolves, whole and unchanged, to an entry of the
/// directory for new worktrees: the result is that directory, a `/`, and the
/// input; and it resolves exactly when that directory is known.
pub proof fn branch_name_kept_whole(input: Seq<char>, root: Option<Seq<char>>, base: Option<Seq<char>>)
    requires
        is_branch_name(input),
    ensures
        resolved_path(input, root, base) is Some <==> branch_home(root, base) is Some,
        resolved_path(input, root, base) matches Some(p) ==> {
            let home = branch_home(root, base)->0;
            &&& p.len() == home.len() + 1 + input.len()
            &&& p.take(home.len() as int) == home
            &&& p[home.len() as int] == '/'
            &&& p.skip(home.len() as int + 1) == input
        },
{
    reveal_strlit("/");
    if let Some(p) = resolved_path(input, root, base) {
        let home = branch_home(root, base)->0;
        assert(p == home + "/"@ + input);
        assert(p.take(home.len() as int) =~= home);
        assert(p.skip(home.len() as int + 1) =~= input);
    }
}

/// Two different branch names never resolve to the same place.
pub proof fn distinct_branch_names_resolve_apart(
    first: Seq<char>,
    second: Seq<char>,
    root: Option<Seq<char>>,
    base: Option<Seq<char>>,
)
    requires
        is_branch_name(first),
        is_branch_name(second),
        first != second,
        resolved_path(first, root, base) is Some,
    ensures
        resolved_path(first, root, base) != resolved_path(second, root, base),
{
    branch_name_kept_whole(first, root, base);
    branch_name_kept_whole(second, root, base);
    let home = branch_home(root, base)->0;
    if resolved_path(first, root, base) == resolved_path(second, root, base) {
        let p = resolved_path(first, root, base)->0;
        assert(first =~= p.skip(home.len() as int + 1));
        assert(second =~= p.skip(home.len() as int + 1));
    }
}

/// The number of lines above the list's title: the build label, and the
/// diagnostic line when there is one.
pub open spec fn header_len(s: StateView) -> int {
    if s.cwd_diagnostic is Some { 2 } else { 1 }
}

/// The screen line that shows the `i`-th worktree of the list.
pub open spec fn list_row(s: StateView, i: int) -> LineView {
    screen(s)[header_len(s) + 3 + i]
}

/// A line holds a yellow `(current)` piece.
pub open spec fn shows_current(row: LineView) -> bool {
    exists|k: int| 0 <= k < row.len() && row[k] == ("(current)"@, Style::Yellow)
}

/// In the list, the row of each worktree starts with `>` exactly when it is
/// the selected one, shows its branch (or `detached`) in cyan, and carries a
/// yellow `(current)` exactly when the worktree is the current one, whether
/// it is selected or not.
pub proof fn list_rows_show_selection_and_current(s: StateView, i: int)
    requires
        s.initialized,
        s.mode == Mode::List,
        0 <= i < s.worktrees.len(),
    ensures
        header_len(s) + 3 + i < screen(s).len(),
        list_row(s, i).len() >= 3,
        list_row(s, i)[0].0[0] == (if i == s.selected_index { '>' } else { ' ' }),
        list_row(s, i)[1] == (
            match s.worktrees[i].branch {
                Some(b) => b,
                None => "detached"@,
            },
            Style::Cyan,
        ),
        shows_current(list_row(s, i)) <==> s.worktrees[i].is_current,
{
    reveal_strlit(">");
    reveal_strlit(" ");
    let header: int = if s.cwd_diagnostic is Some { 2 } else { 1 };
    let head: Seq<LineView> = seq![crate::screen::single(crate::screen::BUILD_LABEL@, Style::BrightBlack)]
        + match s.cwd_diagnostic {
        Some(d) => seq![crate::screen::single(d, Style::BrightBlack)],
        None => Seq::empty(),
    };
    assert(head.len() == header);
    assert(screen(s) == head + body(s));
    assert(body(s) == list_screen(s));
    assert(s.worktrees.len() > 0);
    let rows = worktree_lines(s.worktrees, s.selected_index);
    let top: Seq<LineView> = seq![
        crate::screen::single("Worktrees"@, Style::CyanBold),
        crate::screen::single(crate::screen::LIST_HELP@, Style::BrightBlack),
        crate::screen::blank(),
    ];
    assert(list_screen(s) == top + rows + crate::screen::error_tail(s.error_message));
    assert(rows[i] == worktree_line(s.worktrees[i], i == s.selected_index));
    assert((top + rows + crate::screen::error_tail(s.error_message))[3 + i] == rows[i]);
    assert(screen(s)[header + 3 + i] == list_screen(s)[3 + i]);
    let row = screen(s)[header + 3 + i];
    let w = s.worktrees[i];
    let marker = if i == s.selected_index { ">"@ } else { " "@ };
    assert(row[0].0 == marker + " "@ + crate::text::after_last_slash(w.path) + " "@);
    assert(row[0].0[0] == marker[0]);
    if w.is_current {
        assert(row.len() == 5);
        assert(row[4] == ("(current)"@, Style::Yellow));
        assert(shows_current(row));
    } else {
        assert(row.len() == 3);
        assert forall|k: int| 0 <= k < row.len() implies row[k] != ("(current)"@, Style::Yellow) by {
            assert(row[k].1 != Style::Yellow);
        }
        assert(!shows_current(row));
    }
    assert(header + 3 + i < screen(s).len());
    assert(row.len() >= 3);
    assert(row[0].0[0] == (if i == s.selected_index { '>' } else { ' ' }));
    assert(row[1] == (
        match w.branch {
            Some(b) => b,
            None => "detached"@,
        },
        Style::Cyan,
    ));
}

/// Selecting a worktree changes only the first character of its row, `>`
/// in place of a space; every other piece, the `(current)` mark among them,
/// is the same whether the worktree is selected or not, and that mark is
/// there exactly when the worktree is current.
pub proof fn selection_changes_only_marker(w: WorktreeView)
    ensures
        worktree_line(w, true).len() == worktree_line(w, false).len(),
        worktree_line(w, true)[0].0[0] == '>',
        worktree_line(w, false)[0].0[0] == ' ',
        worktree_line(w, true)[0].0.len() == worktree_line(w, false)[0].0.len(),
        worktree_line(w, true)[0].0.skip(1) == worktree_line(w, false)[0].0.skip(1),
        worktree_line(w, true)[0].1 == worktree_line(w, false)[0].1,
        forall|k: int| 1 <= k < worktree_line(w, true).len() ==> worktree_line(w, true)[k] == worktree_line(w, false)[k],
        shows_current(worktree_line(w, true)) <==> w.is_current,
        shows_current(worktree_line(w, false)) <==> w.is_current,
{
    reveal_strlit(">");
    reveal_strlit(" ");
    let rest = " "@ + crate::text::after_last_slash(w.path) + " "@;
    assert((">"@ + rest).skip(1) =~= rest);
    assert((" "@ + rest).skip(1) =~= rest);
    assert(worktree_line(w, true)[0].0 == ">"@ + rest);
    assert(worktree_line(w, false)[0].0 == " "@ + rest);
    assert forall|sel: bool| shows_current(#[trigger] worktree_line(w, sel)) <==> w.is_current by {
        let row = worktree_line(w, sel);
        if w.is_current {
            assert(row[4] == ("(current)"@, Style::Yellow));
        } else {
            assert forall|k: int| 0 <= k < row.len() implies row[k] != ("(current)"@, Style::Yellow) by {
                assert(row[k].1 != Style::Yellow);
            }
        }
    }
}

proof fn first_active_is_found(tabs: Seq<TabSummary>, j: int)
    requires
        0 <= j < tabs.len(),
        tabs[j].active,
        forall|i: int| 0 <= i < j ==> !tabs[i].active,
    ensures
        first_active_tab(tabs) == Some(tabs[j].position),
    decreases j,
{
    if j > 0 {
        assert(!tabs[0].active);
        let rest = tabs.drop_first();
        assert forall|i: int| 0 <= i < j - 1 implies !rest[i].active by {
            assert(rest[i] == tabs[i + 1]);
        }
        first_active_is_found(rest, j - 1);
    }
}

proof fn no_active_is_none(tabs: Seq<TabSummary>)
    requires
        forall|i: int| 0 <= i < tabs.len() ==> !tabs[i].active,
    ensures
        first_active_tab(tabs) is None,
    decreases tabs.len(),
{
    if tabs.len() > 0 {
        let rest = tabs.drop_first();
        assert forall|i: int| 0 <= i < rest.len() implies !rest[i].active by {
            assert(rest[i] == tabs[i + 1]);
        }
        no_active_is_none(rest);
    }
}

/// A tab update records as the active tab the position of the first tab of
/// the update that is active, whatever tab was recorded before; and a refresh
/// that waits on this machine for the tab and the pane layout asks for the
/// working directory of the focused pane of that newly active tab.
pub proof fn tab_update_follows_active_tab(s: StateView, tabs: Seq<TabSummary>, j: int)
    requires
        0 <= j < tabs.len(),
        tabs[j].active,
        forall|i: int| 0 <= i < j ==> !tabs[i].active,
    ensures
        tabs_updated(s, tabs).0.active_tab_position == Some(tabs[j].position),
        s.refresh_pending && !(s.remote_host is Some && s.remote_repo is Some)
            && s.pane_manifest is Some ==> match focused_pane(
            tabs[j].position,
            s.pane_manifest->0,
        ) {
            Some(id) => tabs_updated(s, tabs).1 == seq![EffectView::QueryPaneCwd { pane_id: id }],
            None => tabs_updated(s, tabs).1.len() == 0 && tabs_updated(s, tabs).0.error_message
                is Some,
        },
{
    first_active_is_found(tabs, j);
}

/// A tab update in which no tab is active leaves no active tab recorded,
/// whatever was recorded before.
pub proof fn tab_update_without_active_tab(s: StateView, tabs: Seq<TabSummary>)
    requires
        forall|i: int| 0 <= i < tabs.len() ==> !tabs[i].active,
    ensures
        tabs_updated(s, tabs).0.active_tab_position is None,
{
    no_active_is_none(tabs);
}

/// Enter on the list, with a worktree selected and nothing waited for,
/// always opens that worktree in a new tab named after its directory and
/// closes the plugin, current or not: over `ssh -t` with a login shell in
/// it when a remote host and repository are set; else in a tab that starts
/// in it, running the workbench command when one is set. Nothing else
/// changes.
pub proof fn enter_opens_selected_worktree(s: StateView, key: KeyPress)
    requires
        key.code == KeyCode::Enter,
        !s.waiting_for_command,
        s.mode == Mode::List,
        s.selected_index < s.worktrees.len(),
    ensures
        ({
            let path = s.worktrees[s.selected_index as int].path;
            let r = key_pressed(s, key);
            &&& r.0 == s
            &&& r.2
            &&& r.1.len() == 2
            &&& r.1[1] == EffectView::CloseSelf
            &&& r.1[0] is OpenTab
            &&& r.1[0]->OpenTab_name == tab_name(path)
            &&& if s.remote_host is Some && s.remote_repo is Some {
                &&& r.1[0]->OpenTab_cwd is None
                &&& r.1[0]->OpenTab_command == Some(
                    seq![
                        "ssh"@,
                        "-t"@,
                        s.remote_host->0,
                        "cd -- "@ + shell_quote(path) + " && exec \"$SHELL\" -l"@,
                    ],
                )
            } else {
                &&& r.1[0]->OpenTab_cwd == Some(path)
                &&& r.1[0]->OpenTab_command == match s.workbench_command {
                    Some(w) => Some(seq![w]),
                    None => None,
                }
            }
        }),
{
}

} // verus!
