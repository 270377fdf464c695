//! What the plugin draws: lines of styled text, computed from the state.
//! Painting the styles and printing is left to the caller.

use vstd::prelude::*;
use vstd::string::*;
use crate::model::Mode;
use crate::state::{State, StateView};
use crate::text::{after_last_slash, last_path_piece, owned};
use crate::worktree::{WorktreeInfo, WorktreeView};

verus! {

/// The label drawn at the top of every screen.
pub const BUILD_LABEL: &'static str = "zellij-worktree 0.1.0 (live-cwd fix)";

/// The key help drawn under the list's title.
pub const LIST_HELP: &'static str = "[j/k] navigate | [Enter] open | [n] new | [d] delete";

/// How a piece of text is painted.
#[derive(Debug, Clone, Copy, PartialEq, Eq, Structural)]
pub enum Style {
    Plain,
    BrightBlack,
    Red,
    RedBold,
    Yellow,
    Cyan,
    CyanBold,
    Blink,
}

/// A piece of text and how it is painted.
#[derive(Debug, Clone, PartialEq, Eq)]
pub struct Segment {
    pub text: String,
    pub style: Style,
}

impl View for Segment {
    type V = (Seq<char>, Style);

    open spec fn view(&self) -> (Seq<char>, Style) {
        (self.text@, self.style)
    }
}

/// One line of the screen, as its pieces.
pub type Line = Vec<Segment>;

/// The mathematical value of a line.
pub type LineView = Seq<(Seq<char>, Style)>;

/// The views of the pieces of a line.
pub open spec fn line_view(line: Seq<Segment>) -> LineView {
    line.map_values(|s: Segment| s@)
}

/// The views of lines.
pub open spec fn line_views(lines: Seq<Line>) -> Seq<LineView> {
    lines.map_values(|l: Line| line_view(l@))
}

/// A line of one piece.
pub open spec fn single(text: Seq<char>, style: Style) -> LineView {
    seq![(text, style)]
}

/// An empty line.
pub open spec fn blank() -> LineView {
    Seq::empty()
}

/// A blank line and the error, in red, when there is one.
pub open spec fn error_tail(error: Option<Seq<char>>) -> Seq<LineView> {
    match error {
        Some(e) => seq![blank(), single(e, Style::Red)],
        None => Seq::empty(),
    }
}

/// A blank line and `note`, in yellow, while a command is waited for.
pub open spec fn waiting_tail(waiting: bool, note: Seq<char>) -> Seq<LineView> {
    if waiting {
        seq![blank(), single(note, Style::Yellow)]
    } else {
        Seq::empty()
    }
}

/// The line of a worktree: a marker if selected, the last component of its
/// path, its branch (or `detached`) in cyan, and `(current)` in yellow for
/// the current one.
pub open spec fn worktree_line(w: WorktreeView, selected: bool) -> LineView {
    let marker = if selected { ">"@ } else { " "@ };
    let branch = match w.branch {
        Some(b) => b,
        None => "detached"@,
    };
    seq![(marker + " "@ + after_last_slash(w.path) + " "@, Style::Plain), (branch, Style::Cyan), (" "@, Style::Plain)]
        + if w.is_current {
        seq![(" "@, Style::Plain), ("(current)"@, Style::Yellow)]
    } else {
        Seq::empty()
    }
}

/// The lines of the worktree list.
pub open spec fn worktree_lines(ws: Seq<WorktreeView>, selected: usize) -> Seq<LineView> {
    Seq::new(ws.len(), |i: int| worktree_line(ws[i], i == selected))
}

/// The lines of the list screen.
pub open spec fn list_screen(s: StateView) -> Seq<LineView> {
    seq![single("Worktrees"@, Style::CyanBold), single(LIST_HELP@, Style::BrightBlack), blank()]
        + if s.worktrees.len() == 0 {
        seq![
            single("No worktrees found"@, Style::BrightBlack),
            blank(),
            single("Press [n] to create a new worktree"@, Style::BrightBlack),
        ]
    } else {
        worktree_lines(s.worktrees, s.selected_index)
    } + error_tail(s.error_message)
}

/// The lines of the create prompt.
pub open spec fn create_screen(s: StateView) -> Seq<LineView> {
    seq![
        single("Create Worktree"@, Style::CyanBold),
        single("[Esc] back to list"@, Style::BrightBlack),
        blank(),
        seq![("Path/branch: "@ + s.input, Style::Plain), ("_"@, Style::Blink)],
    ] + error_tail(s.error_message) + waiting_tail(s.waiting_for_command, "Creating worktree..."@)
}

/// The lines of the delete confirmation, when a worktree is selected.
pub open spec fn delete_screen(s: StateView) -> Seq<LineView> {
    if s.selected_index < s.worktrees.len() {
        let w = s.worktrees[s.selected_index as int];
        seq![
            single("Confirm Delete"@, Style::RedBold),
            blank(),
            seq![("Delete worktree: "@, Style::Plain), (w.path, Style::Cyan)],
        ] + match w.branch {
            Some(b) => seq![seq![("Branch: "@, Style::Plain), (b, Style::Yellow)]],
            None => Seq::empty(),
        } + seq![blank(), single("[Enter] confirm | [Esc] cancel"@, Style::BrightBlack)]
            + error_tail(s.error_message) + waiting_tail(s.waiting_for_command, "Deleting..."@)
    } else {
        Seq::empty()
    }
}

/// What is drawn below the label: the error or a loading note until the
/// list has been read, then the screen of the mode.
pub open spec fn body(s: StateView) -> Seq<LineView> {
    if !s.initialized {
        match s.error_message {
            Some(e) => seq![
                single(e, Style::Red),
                blank(),
                single("Press Esc to close"@, Style::BrightBlack),
            ],
            None => seq![single("Loading..."@, Style::Yellow)],
        }
    } else {
        match s.mode {
            Mode::List => list_screen(s),
            Mode::Create => create_screen(s),
            Mode::DeleteConfirm => delete_screen(s),
        }
    }
}

/// The whole screen: the label, the diagnostic when there is one, and the body.
pub open spec fn screen(s: StateView) -> Seq<LineView> {
    seq![single(BUILD_LABEL@, Style::BrightBlack)] + match s.cwd_diagnostic {
        Some(d) => seq![single(d, Style::BrightBlack)],
        None => Seq::empty(),
    } + body(s)
}

fn segment(text: String, style: Style) -> (s: Segment)
    ensures
        s@ == (text@, style),
{
    Segment { text, style }
}

fn single_line(text: String, style: Style) -> (line: Line)
    ensures
        line_view(line@) == single(text@, style),
{
    let mut line = Vec::new();
    line.push(Segment { text, style });
    assert(line_view(line@) =~= single(text@, style));
    line
}

fn blank_line() -> (line: Line)
    ensures
        line_view(line@) == blank(),
{
    let line: Line = Vec::new();
    assert(line_view(line@) =~= blank());
    line
}

fn push_line(lines: &mut Vec<Line>, line: Line)
    ensures
        line_views(final(lines)@) == line_views(old(lines)@).push(line_view(line@)),
{
    let ghost before = lines@;
    lines.push(line);
    assert(line_views(lines@) =~= line_views(before).push(line_view(line@)));
}

fn append_lines(lines: &mut Vec<Line>, more: Vec<Line>)
    ensures
        line_views(final(lines)@) == line_views(old(lines)@) + line_views(more@),
{
    let ghost before = lines@;
    let ghost added = more@;
    let mut more = more;
    lines.append(&mut more);
    assert(line_views(lines@) =~= line_views(before) + line_views(added));
}

fn error_tail_lines(error: &Option<String>) -> (lines: Vec<Line>)
    ensures
        line_views(lines@) == error_tail(crate::text::opt_text(*error)),
{
    let mut lines: Vec<Line> = Vec::new();
    match error {
        Some(e) => {
            push_line(&mut lines, blank_line());
            push_line(&mut lines, single_line(e.clone(), Style::Red));
        },
        None => {},
    }
    assert(line_views(lines@) =~= error_tail(crate::text::opt_text(*error)));
    lines
}

fn waiting_tail_lines(waiting: bool, note: &str) -> (lines: Vec<Line>)
    ensures
        line_views(lines@) == waiting_tail(waiting, note@),
{
    let mut lines: Vec<Line> = Vec::new();
    if waiting {
        push_line(&mut lines, blank_line());
        push_line(&mut lines, single_line(owned(note), Style::Yellow));
    }
    assert(line_views(lines@) =~= waiting_tail(waiting, note@));
    lines
}

fn worktree_row(w: &WorktreeInfo, selected: bool) -> (line: Line)
    ensures
        line_view(line@) == worktree_line(w@, selected),
{
    let marker = if selected { ">" } else { " " };
    let lead = owned(marker).concat(" ").concat(last_path_piece(w.path.as_str())).concat(" ");
    let branch = match &w.branch {
        Some(b) => b.clone(),
        None => owned("detached"),
    };
    let mut line: Line = Vec::new();
    line.push(segment(lead, Style::Plain));
    line.push(segment(branch, Style::Cyan));
    line.push(segment(owned(" "), Style::Plain));
    if w.is_current {
        line.push(segment(owned(" "), Style::Plain));
        line.push(segment(owned("(current)"), Style::Yellow));
    }
    assert(line_view(line@) =~= worktree_line(w@, selected));
    line
}

impl State {
    fn worktree_rows(&self) -> (lines: Vec<Line>)
        ensures
            line_views(lines@) == worktree_lines(self@.worktrees, self.selected_index),
    {
        let mut lines: Vec<Line> = Vec::new();
        let mut i: usize = 0;
        while i < self.worktrees.len()
            invariant
                i <= self.worktrees.len(),
                line_views(lines@) =~= worktree_lines(self@.worktrees, self.selected_index).take(
                    i as int,
                ),
            decreases self.worktrees.len() - i,
        {
            let row = worktree_row(&self.worktrees[i], i == self.selected_index);
            push_line(&mut lines, row);
            assert(worktree_lines(self@.worktrees, self.selected_index).take(i + 1)
                =~= worktree_lines(self@.worktrees, self.selected_index).take(i as int).push(
                line_view(row@),
            ));
            i = i + 1;
        }
        assert(worktree_lines(self@.worktrees, self.selected_index).take(i as int)
            =~= worktree_lines(self@.worktrees, self.selected_index));
        lines
    }

    fn list_lines(&self) -> (lines: Vec<Line>)
        ensures
            line_views(lines@) == list_screen(self@),
    {
        let mut lines: Vec<Line> = Vec::new();
        push_line(&mut lines, single_line(owned("Worktrees"), Style::CyanBold));
        push_line(&mut lines, single_line(owned(LIST_HELP), Style::BrightBlack));
        push_line(&mut lines, blank_line());
        let ghost head = line_views(lines@);
        if self.worktrees.len() == 0 {
            push_line(&mut lines, single_line(owned("No worktrees found"), Style::BrightBlack));
            push_line(&mut lines, blank_line());
            push_line(
                &mut lines,
                single_line(owned("Press [n] to create a new worktree"), Style::BrightBlack),
            );
        } else {
            append_lines(&mut lines, self.worktree_rows());
        }
        let ghost middle = line_views(lines@);
        append_lines(&mut lines, error_tail_lines(&self.error_message));
        assert(line_views(lines@) =~= list_screen(self@));
        lines
    }

    fn create_lines(&self) -> (lines: Vec<Line>)
        ensures
            line_views(lines@) == create_screen(self@),
    {
        let mut lines: Vec<Line> = Vec::new();
        push_line(&mut lines, single_line(owned("Create Worktree"), Style::CyanBold));
        push_line(&mut lines, single_line(owned("[Esc] back to list"), Style::BrightBlack));
        push_line(&mut lines, blank_line());
        let mut prompt: Line = Vec::new();
        prompt.push(segment(owned("Path/branch: ").concat(self.input.as_str()), Style::Plain));
        prompt.push(segment(owned("_"), Style::Blink));
        assert(line_view(prompt@) =~= seq![
            ("Path/branch: "@ + self.input@, Style::Plain),
            ("_"@, Style::Blink),
        ]);
        push_line(&mut lines, prompt);
        append_lines(&mut lines, error_tail_lines(&self.error_message));
        append_lines(
            &mut lines,
            waiting_tail_lines(self.waiting_for_command, "Creating worktree..."),
        );
        assert(line_views(lines@) =~= create_screen(self@));
        lines
    }

    fn delete_lines(&self) -> (lines: Vec<Line>)
        ensures
            line_views(lines@) == delete_screen(self@),
    {
        let mut lines: Vec<Line> = Vec::new();
        if self.selected_index < self.worktrees.len() {
            let w = &self.worktrees[self.selected_index];
            push_line(&mut lines, single_line(owned("Confirm Delete"), Style::RedBold));
            push_line(&mut lines, blank_line());
            let mut target: Line = Vec::new();
            target.push(segment(owned("Delete worktree: "), Style::Plain));
            target.push(segment(w.path.clone(), Style::Cyan));
            assert(line_view(target@) =~= seq![
                ("Delete worktree: "@, Style::Plain),
                (w.path@, Style::Cyan),
            ]);
            push_line(&mut lines, target);
            match &w.branch {
                Some(b) => {
                    let mut branch: Line = Vec::new();
                    branch.push(segment(owned("Branch: "), Style::Plain));
                    branch.push(segment(b.clone(), Style::Yellow));
                    assert(line_view(branch@) =~= seq![
                        ("Branch: "@, Style::Plain),
                        (b@, Style::Yellow),
                    ]);
                    push_line(&mut lines, branch);
                },
                None => {},
            }
            push_line(&mut lines, blank_line());
            push_line(
                &mut lines,
                single_line(owned("[Enter] confirm | [Esc] cancel"), Style::BrightBlack),
            );
            append_lines(&mut lines, error_tail_lines(&self.error_message));
            append_lines(&mut lines, waiting_tail_lines(self.waiting_for_command, "Deleting..."));
        }
        assert(line_views(lines@) =~= delete_screen(self@));
        lines
    }

    /// The lines to draw, each a sequence of styled pieces.
    pub fn render_lines(&self) -> (lines: Vec<Line>)
        ensures
            line_views(lines@) == screen(self@),
    {
        let mut lines: Vec<Line> = Vec::new();
        push_line(&mut lines, single_line(owned(BUILD_LABEL), Style::BrightBlack));
        match &self.cwd_diagnostic {
            Some(d) => push_line(&mut lines, single_line(d.clone(), Style::BrightBlack)),
            None => {},
        }
        let ghost head = line_views(lines@);
        if !self.initialized {
            match &self.error_message {
                Some(e) => {
                    push_line(&mut lines, single_line(e.clone(), Style::Red));
                    push_line(&mut lines, blank_line());
                    push_line(&mut lines, single_line(owned("Press Esc to close"), Style::BrightBlack));
                },
                None => {
                    push_line(&mut lines, single_line(owned("Loading..."), Style::Yellow));
                },
            }
        } else {
            match self.mode {
                Mode::List => append_lines(&mut lines, self.list_lines()),
                Mode::Create => append_lines(&mut lines, self.create_lines()),
                Mode::DeleteConfirm => append_lines(&mut lines, self.delete_lines()),
            }
        }
        assert(line_views(lines@) =~= head + body(self@));
        assert(line_views(lines@) =~= screen(self@));
        lines
    }
}

} // verus!
