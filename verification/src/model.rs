//! The plugin's inputs and outputs as plain values: modes, key presses, the
//! tab and pane layout it is told about, the contexts it attaches to
//! commands, and the effects it asks its host to perform.

use std::collections::HashMap;
use vstd::prelude::*;
use crate::text::opt_text;

verus! {

/// What the plugin is showing.
#[derive(Debug, Clone, Copy, PartialEq, Eq, Structural)]
pub enum Mode {
    /// The list of worktrees.
    List,
    /// The prompt for a new worktree's branch or path.
    Create,
    /// The confirmation before deleting the selected worktree.
    DeleteConfirm,
}

/// A key, without its modifiers.
#[derive(Debug, Clone, Copy, PartialEq, Eq)]
pub enum KeyCode {
    Esc,
    Enter,
    Backspace,
    Up,
    Down,
    Char(char),
    /// Any key the plugin does not react to.
    Other,
}

/// The modifiers held with a key.
#[derive(Debug, Clone, Copy, PartialEq, Eq)]
pub struct Modifiers {
    pub ctrl: bool,
    pub alt: bool,
    pub shift: bool,
    pub super_key: bool,
}

impl Modifiers {
    /// No modifier is held.
    pub open spec fn spec_none(self) -> bool {
        !self.ctrl && !self.alt && !self.shift && !self.super_key
    }

    /// Whether no modifier is held.
    #[verifier::when_used_as_spec(spec_none)]
    pub fn none(self) -> (res: bool)
        ensures
            res == self.spec_none(),
    {
        !self.ctrl && !self.alt && !self.shift && !self.super_key
    }
}

/// A key press.
#[derive(Debug, Clone, Copy, PartialEq, Eq)]
pub struct KeyPress {
    pub code: KeyCode,
    pub modifiers: Modifiers,
}

/// What the host reports of one tab.
#[derive(Debug, Clone, Copy, PartialEq, Eq)]
pub struct TabSummary {
    /// The tab's position, from 0.
    pub position: usize,
    /// Whether the tab is the active one.
    pub active: bool,
}

/// What the host reports of one pane.
#[derive(Debug, Clone, Copy, PartialEq, Eq)]
pub struct PaneSummary {
    pub id: u32,
    pub is_plugin: bool,
    pub is_focused: bool,
}

/// The panes of each tab, by tab position.
pub type PaneLayout = HashMap<usize, Vec<PaneSummary>>;

/// The position of the first active tab.
pub open spec fn first_active_tab(tabs: Seq<TabSummary>) -> Option<usize>
    decreases tabs.len(),
{
    if tabs.len() == 0 {
        None
    } else if tabs[0].active {
        Some(tabs[0].position)
    } else {
        first_active_tab(tabs.drop_first())
    }
}

/// The position of the first active tab.
pub fn active_tab(tabs: &Vec<TabSummary>) -> (pos: Option<usize>)
    ensures
        pos == first_active_tab(tabs@),
{
    let mut i: usize = 0;
    assert(tabs@.skip(0) =~= tabs@);
    while i < tabs.len()
        invariant
            i <= tabs.len(),
            first_active_tab(tabs@) == first_active_tab(tabs@.skip(i as int)),
        decreases tabs.len() - i,
    {
        assert(tabs@.skip(i as int).drop_first() =~= tabs@.skip(i + 1));
        if tabs[i].active {
            return Some(tabs[i].position);
        }
        i = i + 1;
    }
    None
}

/// The id of the first focused pane that is not a plugin.
pub open spec fn first_focused_terminal(panes: Seq<PaneSummary>) -> Option<u32>
    decreases panes.len(),
{
    if panes.len() == 0 {
        None
    } else if panes[0].is_focused && !panes[0].is_plugin {
        Some(panes[0].id)
    } else {
        first_focused_terminal(panes.drop_first())
    }
}

/// The focused terminal pane of the tab at `tab`, as the host's
/// `get_focused_pane` picks it: the first focused pane of that tab that is
/// not a plugin.
pub open spec fn focused_pane(tab: usize, layout: Map<usize, Vec<PaneSummary>>) -> Option<u32> {
    if layout.contains_key(tab) {
        first_focused_terminal(layout[tab]@)
    } else {
        None
    }
}

/// The id of the focused terminal pane of the tab at `tab`.
pub fn focused_terminal_pane(tab: usize, layout: &PaneLayout) -> (id: Option<u32>)
    ensures
        id == focused_pane(tab, layout@),
{
    broadcast use vstd::std_specs::hash::group_hash_axioms;
    match layout.get(&tab) {
        Some(panes) => {
            let mut i: usize = 0;
            assert(panes@.skip(0) =~= panes@);
            while i < panes.len()
                invariant
                    i <= panes.len(),
                    focused_pane(tab, layout@) == first_focused_terminal(panes@),
                    first_focused_terminal(panes@) == first_focused_terminal(
                        panes@.skip(i as int),
                    ),
                decreases panes.len() - i,
            {
                assert(panes@.skip(i as int).drop_first() =~= panes@.skip(i + 1));
                if panes[i].is_focused && !panes[i].is_plugin {
                    return Some(panes[i].id);
                }
                i = i + 1;
            }
            None
        },
        None => None,
    }
}

/// Key/value pairs attached to a command and handed back with its result.
pub type CommandContext = Vec<(String, String)>;

/// The texts of key/value pairs.
pub open spec fn pair_texts(pairs: Seq<(String, String)>) -> Seq<(Seq<char>, Seq<char>)> {
    pairs.map_values(|p: (String, String)| (p.0@, p.1@))
}

/// The value of the first pair with the given key.
pub open spec fn lookup(pairs: Seq<(Seq<char>, Seq<char>)>, key: Seq<char>) -> Option<Seq<char>>
    decreases pairs.len(),
{
    if pairs.len() == 0 {
        None
    } else if pairs[0].0 == key {
        Some(pairs[0].1)
    } else {
        lookup(pairs.drop_first(), key)
    }
}

/// The value of the first pair with the given key.
pub fn context_get<'a>(context: &'a CommandContext, key: &str) -> (value: Option<&'a String>)
    ensures
        match value {
            Some(v) => lookup(pair_texts(context@), key@) == Some(v@),
            None => lookup(pair_texts(context@), key@) is None,
        },
{
    let ghost all = pair_texts(context@);
    let mut i: usize = 0;
    assert(all.skip(0) =~= all);
    while i < context.len()
        invariant
            all == pair_texts(context@),
            i <= context.len(),
            lookup(all, key@) == lookup(all.skip(i as int), key@),
        decreases context.len() - i,
    {
        assert(all.skip(i as int).drop_first() =~= all.skip(i + 1));
        assert(all.skip(i as int)[0] == (context@[i as int].0@, context@[i as int].1@));
        if crate::text::same_text(context[i].0.as_str(), key) {
            return Some(&context[i].1);
        }
        i = i + 1;
    }
    None
}

/// Something the plugin asks its host to do.
#[derive(Debug, Clone, PartialEq, Eq)]
pub enum Effect {
    /// Run `argv` in `cwd` (in the plugin's own directory when `None`), and
    /// report the result with `context`.
    RunCommand { argv: Vec<String>, cwd: Option<String>, context: CommandContext },
    /// Open a new tab named `name` whose panes start in `cwd` (the host's
    /// default when `None`); when `command` is given, the tab runs it.
    OpenTab { name: String, cwd: Option<String>, command: Option<Vec<String>> },
    /// Close the plugin.
    CloseSelf,
    /// Ask for the working directory of the pane `pane_id`.
    QueryPaneCwd { pane_id: u32 },
    /// Ask for the process id of the pane `pane_id`, whose working directory is `cwd`.
    QueryPanePid { pane_id: u32, cwd: String },
}

/// The mathematical value of an [`Effect`].
pub enum EffectView {
    RunCommand {
        argv: Seq<Seq<char>>,
        cwd: Option<Seq<char>>,
        context: Seq<(Seq<char>, Seq<char>)>,
    },
    OpenTab { name: Seq<char>, cwd: Option<Seq<char>>, command: Option<Seq<Seq<char>>> },
    CloseSelf,
    QueryPaneCwd { pane_id: u32 },
    QueryPanePid { pane_id: u32, cwd: Seq<char> },
}

/// The texts of a sequence of strings.
pub open spec fn texts(v: Seq<String>) -> Seq<Seq<char>> {
    v.map_values(|s: String| s@)
}

impl View for Effect {
    type V = EffectView;

    open spec fn view(&self) -> EffectView {
        match self {
            Effect::RunCommand { argv, cwd, context } => EffectView::RunCommand {
                argv: texts(argv@),
                cwd: opt_text(*cwd),
                context: pair_texts(context@),
            },
            Effect::OpenTab { name, cwd, command } => EffectView::OpenTab {
                name: name@,
                cwd: opt_text(*cwd),
                command: match command {
                    Some(c) => Some(texts(c@)),
                    None => None,
                },
            },
            Effect::CloseSelf => EffectView::CloseSelf,
            Effect::QueryPaneCwd { pane_id } => EffectView::QueryPaneCwd { pane_id: *pane_id },
            Effect::QueryPanePid { pane_id, cwd } => EffectView::QueryPanePid {
                pane_id: *pane_id,
                cwd: cwd@,
            },
        }
    }
}

/// The views of a sequence of effects.
pub open spec fn effect_views(v: Seq<Effect>) -> Seq<EffectView> {
    v.map_values(|e: Effect| e@)
}

/// The text of an optional string, or nothing.
pub open spec fn text_or_empty(s: Option<Seq<char>>) -> Seq<char> {
    match s {
        Some(t) => t,
        None => Seq::empty(),
    }
}


} // verus!
