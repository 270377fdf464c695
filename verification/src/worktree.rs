//! The worktree list: what `git worktree list --porcelain` reports, read
//! record by record.

use vstd::prelude::*;
use crate::text::{has_prefix, opt_text, owned, same_text, strip_prefix_text};

verus! {

/// One worktree of the repository.
#[derive(Debug, Clone, PartialEq, Eq)]
pub struct WorktreeInfo {
    /// Where the worktree is checked out.
    pub path: String,
    /// The checked-out ref, or `None` for a detached `HEAD`.
    pub branch: Option<String>,
    /// Whether this is the worktree the plugin was started from.
    pub is_current: bool,
}

/// The mathematical value of a [`WorktreeInfo`].
pub struct WorktreeView {
    pub path: Seq<char>,
    pub branch: Option<Seq<char>>,
    pub is_current: bool,
}

impl View for WorktreeInfo {
    type V = WorktreeView;

    open spec fn view(&self) -> WorktreeView {
        WorktreeView { path: self.path@, branch: opt_text(self.branch), is_current: self.is_current }
    }
}

/// The views of a sequence of worktrees.
pub open spec fn worktree_views(ws: Seq<WorktreeInfo>) -> Seq<WorktreeView> {
    ws.map_values(|w: WorktreeInfo| w@)
}

/// The texts of a sequence of lines.
pub open spec fn line_texts(lines: Seq<&str>) -> Seq<Seq<char>> {
    lines.map_values(|l: &str| l@)
}

/// The record of a worktree at `path`, current when `path` is the repository root.
pub open spec fn worktree_entry(
    path: Seq<char>,
    branch: Option<Seq<char>>,
    root: Option<Seq<char>>,
) -> WorktreeView {
    WorktreeView { path, branch, is_current: root == Some(path) }
}

/// The worktrees that porcelain lines describe, but for the main one. A
/// `worktree <path>` line opens a record, and the first `branch <ref>` or
/// `detached` line after it closes it; other lines, and lines outside a
/// record, are passed over. `current` is the path of the open record,
/// `in_main` whether that record is the first one (the main worktree, whose
/// record is never listed, closed or not), and `seen` whether a record has
/// been opened yet.
pub open spec fn scan_records(
    lines: Seq<Seq<char>>,
    current: Option<Seq<char>>,
    in_main: bool,
    seen: bool,
    root: Option<Seq<char>>,
) -> Seq<WorktreeView>
    decreases lines.len(),
{
    if lines.len() == 0 {
        Seq::empty()
    } else {
        let line = lines[0];
        let rest = lines.drop_first();
        if "worktree "@.is_prefix_of(line) {
            scan_records(rest, Some(line.skip("worktree "@.len() as int)), !seen, true, root)
        } else {
            match current {
                Some(path) => {
                    if "branch "@.is_prefix_of(line) {
                        let entry = worktree_entry(path, Some(line.skip("branch "@.len() as int)), root);
                        if in_main {
                            scan_records(rest, None, false, seen, root)
                        } else {
                            seq![entry] + scan_records(rest, None, false, seen, root)
                        }
                    } else if "detached"@.is_prefix_of(line) {
                        if in_main {
                            scan_records(rest, None, false, seen, root)
                        } else {
                            seq![worktree_entry(path, None, root)] + scan_records(rest, None, false, seen, root)
                        }
                    } else {
                        scan_records(rest, current, in_main, seen, root)
                    }
                },
                None => scan_records(rest, None, in_main, seen, root),
            }
        }
    }
}

/// The worktrees the plugin lists for porcelain lines: every record but the
/// first one opened, which is the main worktree (bare or not).
pub open spec fn listed_worktrees(lines: Seq<Seq<char>>, root: Option<Seq<char>>) -> Seq<
    WorktreeView,
> {
    scan_records(lines, None, false, false, root)
}

/// Reads the worktree records of porcelain lines, in order, but for the main
/// worktree's, marking as current the one whose path is `repo_root`.
pub fn scan_worktree_lines(lines: &Vec<&str>, repo_root: &Option<String>) -> (found: Vec<
    WorktreeInfo,
>)
    ensures
        worktree_views(found@) == listed_worktrees(line_texts(lines@), opt_text(*repo_root)),
{
    let ghost all = line_texts(lines@);
    let ghost root = opt_text(*repo_root);
    let mut found: Vec<WorktreeInfo> = Vec::new();
    let mut current: Option<String> = None;
    let mut in_main = false;
    let mut seen = false;
    let mut i: usize = 0;
    assert(all.skip(0) =~= all);
    while i < lines.len()
        invariant
            all == line_texts(lines@),
            root == opt_text(*repo_root),
            i <= lines.len(),
            worktree_views(found@) + scan_records(
                all.skip(i as int),
                opt_text(current),
                in_main,
                seen,
                root,
            ) == scan_records(all, None, false, false, root),
        decreases lines.len() - i,
    {
        let line: &str = lines[i];
        let ghost rest = all.skip(i as int);
        assert(rest[0] == line@);
        assert(rest.drop_first() =~= all.skip(i + 1));
        let ghost before = worktree_views(found@);
        if let Some(path) = strip_prefix_text(line, "worktree ") {
            current = Some(owned(path));
            in_main = !seen;
            seen = true;
        } else {
            match &current {
                Some(path) => {
                    if let Some(branch) = strip_prefix_text(line, "branch ") {
                        if !in_main {
                            let is_current = match repo_root {
                                Some(r) => same_text(r.as_str(), path.as_str()),
                                None => false,
                            };
                            found.push(
                                WorktreeInfo {
                                    path: path.clone(),
                                    branch: Some(owned(branch)),
                                    is_current,
                                },
                            );
                            assert(worktree_views(found@) =~= before.push(found@.last()@));
                        }
                        current = None;
                        in_main = false;
                    } else if has_prefix(line, "detached") {
                        if !in_main {
                            let is_current = match repo_root {
                                Some(r) => same_text(r.as_str(), path.as_str()),
                                None => false,
                            };
                            found.push(WorktreeInfo { path: path.clone(), branch: None, is_current });
                            assert(worktree_views(found@) =~= before.push(found@.last()@));
                        }
                        current = None;
                        in_main = false;
                    }
                },
                None => {},
            }
        }
        i = i + 1;
    }
    assert(all.skip(i as int) =~= Seq::<Seq<char>>::empty());
    assert(worktree_views(found@) + Seq::<WorktreeView>::empty() =~= worktree_views(found@));
    found
}

} // verus!
