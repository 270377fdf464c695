use zellij_worktree::model::Mode;
use zellij_worktree::screen::{Segment, Style, BUILD_LABEL, LIST_HELP};
use zellij_worktree::state::State;
use zellij_worktree::worktree::WorktreeInfo;

fn seg(text: &str, style: Style) -> Segment {
    Segment { text: text.to_string(), style }
}

fn listed() -> State {
    State {
        initialized: true,
        worktrees: vec![
            WorktreeInfo { path: "/p/a".to_string(), branch: Some("refs/heads/a".to_string()), is_current: true },
            WorktreeInfo { path: "/p/b".to_string(), branch: None, is_current: false },
        ],
        selected_index: 1,
        ..State::default()
    }
}

#[test]
fn loading_and_error_screens() {
    let st = State::default();
    assert_eq!(
        st.render_lines(),
        vec![vec![seg(BUILD_LABEL, Style::BrightBlack)], vec![seg("Loading...", Style::Yellow)]]
    );
    let st = State {
        error_message: Some("boom".to_string()),
        cwd_diagnostic: Some("pane=1".to_string()),
        ..State::default()
    };
    assert_eq!(
        st.render_lines(),
        vec![
            vec![seg(BUILD_LABEL, Style::BrightBlack)],
            vec![seg("pane=1", Style::BrightBlack)],
            vec![seg("boom", Style::Red)],
            vec![],
            vec![seg("Press Esc to close", Style::BrightBlack)],
        ]
    );
}

#[test]
fn list_screen_marks_selection_and_current() {
    let st = listed();
    assert_eq!(
        st.render_lines(),
        vec![
            vec![seg(BUILD_LABEL, Style::BrightBlack)],
            vec![seg("Worktrees", Style::CyanBold)],
            vec![seg(LIST_HELP, Style::BrightBlack)],
            vec![],
            vec![
                seg("  a ", Style::Plain),
                seg("refs/heads/a", Style::Cyan),
                seg(" ", Style::Plain),
                seg(" ", Style::Plain),
                seg("(current)", Style::Yellow),
            ],
            vec![seg("> b ", Style::Plain), seg("detached", Style::Cyan), seg(" ", Style::Plain)],
        ]
    );
    let empty = State { initialized: true, error_message: Some("e".to_string()), ..State::default() };
    let lines = empty.render_lines();
    assert_eq!(lines[4], vec![seg("No worktrees found", Style::BrightBlack)]);
    assert_eq!(lines[6], vec![seg("Press [n] to create a new worktree", Style::BrightBlack)]);
    assert_eq!(lines[8], vec![seg("e", Style::Red)]);
    assert_eq!(lines.len(), 9);
}

#[test]
fn create_and_delete_screens() {
    let st = State { mode: Mode::Create, input: "feat".to_string(), waiting_for_command: true, ..listed() };
    let lines = st.render_lines();
    assert_eq!(lines[1], vec![seg("Create Worktree", Style::CyanBold)]);
    assert_eq!(lines[4], vec![seg("Path/branch: feat", Style::Plain), seg("_", Style::Blink)]);
    assert_eq!(lines[6], vec![seg("Creating worktree...", Style::Yellow)]);
    assert_eq!(lines.len(), 7);

    let st = State { mode: Mode::DeleteConfirm, selected_index: 0, ..listed() };
    assert_eq!(
        st.render_lines(),
        vec![
            vec![seg(BUILD_LABEL, Style::BrightBlack)],
            vec![seg("Confirm Delete", Style::RedBold)],
            vec![],
            vec![seg("Delete worktree: ", Style::Plain), seg("/p/a", Style::Cyan)],
            vec![seg("Branch: ", Style::Plain), seg("refs/heads/a", Style::Yellow)],
            vec![],
            vec![seg("[Enter] confirm | [Esc] cancel", Style::BrightBlack)],
        ]
    );
    let st = State { mode: Mode::DeleteConfirm, selected_index: 5, ..listed() };
    assert_eq!(st.render_lines().len(), 1);
}
