# zellij_worktree

A Zellij plugin for managing Git worktrees (list, open in a new tab, create,
delete), with its logic verified in Verus.

- `src/` is the verified library:
  - `text.rs`: decoding, trimming, line splitting and path operations (the
    standard-library calls, each behind a small trusted wrapper), and verified
    string helpers (prefixes, decimal text, last path piece);
  - `worktree.rs`: the reader of `git worktree list --porcelain`;
  - `model.rs`: modes, key presses, tab and pane layouts, command contexts and
    the effects the plugin asks its host to perform;
  - `state.rs`: the plugin's state machine, one handler per event, each with
    a contract that equates its result with a spec function; it covers the
    configuration (`base_path`, SSH mode through `remote_host` and
    `remote_repo`, `workbench_command`);
  - `screen.rs`: the screen as lines of styled text;
  - `laws.rs`: properties that span the handlers, proved.
- `app/main.rs` is the plugin itself: it turns Zellij events into calls of
  the state machine, performs the returned effects through the Zellij API,
  and paints the screen with `yansi`.
- `tests/` runs the library on concrete inputs.
