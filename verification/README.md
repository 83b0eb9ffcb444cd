# ursa

A keyboard-driven tmux session manager, with its logic verified by Verus.

- `src/app.rs` — the manager's state machine: a key (or tmux's answer to a
  command the manager asked for) moves the state, and may ask for the next
  tmux command. Every method is specified by a step function over `AppView`.
- `src/tmux.rs` — sessions, the reader for `tmux list-sessions` output, and
  the commands the manager runs with their arguments and results.
- `src/text.rs` — splitting, trimming and decimal numbers on characters.
- `src/laws.rs` — what holds across calls: the invariant every step keeps,
  what pairs of keys undo, and that a listing reads back as the sessions
  tmux printed.
- `app/` — the terminal front end: crossterm keys, ratatui drawing, and the
  processes that run tmux.
