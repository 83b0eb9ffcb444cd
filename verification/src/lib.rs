//! A keyboard-driven tmux session manager: the session-list state machine,
//! the parser for `tmux list-sessions` output, and the tmux commands the
//! manager asks its host to run.

pub mod text;
pub mod tmux;
pub mod app;
pub mod laws;
