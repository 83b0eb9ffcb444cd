//! The session manager's state and how keys and tmux's answers move it.
//!
//! The manager never runs tmux itself: a key may ask for a [`TmuxCommand`],
//! which the host runs before it hands the result back to the method that
//! finishes the step ([`App::refresh_sessions`], [`App::session_killed`],
//! [`App::session_created`], [`App::session_renamed`]).

use vstd::prelude::*;
use crate::text::{alphanumeric, char_is_alphanumeric, pop_char, push_char, trim, trimmed};
use crate::tmux::{
    command_view, result_view, session_views, CommandView, SessionView, TmuxCommand, TmuxSession,
};

verus! {

// ---------------------------------------------------------------------------
// Types
// ---------------------------------------------------------------------------

/// What the manager is doing.
#[derive(Debug, Clone, PartialEq)]
pub enum AppState {
    /// Browsing the session list.
    SessionList,
    /// Typing the name of a new session.
    CreatingSession,
    /// Typing a new name for the session `original_name`.
    RenamingSession { original_name: String },
}

/// The action offered on the selected session.
#[derive(Debug, Clone, Copy, PartialEq, Eq, Structural)]
pub enum SessionAction {
    Enter,
    Rename,
    Delete,
}

impl Default for SessionAction {
    fn default() -> (r: SessionAction)
        ensures
            r == SessionAction::Enter,
    {
        SessionAction::Enter
    }
}

/// What the manager asks its host to do once it stops.
#[derive(Debug, Clone, PartialEq)]
pub enum AppAction {
    /// Nothing yet: the manager keeps running.
    NoAction,
    AttachSession(String),
    Quit,
}

/// A key, as the manager reads it.
#[derive(Debug, Clone, Copy, PartialEq, Eq, Structural)]
pub enum KeyCode {
    Char(char),
    Up,
    Down,
    Left,
    Right,
    Enter,
    Esc,
    Backspace,
    /// Any other key; the manager ignores it.
    Other,
}

/// A key press: the key and whether Control was held.
#[derive(Debug, Clone, Copy, PartialEq, Eq, Structural)]
pub struct KeyInput {
    pub code: KeyCode,
    pub control: bool,
}

/// The session manager.
pub struct App {
    pub state: AppState,
    pub sessions: Vec<TmuxSession>,
    /// The selected row: a session, or `sessions.len()` for "Create new session".
    pub selected_index: usize,
    pub selected_action: SessionAction,
    pub input_buffer: String,
    pub should_quit: bool,
    pub action: AppAction,
    pub error_message: Option<String>,
}

// ---------------------------------------------------------------------------
// The model
// ---------------------------------------------------------------------------

/// What an [`AppState`] holds, as plain values.
pub enum StateView {
    SessionList,
    CreatingSession,
    RenamingSession { original_name: Seq<char> },
}

/// What an [`AppAction`] holds, as plain values.
pub enum ActionView {
    NoAction,
    AttachSession(Seq<char>),
    Quit,
}

/// What an [`App`] holds, as plain values.
pub struct AppView {
    pub state: StateView,
    pub sessions: Seq<SessionView>,
    pub selected_index: nat,
    pub selected_action: SessionAction,
    pub input: Seq<char>,
    pub should_quit: bool,
    pub action: ActionView,
    pub error: Option<Seq<char>>,
}

impl View for AppState {
    type V = StateView;

    open spec fn view(&self) -> StateView {
        match self {
            AppState::SessionList => StateView::SessionList,
            AppState::CreatingSession => StateView::CreatingSession,
            AppState::RenamingSession { original_name } => StateView::RenamingSession {
                original_name: original_name@,
            },
        }
    }
}

impl View for AppAction {
    type V = ActionView;

    open spec fn view(&self) -> ActionView {
        match self {
            AppAction::NoAction => ActionView::NoAction,
            AppAction::AttachSession(name) => ActionView::AttachSession(name@),
            AppAction::Quit => ActionView::Quit,
        }
    }
}

impl View for App {
    type V = AppView;

    open spec fn view(&self) -> AppView {
        AppView {
            state: self.state@,
            sessions: session_views(self.sessions@),
            selected_index: self.selected_index as nat,
            selected_action: self.selected_action,
            input: self.input_buffer@,
            should_quit: self.should_quit,
            action: self.action@,
            error: match self.error_message {
                Some(e) => Some(e@),
                None => None,
            },
        }
    }
}

/// Whether `c` may stand in a session name typed into the manager.
pub open spec fn valid_name_char(c: char) -> bool {
    alphanumeric(c) || c == '-' || c == '_'
}

/// Whether every character of `s` may stand in a typed session name.
pub open spec fn valid_name_chars(s: Seq<char>) -> bool {
    forall|i: int| 0 <= i < s.len() ==> valid_name_char(#[trigger] s[i])
}

/// The action to the right of `a`, stopping at `Delete`.
pub open spec fn next_action(a: SessionAction) -> SessionAction {
    match a {
        SessionAction::Enter => SessionAction::Rename,
        SessionAction::Rename => SessionAction::Delete,
        SessionAction::Delete => SessionAction::Delete,
    }
}

/// The action to the left of `a`, stopping at `Enter`.
pub open spec fn prev_action(a: SessionAction) -> SessionAction {
    match a {
        SessionAction::Enter => SessionAction::Enter,
        SessionAction::Rename => SessionAction::Enter,
        SessionAction::Delete => SessionAction::Rename,
    }
}

impl AppView {
    /// What every reachable state keeps: the selection is a session or the
    /// "Create new session" row, and a name being typed for a new session
    /// holds only characters allowed in session names.
    pub open spec fn wf(self) -> bool {
        &&& self.selected_index <= self.sessions.len()
        &&& (self.state is CreatingSession ==> valid_name_chars(self.input))
    }

    /// The number of rows: the sessions and "Create new session".
    pub open spec fn total_items(self) -> nat {
        self.sessions.len() + 1
    }
}

/// The manager as it starts, over the sessions that tmux listed.
pub open spec fn initial(sessions: Seq<SessionView>) -> AppView {
    AppView {
        state: StateView::SessionList,
        sessions,
        selected_index: 0,
        selected_action: SessionAction::Enter,
        input: Seq::empty(),
        should_quit: false,
        action: ActionView::NoAction,
        error: None,
    }
}

/// A fresh session list replaces the old one; the selection stays, moved up
/// to "Create new session" where the list became shorter.
pub open spec fn refresh_step(a: AppView, sessions: Seq<SessionView>) -> AppView {
    AppView {
        sessions,
        selected_index: if a.selected_index > sessions.len() {
            sessions.len()
        } else {
            a.selected_index
        },
        ..a
    }
}

/// Confirming the selected row.
pub open spec fn select_step(a: AppView) -> (AppView, Option<CommandView>) {
    if a.selected_index == a.sessions.len() {
        (AppView { state: StateView::CreatingSession, input: Seq::empty(), ..a }, None)
    } else if a.selected_index < a.sessions.len() {
        let name = a.sessions[a.selected_index as int].name;
        match a.selected_action {
            SessionAction::Enter => (AppView { action: ActionView::AttachSession(name), ..a }, None),
            SessionAction::Rename => (
                AppView {
                    state: StateView::RenamingSession { original_name: name },
                    input: name,
                    ..a
                },
                None,
            ),
            SessionAction::Delete => (a, Some(CommandView::KillSession { target: name })),
        }
    } else {
        (a, None)
    }
}

/// A key while browsing the session list.
pub open spec fn list_key_step(a: AppView, k: KeyInput) -> (AppView, Option<CommandView>) {
    let idx = a.selected_index;
    if k.code == KeyCode::Char('q') || (k.code == KeyCode::Char('c') && k.control) || k.code
        == KeyCode::Esc {
        (AppView { should_quit: true, ..a }, None)
    } else if k.code == KeyCode::Up || k.code == KeyCode::Char('k') {
        if idx > 0 {
            (
                AppView {
                    selected_index: (idx - 1) as nat,
                    selected_action: SessionAction::Enter,
                    ..a
                },
                None,
            )
        } else {
            (a, None)
        }
    } else if k.code == KeyCode::Down || k.code == KeyCode::Char('j') {
        if idx < a.total_items() - 1 {
            (AppView { selected_index: idx + 1, selected_action: SessionAction::Enter, ..a }, None)
        } else {
            (a, None)
        }
    } else if k.code == KeyCode::Right || k.code == KeyCode::Char('l') {
        if idx < a.sessions.len() {
            (AppView { selected_action: next_action(a.selected_action), ..a }, None)
        } else {
            (a, None)
        }
    } else if k.code == KeyCode::Left || k.code == KeyCode::Char('h') {
        if idx < a.sessions.len() {
            (AppView { selected_action: prev_action(a.selected_action), ..a }, None)
        } else {
            (a, None)
        }
    } else if k.code == KeyCode::Enter {
        select_step(a)
    } else if k.code == KeyCode::Char('r') {
        (a, Some(CommandView::ListSessions))
    } else {
        (a, None)
    }
}

/// Backspace and typed characters while a name is being typed: Backspace
/// removes the last character, a character allowed in session names is
/// appended, anything else is ignored.
pub open spec fn edit_step(a: AppView, k: KeyInput) -> AppView {
    match k.code {
        KeyCode::Backspace => AppView {
            input: if a.input.len() > 0 {
                a.input.drop_last()
            } else {
                a.input
            },
            ..a
        },
        KeyCode::Char(c) => if valid_name_char(c) {
            AppView { input: a.input.push(c), ..a }
        } else {
            a
        },
        _ => a,
    }
}

/// Asking tmux for a session named after the typed text, trimmed.
pub open spec fn create_step(a: AppView) -> (AppView, Option<CommandView>) {
    let name = trimmed(a.input);
    if name.len() == 0 {
        (a, None)
    } else {
        (a, Some(CommandView::NewSession { name }))
    }
}

/// Asking tmux to give the session being renamed the typed text, trimmed.
pub open spec fn rename_step(a: AppView) -> (AppView, Option<CommandView>) {
    let new_name = trimmed(a.input);
    if new_name.len() == 0 {
        (a, None)
    } else {
        match a.state {
            StateView::RenamingSession { original_name } => (
                a,
                Some(CommandView::RenameSession { target: original_name, new_name }),
            ),
            _ => (a, None),
        }
    }
}

/// A key while typing the name of a new session.
pub open spec fn creating_key_step(a: AppView, k: KeyInput) -> (AppView, Option<CommandView>) {
    if k.code == KeyCode::Esc {
        (AppView { state: StateView::SessionList, input: Seq::empty(), ..a }, None)
    } else if k.code == KeyCode::Enter {
        if a.input.len() > 0 {
            create_step(a)
        } else {
            (a, None)
        }
    } else {
        (edit_step(a, k), None)
    }
}

/// A key while typing a new name for a session.
pub open spec fn renaming_key_step(a: AppView, k: KeyInput) -> (AppView, Option<CommandView>) {
    if k.code == KeyCode::Esc {
        (
            AppView {
                state: StateView::SessionList,
                input: Seq::empty(),
                selected_action: SessionAction::Enter,
                ..a
            },
            None,
        )
    } else if k.code == KeyCode::Enter {
        if a.input.len() > 0 {
            rename_step(a)
        } else {
            (a, None)
        }
    } else {
        (edit_step(a, k), None)
    }
}

/// A key press: the error shown is dismissed, then the key acts as the
/// current state says.
pub open spec fn key_step(a: AppView, k: KeyInput) -> (AppView, Option<CommandView>) {
    let a0 = AppView { error: None, ..a };
    match a.state {
        StateView::SessionList => list_key_step(a0, k),
        StateView::CreatingSession => creating_key_step(a0, k),
        StateView::RenamingSession { .. } => renaming_key_step(a0, k),
    }
}

/// tmux's answer to killing the selected session: on success the action
/// goes back to `Enter` and the list is fetched again; on failure the error
/// is shown.
pub open spec fn killed_step(a: AppView, r: Result<(), Seq<char>>) -> (
    AppView,
    Option<CommandView>,
) {
    match r {
        Ok(()) => (
            AppView { selected_action: SessionAction::Enter, ..a },
            Some(CommandView::ListSessions),
        ),
        Err(e) => (AppView { error: Some(e), ..a }, None),
    }
}

/// tmux's answer to creating the session: on success the manager asks to
/// attach to it; on failure the error is shown and the list comes back.
pub open spec fn created_step(a: AppView, r: Result<(), Seq<char>>) -> AppView {
    match r {
        Ok(()) => AppView { action: ActionView::AttachSession(trimmed(a.input)), ..a },
        Err(e) => AppView {
            error: Some(e),
            state: StateView::SessionList,
            input: Seq::empty(),
            ..a
        },
    }
}

/// tmux's answer to renaming the session: the list comes back either way,
/// with the action at `Enter`; on success it is fetched again, on failure
/// the error is shown.
pub open spec fn renamed_step(a: AppView, r: Result<(), Seq<char>>) -> (
    AppView,
    Option<CommandView>,
) {
    let back = AppView {
        state: StateView::SessionList,
        input: Seq::empty(),
        selected_action: SessionAction::Enter,
        ..a
    };
    match r {
        Ok(()) => (back, Some(CommandView::ListSessions)),
        Err(e) => (AppView { error: Some(e), ..back }, None),
    }
}

// ---------------------------------------------------------------------------
// The manager
// ---------------------------------------------------------------------------

impl App {
    /// The manager over the sessions that tmux listed, with the first row
    /// selected.
    pub fn new(sessions: Vec<TmuxSession>) -> (r: App)
        ensures
            r@ == initial(session_views(sessions@)),
    {
        App {
            state: AppState::SessionList,
            sessions,
            selected_index: 0,
            selected_action: SessionAction::default(),
            input_buffer: String::new(),
            should_quit: false,
            action: AppAction::NoAction,
            error_message: None,
        }
    }

    /// Takes a fresh session list; the selection moves up to "Create new
    /// session" where it would fall past the end.
    pub fn refresh_sessions(&mut self, sessions: Vec<TmuxSession>)
        ensures
            final(self)@ == refresh_step(old(self)@, session_views(sessions@)),
    {
        self.sessions = sessions;
        let max_index = self.sessions.len();
        if self.selected_index > max_index {
            self.selected_index = max_index;
        }
    }

    /// The number of rows: the sessions and "Create new session".
    pub fn total_items(&self) -> (r: usize)
        requires
            self.sessions@.len() < usize::MAX,
        ensures
            r == self@.total_items(),
    {
        self.sessions.len() + 1
    }

    /// The row drawn highlighted: the row where a new name is being typed,
    /// just after the sessions, or else the selected row.
    pub fn highlight_index(&self) -> (r: usize)
        ensures
            r == (if self.state is CreatingSession {
                self.sessions@.len() as int
            } else {
                self.selected_index as int
            }),
    {
        match self.state {
            AppState::CreatingSession => self.sessions.len(),
            _ => self.selected_index,
        }
    }

    /// The session row that shows the name being typed in place of the
    /// session, while one is renamed.
    pub fn renaming_row(&self) -> (r: Option<usize>)
        ensures
            r == (if self.state is RenamingSession {
                Some(self.selected_index)
            } else {
                None::<usize>
            }),
    {
        match self.state {
            AppState::RenamingSession { .. } => Some(self.selected_index),
            _ => None,
        }
    }

    /// Handles a key press; returns the tmux command to run next, if any.
    pub fn handle_key(&mut self, key: KeyInput) -> (r: Option<TmuxCommand>)
        requires
            old(self).sessions@.len() < usize::MAX,
        ensures
            final(self)@ == key_step(old(self)@, key).0,
            command_view(r) == key_step(old(self)@, key).1,
            final(self).sessions@.len() == old(self).sessions@.len(),
    {
        self.error_message = None;
        match self.state {
            AppState::SessionList => self.handle_session_list_key(key),
            AppState::CreatingSession => self.handle_creating_session_key(key),
            AppState::RenamingSession { .. } => self.handle_renaming_session_key(key),
        }
    }

    fn handle_session_list_key(&mut self, key: KeyInput) -> (r: Option<TmuxCommand>)
        requires
            old(self).sessions@.len() < usize::MAX,
        ensures
            final(self)@ == list_key_step(old(self)@, key).0,
            command_view(r) == list_key_step(old(self)@, key).1,
            final(self).sessions@.len() == old(self).sessions@.len(),
    {
        match key.code {
            KeyCode::Char('q') => {
                self.should_quit = true;
                None
            },
            KeyCode::Char('c') if key.control => {
                self.should_quit = true;
                None
            },
            KeyCode::Esc => {
                self.should_quit = true;
                None
            },
            KeyCode::Up | KeyCode::Char('k') => {
                if self.selected_index > 0 {
                    self.selected_index = self.selected_index - 1;
                    self.selected_action = SessionAction::Enter;
                }
                None
            },
            KeyCode::Down | KeyCode::Char('j') => {
                if self.selected_index < self.total_items() - 1 {
                    self.selected_index = self.selected_index + 1;
                    self.selected_action = SessionAction::Enter;
                }
                None
            },
            KeyCode::Right | KeyCode::Char('l') => {
                if self.selected_index < self.sessions.len() {
                    self.selected_action =
                        match self.selected_action {
                            SessionAction::Enter => SessionAction::Rename,
                            SessionAction::Rename => SessionAction::Delete,
                            SessionAction::Delete => SessionAction::Delete,
                        };
                }
                None
            },
            KeyCode::Left | KeyCode::Char('h') => {
                if self.selected_index < self.sessions.len() {
                    self.selected_action =
                        match self.selected_action {
                            SessionAction::Enter => SessionAction::Enter,
                            SessionAction::Rename => SessionAction::Enter,
                            SessionAction::Delete => SessionAction::Rename,
                        };
                }
                None
            },
            KeyCode::Enter => self.select_current(),
            KeyCode::Char('r') => Some(TmuxCommand::ListSessions),
            _ => None,
        }
    }

    /// Appends a typed character allowed in session names, or removes the
    /// last one on Backspace.
    fn edit_input(&mut self, key: KeyInput)
        ensures
            final(self)@ == edit_step(old(self)@, key),
            final(self).sessions@.len() == old(self).sessions@.len(),
    {
        match key.code {
            KeyCode::Backspace => {
                pop_char(&mut self.input_buffer);
            },
            KeyCode::Char(c) => {
                if char_is_alphanumeric(c) || c == '-' || c == '_' {
                    push_char(&mut self.input_buffer, c);
                }
            },
            _ => {},
        }
    }

    fn handle_creating_session_key(&mut self, key: KeyInput) -> (r: Option<TmuxCommand>)
        ensures
            final(self)@ == creating_key_step(old(self)@, key).0,
            command_view(r) == creating_key_step(old(self)@, key).1,
            final(self).sessions@.len() == old(self).sessions@.len(),
    {
        match key.code {
            KeyCode::Esc => {
                self.state = AppState::SessionList;
                self.input_buffer = String::new();
                None
            },
            KeyCode::Enter => {
                if !self.input_buffer.as_str().is_empty() {
                    self.create_and_attach_session()
                } else {
                    None
                }
            },
            _ => {
                self.edit_input(key);
                None
            },
        }
    }

    fn handle_renaming_session_key(&mut self, key: KeyInput) -> (r: Option<TmuxCommand>)
        ensures
            final(self)@ == renaming_key_step(old(self)@, key).0,
            command_view(r) == renaming_key_step(old(self)@, key).1,
            final(self).sessions@.len() == old(self).sessions@.len(),
    {
        match key.code {
            KeyCode::Esc => {
                self.state = AppState::SessionList;
                self.input_buffer = String::new();
                self.selected_action = SessionAction::Enter;
                None
            },
            KeyCode::Enter => {
                if !self.input_buffer.as_str().is_empty() {
                    self.rename_current_session()
                } else {
                    None
                }
            },
            _ => {
                self.edit_input(key);
                None
            },
        }
    }

    /// Confirms the selected row: "Create new session" starts typing a
    /// name; a session is entered, renamed or deleted as its action says.
    fn select_current(&mut self) -> (r: Option<TmuxCommand>)
        ensures
            final(self)@ == select_step(old(self)@).0,
            command_view(r) == select_step(old(self)@).1,
            final(self).sessions@.len() == old(self).sessions@.len(),
    {
        if self.selected_index == self.sessions.len() {
            self.state = AppState::CreatingSession;
            self.input_buffer = String::new();
            None
        } else if self.selected_index < self.sessions.len() {
            let name = self.sessions[self.selected_index].name.clone();
            match self.selected_action {
                SessionAction::Enter => {
                    self.action = AppAction::AttachSession(name);
                    None
                },
                SessionAction::Rename => {
                    self.input_buffer = name.clone();
                    self.state = AppState::RenamingSession { original_name: name };
                    None
                },
                SessionAction::Delete => self.delete_current_session(),
            }
        } else {
            None
        }
    }

    /// The command that kills the selected session.
    fn delete_current_session(&self) -> (r: Option<TmuxCommand>)
        ensures
            command_view(r) == (if self.selected_index < self.sessions@.len() {
                Some(
                    CommandView::KillSession {
                        target: self@.sessions[self.selected_index as int].name,
                    },
                )
            } else {
                None::<CommandView>
            }),
    {
        if self.selected_index < self.sessions.len() {
            let name = self.sessions[self.selected_index].name.clone();
            Some(TmuxCommand::KillSession { target: name })
        } else {
            None
        }
    }

    /// The command that creates a session named after the typed text.
    fn create_and_attach_session(&self) -> (r: Option<TmuxCommand>)
        ensures
            command_view(r) == create_step(self@).1,
    {
        let name = trim(self.input_buffer.as_str());
        if name.as_str().is_empty() {
            None
        } else {
            Some(TmuxCommand::NewSession { name })
        }
    }

    /// The command that gives the session being renamed the typed name.
    fn rename_current_session(&self) -> (r: Option<TmuxCommand>)
        ensures
            command_view(r) == rename_step(self@).1,
    {
        let new_name = trim(self.input_buffer.as_str());
        if new_name.as_str().is_empty() {
            return None;
        }
        match &self.state {
            AppState::RenamingSession { original_name } => Some(
                TmuxCommand::RenameSession { target: original_name.clone(), new_name },
            ),
            _ => None,
        }
    }

    /// Takes tmux's answer to the `KillSession` command that a key asked for;
    /// returns the command to run next, if any.
    pub fn session_killed(&mut self, result: Result<(), String>) -> (r: Option<TmuxCommand>)
        ensures
            final(self)@ == killed_step(old(self)@, result_view(result)).0,
            command_view(r) == killed_step(old(self)@, result_view(result)).1,
            final(self).sessions@.len() == old(self).sessions@.len(),
    {
        match result {
            Ok(()) => {
                self.selected_action = SessionAction::Enter;
                Some(TmuxCommand::ListSessions)
            },
            Err(e) => {
                self.error_message = Some(e);
                None
            },
        }
    }

    /// Takes tmux's answer to the `NewSession` command that a key asked for.
    pub fn session_created(&mut self, result: Result<(), String>)
        ensures
            final(self)@ == created_step(old(self)@, result_view(result)),
            final(self).sessions@.len() == old(self).sessions@.len(),
    {
        match result {
            Ok(()) => {
                let name = trim(self.input_buffer.as_str());
                self.action = AppAction::AttachSession(name);
            },
            Err(e) => {
                self.error_message = Some(e);
                self.state = AppState::SessionList;
                self.input_buffer = String::new();
            },
        }
    }

    /// Takes tmux's answer to the `RenameSession` command that a key asked
    /// for; returns the command to run next, if any.
    pub fn session_renamed(&mut self, result: Result<(), String>) -> (r: Option<TmuxCommand>)
        ensures
            final(self)@ == renamed_step(old(self)@, result_view(result)).0,
            command_view(r) == renamed_step(old(self)@, result_view(result)).1,
            final(self).sessions@.len() == old(self).sessions@.len(),
    {
        self.state = AppState::SessionList;
        self.input_buffer = String::new();
        self.selected_action = SessionAction::Enter;
        match result {
            Ok(()) => Some(TmuxCommand::ListSessions),
            Err(e) => {
                self.error_message = Some(e);
                None
            },
        }
    }
}

} // verus!
