use ursa::app::{App, AppAction, AppState, KeyCode, KeyInput, SessionAction};
use ursa::tmux::{TmuxCommand, TmuxSession};

fn session(name: &str) -> TmuxSession {
    TmuxSession { name: name.to_string(), windows: 1, attached: false }
}

fn app(names: &[&str]) -> App {
    App::new(names.iter().map(|n| session(n)).collect())
}

fn key(code: KeyCode) -> KeyInput {
    KeyInput { code, control: false }
}

fn ch(c: char) -> KeyInput {
    key(KeyCode::Char(c))
}

fn type_text(a: &mut App, text: &str) {
    for c in text.chars() {
        assert_eq!(a.handle_key(ch(c)), None);
    }
}

#[test]
fn starts_on_the_first_row() {
    let a = app(&["a", "b"]);
    assert_eq!(a.state, AppState::SessionList);
    assert_eq!(a.selected_index, 0);
    assert_eq!(a.selected_action, SessionAction::Enter);
    assert_eq!(a.input_buffer, "");
    assert!(!a.should_quit);
    assert_eq!(a.action, AppAction::NoAction);
    assert_eq!(a.error_message, None);
    assert_eq!(a.total_items(), 3);
    assert_eq!(app(&[]).total_items(), 1);
}

#[test]
fn default_action_is_enter() {
    assert_eq!(SessionAction::default(), SessionAction::Enter);
}

#[test]
fn quit_keys() {
    for k in [ch('q'), key(KeyCode::Esc), KeyInput { code: KeyCode::Char('c'), control: true }] {
        let mut a = app(&["a"]);
        assert_eq!(a.handle_key(k), None);
        assert!(a.should_quit);
    }
    let mut a = app(&["a"]);
    a.handle_key(ch('c'));
    assert!(!a.should_quit);
}

#[test]
fn navigation_stops_at_the_edges() {
    let mut a = app(&["a", "b"]);
    a.handle_key(key(KeyCode::Up));
    assert_eq!(a.selected_index, 0);
    a.handle_key(key(KeyCode::Down));
    a.handle_key(ch('j'));
    assert_eq!(a.selected_index, 2);
    a.handle_key(key(KeyCode::Down));
    assert_eq!(a.selected_index, 2);
    a.handle_key(ch('k'));
    assert_eq!(a.selected_index, 1);
}

#[test]
fn down_then_up_returns_with_action_reset() {
    let mut a = app(&["a", "b"]);
    a.handle_key(key(KeyCode::Right));
    assert_eq!(a.selected_action, SessionAction::Rename);
    a.handle_key(key(KeyCode::Down));
    a.handle_key(key(KeyCode::Up));
    assert_eq!(a.selected_index, 0);
    assert_eq!(a.selected_action, SessionAction::Enter);
}

#[test]
fn action_arrows_saturate_and_undo_each_other() {
    let mut a = app(&["a"]);
    a.handle_key(ch('h'));
    assert_eq!(a.selected_action, SessionAction::Enter);
    a.handle_key(ch('l'));
    assert_eq!(a.selected_action, SessionAction::Rename);
    a.handle_key(key(KeyCode::Right));
    assert_eq!(a.selected_action, SessionAction::Delete);
    a.handle_key(key(KeyCode::Right));
    assert_eq!(a.selected_action, SessionAction::Delete);
    a.handle_key(key(KeyCode::Left));
    assert_eq!(a.selected_action, SessionAction::Rename);
    a.handle_key(key(KeyCode::Right));
    assert_eq!(a.selected_action, SessionAction::Delete);
}

#[test]
fn no_action_cycling_on_the_create_row() {
    let mut a = app(&["a"]);
    a.handle_key(key(KeyCode::Down));
    a.handle_key(key(KeyCode::Right));
    assert_eq!(a.selected_action, SessionAction::Enter);
}

#[test]
fn enter_attaches_to_the_selected_session() {
    let mut a = app(&["a", "b"]);
    a.handle_key(key(KeyCode::Down));
    assert_eq!(a.handle_key(key(KeyCode::Enter)), None);
    assert_eq!(a.action, AppAction::AttachSession("b".to_string()));
}

#[test]
fn r_asks_for_the_list_and_refresh_clamps_the_selection() {
    let mut a = app(&["a", "b", "c"]);
    a.handle_key(key(KeyCode::Down));
    a.handle_key(key(KeyCode::Down));
    a.handle_key(key(KeyCode::Down));
    assert_eq!(a.selected_index, 3);
    assert_eq!(a.handle_key(ch('r')), Some(TmuxCommand::ListSessions));
    a.refresh_sessions(vec![session("a")]);
    assert_eq!(a.selected_index, 1);
    assert_eq!(a.sessions.len(), 1);
    a.handle_key(key(KeyCode::Up));
    a.refresh_sessions(vec![session("x"), session("y")]);
    assert_eq!(a.selected_index, 0);
}

#[test]
fn creating_a_session() {
    let mut a = app(&["a"]);
    a.handle_key(key(KeyCode::Down));
    assert_eq!(a.handle_key(key(KeyCode::Enter)), None);
    assert_eq!(a.state, AppState::CreatingSession);
    assert_eq!(a.highlight_index(), 1);
    type_text(&mut a, "new sess!on_1-x");
    assert_eq!(a.input_buffer, "newsesson_1-x");
    assert_eq!(
        a.handle_key(key(KeyCode::Enter)),
        Some(TmuxCommand::NewSession { name: "newsesson_1-x".to_string() })
    );
    a.session_created(Ok(()));
    assert_eq!(a.action, AppAction::AttachSession("newsesson_1-x".to_string()));
}

#[test]
fn unicode_letters_may_be_typed() {
    let mut a = app(&[]);
    a.handle_key(key(KeyCode::Enter));
    type_text(&mut a, "é藏٣ ☺!");
    assert_eq!(a.input_buffer, "é藏٣");
}

#[test]
fn enter_on_an_empty_name_does_nothing() {
    let mut a = app(&[]);
    a.handle_key(key(KeyCode::Enter));
    assert_eq!(a.handle_key(key(KeyCode::Enter)), None);
    assert_eq!(a.state, AppState::CreatingSession);
}

#[test]
fn failed_creation_shows_the_error_and_goes_back() {
    let mut a = app(&[]);
    a.handle_key(key(KeyCode::Enter));
    type_text(&mut a, "dev");
    a.handle_key(key(KeyCode::Enter));
    a.session_created(Err("Failed to create tmux session".to_string()));
    assert_eq!(a.error_message, Some("Failed to create tmux session".to_string()));
    assert_eq!(a.state, AppState::SessionList);
    assert_eq!(a.input_buffer, "");
    assert_eq!(a.action, AppAction::NoAction);
    a.handle_key(key(KeyCode::Other));
    assert_eq!(a.error_message, None);
}

#[test]
fn backspace_and_escape_while_creating() {
    let mut a = app(&[]);
    a.handle_key(key(KeyCode::Enter));
    type_text(&mut a, "ab");
    a.handle_key(ch('c'));
    a.handle_key(key(KeyCode::Backspace));
    assert_eq!(a.input_buffer, "ab");
    a.handle_key(key(KeyCode::Backspace));
    a.handle_key(key(KeyCode::Backspace));
    a.handle_key(key(KeyCode::Backspace));
    assert_eq!(a.input_buffer, "");
    type_text(&mut a, "x");
    a.handle_key(key(KeyCode::Esc));
    assert_eq!(a.state, AppState::SessionList);
    assert_eq!(a.input_buffer, "");
    assert!(!a.should_quit);
}

#[test]
fn renaming_a_session() {
    let mut a = app(&["old", "other"]);
    a.handle_key(key(KeyCode::Right));
    assert_eq!(a.handle_key(key(KeyCode::Enter)), None);
    assert_eq!(a.state, AppState::RenamingSession { original_name: "old".to_string() });
    assert_eq!(a.input_buffer, "old");
    assert_eq!(a.renaming_row(), Some(0));
    for _ in 0..3 {
        a.handle_key(key(KeyCode::Backspace));
    }
    type_text(&mut a, "new");
    assert_eq!(
        a.handle_key(key(KeyCode::Enter)),
        Some(TmuxCommand::RenameSession { target: "old".to_string(), new_name: "new".to_string() })
    );
    assert_eq!(a.session_renamed(Ok(())), Some(TmuxCommand::ListSessions));
    assert_eq!(a.state, AppState::SessionList);
    assert_eq!(a.input_buffer, "");
    assert_eq!(a.selected_action, SessionAction::Enter);
    assert_eq!(a.renaming_row(), None);
}

#[test]
fn renaming_trims_the_typed_name() {
    let mut a = app(&[" padded "]);
    a.handle_key(key(KeyCode::Right));
    a.handle_key(key(KeyCode::Enter));
    assert_eq!(
        a.handle_key(key(KeyCode::Enter)),
        Some(TmuxCommand::RenameSession {
            target: " padded ".to_string(),
            new_name: "padded".to_string()
        })
    );
}

#[test]
fn renaming_to_blank_does_nothing() {
    let mut a = app(&["   "]);
    a.handle_key(key(KeyCode::Right));
    a.handle_key(key(KeyCode::Enter));
    assert_eq!(a.handle_key(key(KeyCode::Enter)), None);
    assert_eq!(a.state, AppState::RenamingSession { original_name: "   ".to_string() });
}

#[test]
fn failed_rename_and_cancelled_rename() {
    let mut a = app(&["old"]);
    a.handle_key(key(KeyCode::Right));
    a.handle_key(key(KeyCode::Enter));
    a.handle_key(key(KeyCode::Enter));
    assert_eq!(a.session_renamed(Err("Failed to rename tmux session".to_string())), None);
    assert_eq!(a.error_message, Some("Failed to rename tmux session".to_string()));
    assert_eq!(a.state, AppState::SessionList);
    assert_eq!(a.selected_action, SessionAction::Enter);

    a.handle_key(key(KeyCode::Right));
    a.handle_key(key(KeyCode::Enter));
    assert_eq!(a.error_message, None);
    a.handle_key(key(KeyCode::Esc));
    assert_eq!(a.state, AppState::SessionList);
    assert_eq!(a.input_buffer, "");
    assert_eq!(a.selected_action, SessionAction::Enter);
}

#[test]
fn deleting_a_session() {
    let mut a = app(&["a", "b"]);
    a.handle_key(key(KeyCode::Down));
    a.handle_key(key(KeyCode::Right));
    a.handle_key(key(KeyCode::Right));
    assert_eq!(
        a.handle_key(key(KeyCode::Enter)),
        Some(TmuxCommand::KillSession { target: "b".to_string() })
    );
    assert_eq!(a.session_killed(Ok(())), Some(TmuxCommand::ListSessions));
    assert_eq!(a.selected_action, SessionAction::Enter);
    a.refresh_sessions(vec![session("a")]);
    assert_eq!(a.selected_index, 1);
}

#[test]
fn failed_delete_shows_the_error() {
    let mut a = app(&["a"]);
    a.handle_key(key(KeyCode::Right));
    a.handle_key(key(KeyCode::Right));
    a.handle_key(key(KeyCode::Enter));
    assert_eq!(a.session_killed(Err("Failed to kill tmux session".to_string())), None);
    assert_eq!(a.error_message, Some("Failed to kill tmux session".to_string()));
    assert_eq!(a.selected_action, SessionAction::Delete);
}

#[test]
fn other_keys_only_dismiss_the_error() {
    let mut a = app(&["a"]);
    a.error_message = Some("boom".to_string());
    assert_eq!(a.handle_key(ch('z')), None);
    assert_eq!(a.error_message, None);
    assert_eq!(a.selected_index, 0);
    assert_eq!(a.state, AppState::SessionList);
}

#[test]
fn highlight_follows_the_selection_outside_creation() {
    let mut a = app(&["a", "b"]);
    a.handle_key(key(KeyCode::Down));
    assert_eq!(a.highlight_index(), 1);
}
