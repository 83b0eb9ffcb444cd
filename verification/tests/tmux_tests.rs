use ursa::tmux::{parse_session_list, sessions_from_listing, Spawn, TmuxCommand, TmuxSession};

fn session(name: &str, windows: u32, attached: bool) -> TmuxSession {
    TmuxSession { name: name.to_string(), windows, attached }
}

fn same(a: &[TmuxSession], b: &[TmuxSession]) {
    assert_eq!(a.len(), b.len());
    for (x, y) in a.iter().zip(b.iter()) {
        assert_eq!(x.name, y.name);
        assert_eq!(x.windows, y.windows);
        assert_eq!(x.attached, y.attached);
    }
}

#[test]
fn parses_each_line_as_a_session() {
    let out = "main\t3\t1\nwork:dev\t1\t0\n";
    same(&parse_session_list(out), &[session("main", 3, true), session("work:dev", 1, false)]);
}

#[test]
fn names_with_colons_and_spaces_come_through_whole() {
    let out = "a:b:c\t2\t0\nmy project\t5\t1\n";
    same(
        &parse_session_list(out),
        &[session("a:b:c", 2, false), session("my project", 5, true)],
    );
}

#[test]
fn short_lines_are_skipped() {
    let out = "bad line\nonly\t2\ngood\t1\t0\n\n";
    same(&parse_session_list(out), &[session("good", 1, false)]);
}

#[test]
fn unreadable_window_count_is_zero_and_attached_means_exactly_one() {
    let out = "a\tmany\t1\nb\t-3\t2\nc\t\t\n";
    same(
        &parse_session_list(out),
        &[session("a", 0, true), session("b", 0, false), session("c", 0, false)],
    );
}

#[test]
fn extra_fields_are_ignored() {
    same(&parse_session_list("x\t4\t1\textra\n"), &[session("x", 4, true)]);
}

#[test]
fn crlf_line_endings_and_missing_final_newline() {
    let out = "a\t1\t1\r\nb\t2\t0";
    same(&parse_session_list(out), &[session("a", 1, true), session("b", 2, false)]);
    same(&parse_session_list("c\t1\t1\r"), &[session("c", 1, false)]);
}

#[test]
fn empty_output_lists_nothing() {
    assert!(parse_session_list("").is_empty());
    assert!(parse_session_list("\n").is_empty());
}

#[test]
fn a_failed_listing_lists_nothing() {
    let out = "main\t1\t1\n";
    assert_eq!(sessions_from_listing(&Spawn::Exited { success: true }, out).len(), 1);
    assert!(sessions_from_listing(&Spawn::Exited { success: false }, out).is_empty());
    assert!(sessions_from_listing(&Spawn::Failed { reason: "no tmux".to_string() }, out).is_empty());
}

#[test]
fn listing_roundtrip_example() {
    let ss = [session("one", 1, true), session("two:2", 12, false), session("3 three", 0, false)];
    let mut out = String::new();
    for s in &ss {
        out.push_str(&format!("{}\t{}\t{}\n", s.name, s.windows, if s.attached { 1 } else { 0 }));
    }
    same(&parse_session_list(&out), &ss);
}

#[test]
fn command_arguments() {
    assert_eq!(
        TmuxCommand::ListSessions.args(),
        vec!["list-sessions", "-F", "#{session_name}\t#{session_windows}\t#{session_attached}"]
    );
    assert_eq!(
        TmuxCommand::NewSession { name: "dev".to_string() }.args(),
        vec!["new-session", "-d", "-s", "dev"]
    );
    assert_eq!(
        TmuxCommand::RenameSession { target: "old".to_string(), new_name: "new".to_string() }.args(),
        vec!["rename-session", "-t", "old", "new"]
    );
    assert_eq!(
        TmuxCommand::KillSession { target: "dev".to_string() }.args(),
        vec!["kill-session", "-t", "dev"]
    );
    assert_eq!(
        TmuxCommand::SwitchClient { target: "dev".to_string() }.args(),
        vec!["switch-client", "-t", "dev"]
    );
    assert_eq!(
        TmuxCommand::AttachSession { target: "dev".to_string() }.args(),
        vec!["attach-session", "-t", "dev"]
    );
}

#[test]
fn outcomes_of_commands() {
    let new = TmuxCommand::NewSession { name: "dev".to_string() };
    assert_eq!(new.outcome(Spawn::Exited { success: true }), Ok(()));
    assert_eq!(
        new.outcome(Spawn::Exited { success: false }),
        Err("Failed to create tmux session".to_string())
    );
    assert_eq!(
        new.outcome(Spawn::Failed { reason: "not found".to_string() }),
        Err("Failed to create session: not found".to_string())
    );
    let rename = TmuxCommand::RenameSession { target: "a".to_string(), new_name: "b".to_string() };
    assert_eq!(
        rename.outcome(Spawn::Exited { success: false }),
        Err("Failed to rename tmux session".to_string())
    );
    assert_eq!(
        rename.outcome(Spawn::Failed { reason: "x".to_string() }),
        Err("Failed to rename session: x".to_string())
    );
    let kill = TmuxCommand::KillSession { target: "a".to_string() };
    assert_eq!(
        kill.outcome(Spawn::Exited { success: false }),
        Err("Failed to kill tmux session".to_string())
    );
    assert_eq!(
        kill.outcome(Spawn::Failed { reason: "y".to_string() }),
        Err("Failed to kill session: y".to_string())
    );
    let attach = TmuxCommand::AttachSession { target: "a".to_string() };
    assert_eq!(
        attach.outcome(Spawn::Exited { success: false }),
        Err("Failed to attach to tmux session".to_string())
    );
    assert_eq!(
        attach.outcome(Spawn::Failed { reason: "z".to_string() }),
        Err("Failed to attach session: z".to_string())
    );
    let switch = TmuxCommand::SwitchClient { target: "a".to_string() };
    assert_eq!(
        switch.outcome(Spawn::Failed { reason: "z".to_string() }),
        Err("Failed to attach session: z".to_string())
    );
}

#[test]
fn a_listing_never_fails() {
    assert_eq!(TmuxCommand::ListSessions.outcome(Spawn::Exited { success: false }), Ok(()));
    assert_eq!(
        TmuxCommand::ListSessions.outcome(Spawn::Failed { reason: "gone".to_string() }),
        Ok(())
    );
}

#[test]
fn attach_falls_back_only_after_switch_client_exits_unsuccessfully() {
    let switch = TmuxCommand::SwitchClient { target: "a".to_string() };
    assert_eq!(
        switch.fallback(&Spawn::Exited { success: false }),
        Some(TmuxCommand::AttachSession { target: "a".to_string() })
    );
    assert_eq!(switch.fallback(&Spawn::Exited { success: true }), None);
    assert_eq!(switch.fallback(&Spawn::Failed { reason: "r".to_string() }), None);
    let attach = TmuxCommand::AttachSession { target: "a".to_string() };
    assert_eq!(attach.fallback(&Spawn::Exited { success: false }), None);
}

#[test]
fn session_summary_text() {
    assert_eq!(session("a", 1, false).summary(), " [1 window]");
    assert_eq!(session("a", 2, true).summary(), " [2 windows] (attached)");
    assert_eq!(session("a", 0, false).summary(), " [0 windows]");
}
