//! What holds of the session manager across keys and answers from tmux.

use vstd::prelude::*;
use crate::app::{
    created_step, create_step, initial, key_step, killed_step, next_action, prev_action,
    refresh_step, renamed_step, valid_name_char, ActionView,
    AppView, KeyCode, KeyInput, SessionAction, StateView,
};
use crate::text::{
    all_digits, decimal, is_digit, lemma_decimal_value, lemma_parse_decimal,
    lemma_split_on_nonempty, lemma_trimmed, split_on, trimmed,
};
use crate::tmux::{
    command_args, lines_of, outcome_of, session_of_line, sessions_of_lines, sessions_of_output,
    spawn_failure_prefix, strip_cr, CommandView, SessionView, SpawnView,
};

verus! {

/// Shorthand for a key pressed without Control.
pub open spec fn plain(code: KeyCode) -> KeyInput {
    KeyInput { code, control: false }
}

// ---------------------------------------------------------------------------
// The invariant
// ---------------------------------------------------------------------------

/// The manager starts in a well-formed state.
pub proof fn lemma_initial_wf(sessions: Seq<SessionView>)
    ensures
        initial(sessions).wf(),
{
}

/// Every key keeps the manager well formed and leaves the session list alone.
pub proof fn lemma_key_keeps_wf(a: AppView, k: KeyInput)
    requires
        a.wf(),
    ensures
        key_step(a, k).0.wf(),
        key_step(a, k).0.sessions == a.sessions,
{
    let b = key_step(a, k).0;
    if a.state is CreatingSession {
        match k.code {
            KeyCode::Char(c) => {
                if valid_name_char(c) {
                    assert forall|i: int| 0 <= i < b.input.len() implies valid_name_char(
                        #[trigger] b.input[i],
                    ) by {
                        if i < a.input.len() {
                            assert(b.input[i] == a.input[i]);
                        }
                    }
                }
            },
            KeyCode::Backspace => {
                assert forall|i: int| 0 <= i < b.input.len() implies valid_name_char(
                    #[trigger] b.input[i],
                ) by {
                    assert(b.input[i] == a.input[i]);
                }
            },
            _ => {},
        }
    }
}

/// A fresh session list keeps the manager well formed: the selection moves
/// up to "Create new session" exactly when the list became too short for it.
pub proof fn lemma_refresh_keeps_wf(a: AppView, sessions: Seq<SessionView>)
    requires
        a.wf(),
    ensures
        refresh_step(a, sessions).wf(),
        refresh_step(a, sessions).sessions == sessions,
        refresh_step(a, sessions).selected_index == if a.selected_index <= sessions.len() {
            a.selected_index
        } else {
            sessions.len()
        },
{
}

/// tmux's answers keep the manager well formed.
pub proof fn lemma_answers_keep_wf(a: AppView, r: Result<(), Seq<char>>)
    requires
        a.wf(),
    ensures
        killed_step(a, r).0.wf(),
        created_step(a, r).wf(),
        renamed_step(a, r).0.wf(),
{
}

// ---------------------------------------------------------------------------
// Keys
// ---------------------------------------------------------------------------

/// Any key dismisses the error that was shown.
pub proof fn lemma_key_dismisses_error(a: AppView, k: KeyInput)
    ensures
        key_step(a, k).0.error is None,
{
}

/// `q`, Esc and Control-C quit from the session list.
pub proof fn lemma_quit_keys(a: AppView, k: KeyInput)
    requires
        a.state is SessionList,
        k.code == KeyCode::Char('q') || k.code == KeyCode::Esc || (k.code == KeyCode::Char('c')
            && k.control),
    ensures
        key_step(a, k).0.should_quit,
        key_step(a, k).1 is None,
{
}

/// Down then Up comes back to the same session, with the action at `Enter`.
pub proof fn lemma_down_then_up(a: AppView)
    requires
        a.state is SessionList,
        a.selected_index < a.sessions.len(),
    ensures
        ({
            let b = key_step(key_step(a, plain(KeyCode::Down)).0, plain(KeyCode::Up));
            &&& b.0.selected_index == a.selected_index
            &&& b.0.selected_action == SessionAction::Enter
            &&& b.1 is None
        }),
{
}

/// Up then Down comes back to the same row, with the action at `Enter`.
pub proof fn lemma_up_then_down(a: AppView)
    requires
        a.state is SessionList,
        0 < a.selected_index <= a.sessions.len(),
    ensures
        ({
            let b = key_step(key_step(a, plain(KeyCode::Up)).0, plain(KeyCode::Down));
            &&& b.0.selected_index == a.selected_index
            &&& b.0.selected_action == SessionAction::Enter
            &&& b.1 is None
        }),
{
}

/// The selection stops at the first row and at "Create new session".
pub proof fn lemma_selection_stops_at_edges(a: AppView)
    requires
        a.state is SessionList,
    ensures
        a.selected_index == 0 ==> key_step(a, plain(KeyCode::Up)).0.selected_index == 0,
        a.selected_index == a.sessions.len() ==> key_step(
            a,
            plain(KeyCode::Down),
        ).0.selected_index == a.sessions.len(),
{
}

/// Right then Left gives back the action, unless it was already `Delete`;
/// Left then Right gives it back unless it was already `Enter`.
pub proof fn lemma_action_arrows(a: AppView)
    requires
        a.state is SessionList,
        a.selected_index < a.sessions.len(),
    ensures
        a.selected_action != SessionAction::Delete ==> key_step(
            key_step(a, plain(KeyCode::Right)).0,
            plain(KeyCode::Left),
        ).0.selected_action == a.selected_action,
        a.selected_action != SessionAction::Enter ==> key_step(
            key_step(a, plain(KeyCode::Left)).0,
            plain(KeyCode::Right),
        ).0.selected_action == a.selected_action,
        key_step(a, plain(KeyCode::Right)).0.selected_action == next_action(a.selected_action),
        key_step(a, plain(KeyCode::Left)).0.selected_action == prev_action(a.selected_action),
{
}

/// On "Create new session" the arrows that pick an action do nothing.
pub proof fn lemma_no_action_on_create_row(a: AppView, k: KeyInput)
    requires
        a.state is SessionList,
        a.selected_index == a.sessions.len(),
        k.code == KeyCode::Right || k.code == KeyCode::Left || k.code == KeyCode::Char('l')
            || k.code == KeyCode::Char('h'),
    ensures
        key_step(a, k).0 == (AppView { error: None, ..a }),
        key_step(a, k).1 is None,
{
}

/// In the session list only Enter and `r` ask tmux for anything: Enter asks
/// to kill exactly the selected session when its action is `Delete`, and
/// `r` asks for the list.
pub proof fn lemma_list_commands(a: AppView, k: KeyInput)
    requires
        a.state is SessionList,
        key_step(a, k).1 is Some,
    ensures
        (k.code == KeyCode::Enter && a.selected_action == SessionAction::Delete
            && a.selected_index < a.sessions.len() && key_step(a, k).1 == Some(
            CommandView::KillSession { target: a.sessions[a.selected_index as int].name },
        )) || (k.code == KeyCode::Char('r') && key_step(a, k).1 == Some(
            CommandView::ListSessions,
        )),
{
}

/// Enter on a session whose action is `Enter` asks to attach to that session.
pub proof fn lemma_enter_attaches_selected(a: AppView)
    requires
        a.state is SessionList,
        a.selected_index < a.sessions.len(),
        a.selected_action == SessionAction::Enter,
    ensures
        key_step(a, plain(KeyCode::Enter)).0.action == ActionView::AttachSession(
            a.sessions[a.selected_index as int].name,
        ),
        key_step(a, plain(KeyCode::Enter)).1 is None,
{
}

/// Esc while typing a name goes back to the list and forgets what was typed.
pub proof fn lemma_esc_cancels_typing(a: AppView)
    requires
        a.state is CreatingSession || a.state is RenamingSession,
    ensures
        key_step(a, plain(KeyCode::Esc)).0.state is SessionList,
        key_step(a, plain(KeyCode::Esc)).0.input.len() == 0,
        key_step(a, plain(KeyCode::Esc)).0.sessions == a.sessions,
        key_step(a, plain(KeyCode::Esc)).1 is None,
{
}

/// Backspace takes back a character just typed.
pub proof fn lemma_backspace_undoes_typing(a: AppView, c: char)
    requires
        a.state is CreatingSession || a.state is RenamingSession,
        valid_name_char(c),
    ensures
        key_step(key_step(a, plain(KeyCode::Char(c))).0, plain(KeyCode::Backspace)).0.input
            == a.input,
{
    let b = key_step(a, plain(KeyCode::Char(c))).0;
    assert(b.input.drop_last() =~= a.input);
}

/// A character that may not stand in a session name is not typed.
pub proof fn lemma_invalid_char_ignored(a: AppView, c: char)
    requires
        a.state is CreatingSession || a.state is RenamingSession,
        !valid_name_char(c),
    ensures
        key_step(a, plain(KeyCode::Char(c))).0.input == a.input,
        key_step(a, plain(KeyCode::Char(c))).1 is None,
{
}

// ---------------------------------------------------------------------------
// Requests to tmux and their answers
// ---------------------------------------------------------------------------

/// The session attached to after a successful creation is the one that
/// tmux was asked to create.
pub proof fn lemma_attach_to_created(a: AppView)
    requires
        create_step(a).1 is Some,
    ensures
        create_step(a).1 == Some(CommandView::NewSession { name: trimmed(a.input) }),
        created_step(a, Ok(())).action == ActionView::AttachSession(trimmed(a.input)),
{
}

/// A failed creation shows tmux's error and goes back to the list.
pub proof fn lemma_failed_creation(a: AppView, e: Seq<char>)
    ensures
        created_step(a, Err(e)).error == Some(e),
        created_step(a, Err(e)).state is SessionList,
        created_step(a, Err(e)).input.len() == 0,
        created_step(a, Err(e)).action == a.action,
{
}

/// Renaming starts from the selected session's own name, and Enter asks to
/// give that session the typed name, trimmed.
pub proof fn lemma_rename_targets_selected(a: AppView)
    requires
        a.state is SessionList,
        a.selected_index < a.sessions.len(),
        a.selected_action == SessionAction::Rename,
    ensures
        ({
            let name = a.sessions[a.selected_index as int].name;
            let b = key_step(a, plain(KeyCode::Enter)).0;
            &&& b.state == StateView::RenamingSession { original_name: name }
            &&& b.input == name
            &&& trimmed(name).len() > 0 ==> key_step(b, plain(KeyCode::Enter)).1 == Some(
                CommandView::RenameSession { target: name, new_name: trimmed(name) },
            )
        }),
{
}

/// Whatever tmux answers to a rename, the manager is back at the list with
/// nothing typed and the action at `Enter`; the list is fetched again only
/// after a success, and an error is shown only after a failure.
pub proof fn lemma_rename_answer(a: AppView, r: Result<(), Seq<char>>)
    ensures
        renamed_step(a, r).0.state is SessionList,
        renamed_step(a, r).0.input.len() == 0,
        renamed_step(a, r).0.selected_action == SessionAction::Enter,
        (renamed_step(a, r).1 == Some(CommandView::ListSessions)) == (r is Ok),
        r is Ok ==> renamed_step(a, r).0.error == a.error,
        r matches Err(e) ==> renamed_step(a, r).0.error == Some(e),
{
}

/// After a session is killed the list is fetched again; a failure is shown
/// and changes nothing else.
pub proof fn lemma_kill_answer(a: AppView, r: Result<(), Seq<char>>)
    ensures
        r is Ok ==> killed_step(a, r).1 == Some(CommandView::ListSessions)
            && killed_step(a, r).0.selected_action == SessionAction::Enter,
        r matches Err(e) ==> killed_step(a, r).0 == (AppView { error: Some(e), ..a })
            && killed_step(a, r).1 is None,
{
}

} // verus!

verus! {

// ---------------------------------------------------------------------------
// Reading `tmux list-sessions`
// ---------------------------------------------------------------------------

/// `1` for a session with a client attached, `0` for one without.
pub open spec fn attached_flag(attached: bool) -> Seq<char> {
    if attached {
        seq!['1']
    } else {
        seq!['0']
    }
}

/// The line that tmux prints for a session in the format that the manager
/// asks for.
pub open spec fn format_line(s: SessionView) -> Seq<char> {
    s.name + seq!['\t'] + decimal(s.windows as nat) + seq!['\t'] + attached_flag(s.attached)
}

/// The whole output that tmux prints for a list of sessions.
pub open spec fn listing(ss: Seq<SessionView>) -> Seq<char>
    decreases ss.len(),
{
    if ss.len() == 0 {
        Seq::empty()
    } else {
        listing(ss.drop_last()) + format_line(ss.last()).push('\n')
    }
}

/// A name that tmux prints whole on one line of one field.
pub open spec fn plain_name(n: Seq<char>) -> bool {
    !n.contains('\t') && !n.contains('\n')
}

/// Splitting a concatenation joins the last piece of the first part to the
/// first piece of the second.
pub proof fn lemma_split_concat(x: Seq<char>, y: Seq<char>, sep: char)
    ensures
        split_on(x + y, sep) == split_on(x, sep).drop_last() + seq![
            split_on(x, sep).last() + split_on(y, sep)[0],
        ] + split_on(y, sep).drop_first(),
    decreases y.len(),
{
    lemma_split_on_nonempty(x, sep);
    lemma_split_on_nonempty(y, sep);
    let a = split_on(x, sep);
    if y.len() == 0 {
        assert(x + y =~= x);
        assert(split_on(y, sep) =~= seq![Seq::<char>::empty()]);
        assert(a.drop_last() + seq![a.last() + Seq::<char>::empty()] =~= a);
        assert(a.last() + Seq::<char>::empty() =~= a.last());
    } else {
        let y0 = y.drop_last();
        let c = y.last();
        lemma_split_concat(x, y0, sep);
        lemma_split_on_nonempty(y0, sep);
        let b0 = split_on(y0, sep);
        let b = split_on(y, sep);
        assert((x + y).drop_last() =~= x + y0);
        assert((x + y).last() == c);
        let s0 = split_on(x + y0, sep);
        if c == sep {
            assert(b == b0.push(Seq::<char>::empty()));
            assert(b[0] == b0[0]);
            assert(b.drop_first() =~= b0.drop_first().push(Seq::<char>::empty()));
            assert(split_on(x + y, sep) == s0.push(Seq::<char>::empty()));
            assert(split_on(x + y, sep) =~= a.drop_last() + seq![a.last() + b[0]] + b.drop_first());
        } else {
            assert(b == b0.update(b0.len() - 1, b0.last().push(c)));
            assert(split_on(x + y, sep) == s0.update(s0.len() - 1, s0.last().push(c)));
            if b0.len() == 1 {
                assert(b[0] == b0[0].push(c));
                assert(b.drop_first() =~= Seq::<Seq<char>>::empty());
                assert(b0.drop_first() =~= Seq::<Seq<char>>::empty());
                assert((a.last() + b0[0]).push(c) =~= a.last() + b0[0].push(c));
                assert(split_on(x + y, sep) =~= a.drop_last() + seq![a.last() + b[0]]
                    + b.drop_first());
            } else {
                assert(b[0] == b0[0]);
                assert(b.drop_first() =~= b0.drop_first().update(
                    b0.len() - 2,
                    b0.last().push(c),
                ));
                assert(split_on(x + y, sep) =~= a.drop_last() + seq![a.last() + b[0]]
                    + b.drop_first());
            }
        }
    }
}

/// Text without the separator is a single piece.
pub proof fn lemma_split_without_sep(x: Seq<char>, sep: char)
    requires
        !x.contains(sep),
    ensures
        split_on(x, sep) == seq![x],
    decreases x.len(),
{
    if x.len() == 0 {
        assert(x =~= Seq::<char>::empty());
        assert(split_on(x, sep) =~= seq![x]);
    } else {
        let x0 = x.drop_last();
        assert(!x0.contains(sep)) by {
            if x0.contains(sep) {
                let i = choose|i: int| 0 <= i < x0.len() && x0[i] == sep;
                assert(x[i] == sep);
            }
        }
        lemma_split_without_sep(x0, sep);
        assert(x[x.len() - 1] == x.last());
        assert(x.last() != sep);
        assert(x0.push(x.last()) =~= x);
        assert(x.drop_last() == x0);
        assert(split_on(x, sep) == seq![x0].update(0, x0.push(x.last())));
        assert(split_on(x, sep) =~= seq![x]);
    }
}

/// Digits hold neither tab nor newline.
pub proof fn lemma_digits_plain(d: Seq<char>)
    requires
        all_digits(d),
    ensures
        !d.contains('\t'),
        !d.contains('\n'),
        !d.contains('\r'),
{
    if d.contains('\t') {
        let i = choose|i: int| 0 <= i < d.len() && d[i] == '\t';
        assert(is_digit(d[i]));
    }
    if d.contains('\n') {
        let i = choose|i: int| 0 <= i < d.len() && d[i] == '\n';
        assert(is_digit(d[i]));
    }
    if d.contains('\r') {
        let i = choose|i: int| 0 <= i < d.len() && d[i] == '\r';
        assert(is_digit(d[i]));
    }
}

/// The fields of a session's line are its name, its window count and its flag.
proof fn lemma_line_fields(s: SessionView)
    requires
        plain_name(s.name),
    ensures
        split_on(format_line(s), '\t') == seq![
            s.name,
            decimal(s.windows as nat),
            attached_flag(s.attached),
        ],
{
    let n = s.name;
    let d = decimal(s.windows as nat);
    let f = attached_flag(s.attached);
    let tab = seq!['\t'];
    lemma_decimal_value(s.windows as nat);
    lemma_digits_plain(d);
    assert(!f.contains('\t')) by {
        if f.contains('\t') {
            assert(f[0] == '\t');
        }
    }
    lemma_split_without_sep(n, '\t');
    lemma_split_without_sep(d, '\t');
    lemma_split_without_sep(f, '\t');
    lemma_split_without_sep(Seq::<char>::empty(), '\t');
    assert(split_on(tab, '\t') =~= seq![Seq::<char>::empty(), Seq::<char>::empty()]) by {
        assert(tab.drop_last() =~= Seq::<char>::empty());
    }
    lemma_split_concat(n, tab, '\t');
    let s1 = split_on(n + tab, '\t');
    assert(s1 =~= seq![n, Seq::<char>::empty()]) by {
        assert(n + Seq::<char>::empty() =~= n);
    }
    lemma_split_concat(n + tab, d, '\t');
    let s2 = split_on(n + tab + d, '\t');
    assert(s2 =~= seq![n, d]) by {
        assert(Seq::<char>::empty() + d =~= d);
    }
    lemma_split_concat(n + tab + d, tab, '\t');
    let s3 = split_on(n + tab + d + tab, '\t');
    assert(s3 =~= seq![n, d, Seq::<char>::empty()]) by {
        assert(d + Seq::<char>::empty() =~= d);
    }
    lemma_split_concat(n + tab + d + tab, f, '\t');
    assert(Seq::<char>::empty() + f =~= f);
    assert(split_on(format_line(s), '\t') =~= seq![n, d, f]);
}

/// A session's line reads back as that session.
pub proof fn lemma_line_roundtrip(s: SessionView)
    requires
        plain_name(s.name),
    ensures
        session_of_line(format_line(s)) == Some(s),
{
    lemma_line_fields(s);
    lemma_parse_decimal(s.windows);
    if !s.attached {
        assert(attached_flag(s.attached) != seq!['1']) by {
            assert(attached_flag(s.attached)[0] == '0');
        }
    }
}

/// A session's line holds no newline and does not end in a carriage return.
proof fn lemma_line_plain(s: SessionView)
    requires
        plain_name(s.name),
    ensures
        !format_line(s).contains('\n'),
        strip_cr(format_line(s)) == format_line(s),
{
    let d = decimal(s.windows as nat);
    lemma_decimal_value(s.windows as nat);
    lemma_digits_plain(d);
    let l = format_line(s);
    let k = s.name.len();
    if l.contains('\n') {
        let i = choose|i: int| 0 <= i < l.len() && l[i] == '\n';
        if i < k {
            assert(s.name[i] == '\n');
        } else if i == k {
        } else if i < k + 1 + d.len() {
            assert(d[i - k - 1] == '\n');
        } else if i == k + 1 + d.len() {
        } else {
            assert(attached_flag(s.attached)[i - k - 2 - d.len()] == '\n');
        }
    }
    assert(l.last() == attached_flag(s.attached)[0]);
}

/// The output for a list of sessions is their lines, each ended by a newline.
proof fn lemma_listing_pieces(ss: Seq<SessionView>)
    requires
        forall|i: int| 0 <= i < ss.len() ==> plain_name(#[trigger] ss[i].name),
    ensures
        split_on(listing(ss), '\n') == ss.map_values(|s: SessionView| format_line(s)).push(
            Seq::<char>::empty(),
        ),
    decreases ss.len(),
{
    if ss.len() == 0 {
        assert(split_on(listing(ss), '\n') =~= ss.map_values(|s: SessionView| format_line(s)).push(
            Seq::<char>::empty(),
        ));
    } else {
        let prev = ss.drop_last();
        let s = ss.last();
        assert(plain_name(ss[ss.len() - 1].name));
        assert forall|i: int| 0 <= i < prev.len() implies plain_name(#[trigger] prev[i].name) by {
            assert(prev[i] == ss[i]);
        }
        lemma_listing_pieces(prev);
        let l = format_line(s);
        lemma_line_plain(s);
        lemma_split_without_sep(l, '\n');
        assert(l.push('\n').drop_last() =~= l);
        assert(split_on(l.push('\n'), '\n') == seq![l, Seq::<char>::empty()]);
        lemma_split_concat(listing(prev), l.push('\n'), '\n');
        assert(Seq::<char>::empty() + l =~= l);
        assert(split_on(listing(ss), '\n') =~= ss.map_values(|s: SessionView| format_line(s)).push(
            Seq::<char>::empty(),
        ));
    }
}

/// Reading the lines of a list of sessions gives back the list.
proof fn lemma_lines_roundtrip(ss: Seq<SessionView>)
    requires
        forall|i: int| 0 <= i < ss.len() ==> plain_name(#[trigger] ss[i].name),
    ensures
        sessions_of_lines(ss.map_values(|s: SessionView| format_line(s))) == ss,
    decreases ss.len(),
{
    let ls = ss.map_values(|s: SessionView| format_line(s));
    if ss.len() == 0 {
        assert(sessions_of_lines(ls) =~= ss);
    } else {
        let prev = ss.drop_last();
        assert forall|i: int| 0 <= i < prev.len() implies plain_name(#[trigger] prev[i].name) by {
            assert(prev[i] == ss[i]);
        }
        lemma_lines_roundtrip(prev);
        assert(ls.drop_last() =~= prev.map_values(|s: SessionView| format_line(s)));
        assert(plain_name(ss[ss.len() - 1].name));
        lemma_line_roundtrip(ss.last());
        assert(sessions_of_lines(ls) =~= ss);
    }
}

/// Whatever sessions tmux lists, the manager reads exactly those sessions,
/// in order, from its output, as long as no name holds a tab or a newline
/// (names may hold colons and spaces).
pub proof fn lemma_listing_roundtrip(ss: Seq<SessionView>)
    requires
        forall|i: int| 0 <= i < ss.len() ==> plain_name(#[trigger] ss[i].name),
    ensures
        sessions_of_output(listing(ss)) == ss,
{
    lemma_listing_pieces(ss);
    let ls = ss.map_values(|s: SessionView| format_line(s));
    let p = split_on(listing(ss), '\n');
    assert(lines_of(listing(ss)) =~= ls) by {
        assert forall|k: int| 0 <= k < ls.len() implies strip_cr(p[k]) == #[trigger] ls[k] by {
            assert(plain_name(ss[k].name));
            lemma_line_plain(ss[k]);
        }
    }
    lemma_lines_roundtrip(ss);
}

} // verus!

verus! {

// ---------------------------------------------------------------------------
// What each request to tmux is for
// ---------------------------------------------------------------------------

/// A command that ran and exited successfully has succeeded, whatever the
/// command; one that exited unsuccessfully or could not be run has failed,
/// unless it was a listing (whose failure just lists no sessions), and the
/// reason it could not be run ends its message.
pub proof fn lemma_outcome_follows_exit(c: CommandView, reason: Seq<char>)
    ensures
        outcome_of(c, SpawnView::Exited { success: true }) == Ok::<(), Seq<char>>(()),
        !(c is ListSessions) ==> outcome_of(c, SpawnView::Exited { success: false }) is Err,
        !(c is ListSessions) ==> (outcome_of(c, SpawnView::Failed { reason }) matches Err(m)
            && m.len() >= reason.len() && m.subrange(m.len() - reason.len(), m.len() as int)
            == reason),
{
    if !(c is ListSessions) {
        let m = spawn_failure_prefix(c) + reason;
        assert(m.subrange(m.len() - reason.len(), m.len() as int) =~= reason);
    }
}

/// In the session list, Enter on a session whose action is `Delete` always
/// asks to kill exactly that session, and changes nothing else but the
/// error shown.
pub proof fn lemma_delete_kills_selected(a: AppView, k: KeyInput)
    requires
        a.state is SessionList,
        a.selected_index < a.sessions.len(),
        a.selected_action == SessionAction::Delete,
        k.code == KeyCode::Enter,
    ensures
        key_step(a, k).1 == Some(
            CommandView::KillSession { target: a.sessions[a.selected_index as int].name },
        ),
        key_step(a, k).0 == (AppView { error: None, ..a }),
{
}

/// The trimmed text is never longer than the text.
proof fn lemma_trimmed_len(s: Seq<char>)
    ensures
        trimmed(s).len() <= s.len(),
{
    lemma_trimmed(s);
    let (i, j) = choose|i: int, j: int| 0 <= i <= j <= s.len() && trimmed(s) == s.subrange(i, j);
}

/// While a new session's name is typed, Enter with a name whose trimmed text
/// is not empty asks tmux to create a session of exactly that trimmed name,
/// whatever its length.
pub proof fn lemma_create_requests_trimmed_name(a: AppView, k: KeyInput)
    requires
        a.state is CreatingSession,
        k.code == KeyCode::Enter,
        trimmed(a.input).len() > 0,
    ensures
        key_step(a, k).1 == Some(CommandView::NewSession { name: trimmed(a.input) }),
{
    lemma_trimmed_len(a.input);
}

/// While a session is renamed, Enter with a name whose trimmed text is not
/// empty asks to give that session exactly the trimmed text, whatever its
/// length.
pub proof fn lemma_rename_requests_trimmed_name(a: AppView, k: KeyInput)
    requires
        a.state is RenamingSession,
        k.code == KeyCode::Enter,
        trimmed(a.input).len() > 0,
    ensures
        key_step(a, k).1 == Some(
            CommandView::RenameSession {
                target: a.state->original_name,
                new_name: trimmed(a.input),
            },
        ),
{
    lemma_trimmed_len(a.input);
}

/// In the session list the vim keys act exactly as the arrows: `j` as Down,
/// `k` as Up, `l` as Right and `h` as Left.
pub proof fn lemma_vim_keys_are_arrows(a: AppView, control: bool)
    requires
        a.state is SessionList,
    ensures
        key_step(a, KeyInput { code: KeyCode::Char('j'), control }) == key_step(
            a,
            KeyInput { code: KeyCode::Down, control },
        ),
        key_step(a, KeyInput { code: KeyCode::Char('k'), control }) == key_step(
            a,
            KeyInput { code: KeyCode::Up, control },
        ),
        key_step(a, KeyInput { code: KeyCode::Char('l'), control }) == key_step(
            a,
            KeyInput { code: KeyCode::Right, control },
        ),
        key_step(a, KeyInput { code: KeyCode::Char('h'), control }) == key_step(
            a,
            KeyInput { code: KeyCode::Left, control },
        ),
{
}

/// In the session list, any key that moves the selection to another row
/// leaves the action at `Enter`, and moves it by exactly one row.
pub proof fn lemma_moving_resets_action(a: AppView, k: KeyInput)
    requires
        a.state is SessionList,
        key_step(a, k).0.selected_index != a.selected_index,
    ensures
        key_step(a, k).0.selected_action == SessionAction::Enter,
        key_step(a, k).0.selected_index == a.selected_index + 1 || key_step(a, k).0.selected_index
            == a.selected_index - 1,
{
}

} // verus!

verus! {

/// In the session list, Up and Down move the selection by exactly one row
/// whenever there is a row to move to.
pub proof fn lemma_arrows_move_one_row(a: AppView, control: bool)
    requires
        a.state is SessionList,
    ensures
        a.selected_index < a.sessions.len() ==> key_step(
            a,
            KeyInput { code: KeyCode::Down, control },
        ).0.selected_index == a.selected_index + 1,
        a.selected_index > 0 ==> key_step(
            a,
            KeyInput { code: KeyCode::Up, control },
        ).0.selected_index == a.selected_index - 1,
{
}

/// In the session list, `r` asks for the session list and changes nothing
/// but the error shown.
pub proof fn lemma_r_refreshes(a: AppView, control: bool)
    requires
        a.state is SessionList,
    ensures
        key_step(a, KeyInput { code: KeyCode::Char('r'), control }).1 == Some(
            CommandView::ListSessions,
        ),
        key_step(a, KeyInput { code: KeyCode::Char('r'), control }).0 == (AppView {
            error: None,
            ..a
        }),
{
}

/// In the session list, Enter on a session acts on that session as its
/// action says, whatever modifier is held: `Enter` attaches to it, `Rename`
/// starts editing its name; Enter on "Create new session" starts typing a
/// new name from nothing.
pub proof fn lemma_enter_acts_on_selected(a: AppView, k: KeyInput)
    requires
        a.state is SessionList,
        k.code == KeyCode::Enter,
        a.selected_index <= a.sessions.len(),
    ensures
        ({
            let b = key_step(a, k);
            let i = a.selected_index as int;
            &&& (i < a.sessions.len() && a.selected_action == SessionAction::Enter) ==> (
            b.0.action == ActionView::AttachSession(a.sessions[i].name) && b.1 is None)
            &&& (i < a.sessions.len() && a.selected_action == SessionAction::Rename) ==> (b.0.state
                == (StateView::RenamingSession { original_name: a.sessions[i].name }) && b.0.input
                == a.sessions[i].name && b.1 is None)
            &&& i == a.sessions.len() ==> (b.0.state is CreatingSession && b.0.input.len() == 0
                && b.1 is None)
        }),
{
}

/// While a name is typed, a character allowed in session names is appended
/// to it and Backspace removes its last character; neither asks tmux for
/// anything.
pub proof fn lemma_typing_edits_the_name(a: AppView, c: char, control: bool)
    requires
        a.state is CreatingSession || a.state is RenamingSession,
    ensures
        valid_name_char(c) ==> key_step(a, KeyInput { code: KeyCode::Char(c), control }).0.input
            == a.input.push(c),
        (key_step(a, KeyInput { code: KeyCode::Char(c), control }).1 is None),
        a.input.len() > 0 ==> key_step(
            a,
            KeyInput { code: KeyCode::Backspace, control },
        ).0.input == a.input.drop_last(),
        (key_step(a, KeyInput { code: KeyCode::Backspace, control }).1 is None),
        key_step(a, KeyInput { code: KeyCode::Char(c), control }).0.state == a.state,
        key_step(a, KeyInput { code: KeyCode::Backspace, control }).0.state == a.state,
{
}

/// While a name is typed, Enter with nothing but whitespace asks tmux for
/// nothing and keeps the prompt.
pub proof fn lemma_blank_name_refused(a: AppView, k: KeyInput)
    requires
        a.state is CreatingSession || a.state is RenamingSession,
        k.code == KeyCode::Enter,
        trimmed(a.input).len() == 0,
    ensures
        key_step(a, k).1 is None,
        key_step(a, k).0 == (AppView { error: None, ..a }),
{
}

/// The arguments of every command but the listing name the session it acts
/// on: the new name last for a creation, the old name then the new one for
/// a rename, and the target last otherwise.
pub proof fn lemma_args_name_the_session(c: CommandView)
    ensures
        command_args(c).len() >= 3,
        c matches CommandView::NewSession { name } ==> command_args(c).last() == name,
        c matches CommandView::RenameSession { target, new_name } ==> command_args(c)[2]
            == target && command_args(c).last() == new_name,
        c matches CommandView::KillSession { target } ==> command_args(c).last() == target,
        c matches CommandView::SwitchClient { target } ==> command_args(c).last() == target,
        c matches CommandView::AttachSession { target } ==> command_args(c).last() == target,
{
}

} // verus!
