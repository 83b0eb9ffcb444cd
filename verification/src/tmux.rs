//! tmux sessions as `tmux list-sessions` reports them, and the commands the
//! session manager asks tmux to run.

use vstd::prelude::*;
use crate::text::{
    chars_range, decimal, parse_u32, parse_u32_chars, push_decimal, split_chars, split_on,
    string_from_chars, to_chars, views,
};

verus! {

/// One tmux session.
#[derive(Debug, Clone)]
pub struct TmuxSession {
    pub name: String,
    pub windows: u32,
    pub attached: bool,
}

/// What a [`TmuxSession`] holds, as plain values.
pub struct SessionView {
    pub name: Seq<char>,
    pub windows: u32,
    pub attached: bool,
}

impl View for TmuxSession {
    type V = SessionView;

    open spec fn view(&self) -> SessionView {
        SessionView { name: self.name@, windows: self.windows, attached: self.attached }
    }
}

/// The views of a list of sessions.
pub open spec fn session_views(s: Seq<TmuxSession>) -> Seq<SessionView> {
    s.map_values(|t: TmuxSession| t@)
}

// ---------------------------------------------------------------------------
// The output of `tmux list-sessions -F "#{session_name}\t#{session_windows}\t#{session_attached}"`
// ---------------------------------------------------------------------------

/// `p` without one trailing carriage return.
pub open spec fn strip_cr(p: Seq<char>) -> Seq<char> {
    if p.len() > 0 && p.last() == '\r' {
        p.drop_last()
    } else {
        p
    }
}

/// The lines of `s` as `str::lines` gives them: split at `\n`, a `\r` just
/// before a `\n` dropped, and no empty line after a final `\n`.
pub open spec fn lines_of(s: Seq<char>) -> Seq<Seq<char>> {
    let p = split_on(s, '\n');
    let body = Seq::new((p.len() - 1) as nat, |k: int| strip_cr(p[k]));
    if p.last().len() > 0 {
        body.push(p.last())
    } else {
        body
    }
}

/// The session that one line of output describes: its tab-separated fields
/// are the name, the window count and whether a client is attached (`1`).
/// A line with fewer than three fields describes none; a window count that
/// does not parse counts as zero.
pub open spec fn session_of_line(line: Seq<char>) -> Option<SessionView> {
    let f = split_on(line, '\t');
    if f.len() >= 3 {
        Some(
            SessionView {
                name: f[0],
                windows: match parse_u32(f[1]) {
                    Some(w) => w,
                    None => 0,
                },
                attached: f[2] == seq!['1'],
            },
        )
    } else {
        None
    }
}

/// The sessions that the lines describe, in order.
pub open spec fn sessions_of_lines(lines: Seq<Seq<char>>) -> Seq<SessionView>
    decreases lines.len(),
{
    if lines.len() == 0 {
        Seq::empty()
    } else {
        let prev = sessions_of_lines(lines.drop_last());
        match session_of_line(lines.last()) {
            Some(s) => prev.push(s),
            None => prev,
        }
    }
}

/// The sessions that a whole output describes.
pub open spec fn sessions_of_output(s: Seq<char>) -> Seq<SessionView> {
    sessions_of_lines(lines_of(s))
}

/// The lines of `v`.
fn line_list(v: &Vec<char>) -> (r: Vec<Vec<char>>)
    ensures
        views(r@) == lines_of(v@),
{
    let pieces = split_chars(v, '\n');
    let ghost p = split_on(v@, '\n');
    let n = pieces.len();
    let mut r: Vec<Vec<char>> = Vec::new();
    let mut k: usize = 0;
    while k + 1 < n
        invariant
            n == pieces@.len(),
            n >= 1,
            views(pieces@) == p,
            k + 1 <= n,
            views(r@) == Seq::new(k as nat, |i: int| strip_cr(p[i])),
        decreases n - k,
    {
        let piece = &pieces[k];
        assert(piece@ == p[k as int]);
        let m = piece.len();
        let line = if m > 0 && piece[m - 1] == '\r' {
            chars_range(piece, 0, m - 1)
        } else {
            chars_range(piece, 0, m)
        };
        assert(line@ =~= strip_cr(p[k as int]));
        let ghost pre = views(r@);
        let ghost kk = k as int;
        r.push(line);
        assert(views(r@) =~= pre.push(line@));
        k = k + 1;
        assert(views(r@) =~= Seq::new(k as nat, |i: int| strip_cr(p[i]))) by {
            assert forall|i: int| 0 <= i < k implies #[trigger] views(r@)[i] == strip_cr(p[i]) by {
                if i < kk {
                    assert(views(r@)[i] == pre[i]);
                }
            }
        }
    }
    let last = &pieces[n - 1];
    assert(last@ == p.last());
    assert(k == n - 1);
    let ghost body = Seq::new((p.len() - 1) as nat, |i: int| strip_cr(p[i]));
    assert(views(r@) =~= body);
    if last.len() > 0 {
        let copy = chars_range(last, 0, last.len());
        let ghost pre = views(r@);
        r.push(copy);
        assert(views(r@) =~= pre.push(copy@));
        assert(copy@ == p.last());
        assert(p.last().len() > 0);
        assert(lines_of(v@) =~= body.push(p.last()));
    } else {
        assert(p.last().len() == 0);
        assert(lines_of(v@) =~= body);
    }
    r
}

/// The session that one line describes, if any.
pub fn parse_session_line(line: &Vec<char>) -> (r: Option<TmuxSession>)
    ensures
        match r {
            Some(t) => session_of_line(line@) == Some(t@),
            None => session_of_line(line@) is None,
        },
{
    let fields = split_chars(line, '\t');
    let ghost f = split_on(line@, '\t');
    if fields.len() >= 3 {
        assert(fields@[0]@ == f[0]);
        assert(fields@[1]@ == f[1]);
        assert(fields@[2]@ == f[2]);
        let name = string_from_chars(&fields[0]);
        let windows = match parse_u32_chars(&fields[1]) {
            Some(w) => w,
            None => 0,
        };
        let third = &fields[2];
        let attached = third.len() == 1 && third[0] == '1';
        if attached {
            assert(third@ =~= seq!['1']);
        } else {
            assert(third@ != seq!['1']) by {
                if third@ == seq!['1'] {
                    assert(third@.len() == 1 && third@[0] == '1');
                }
            }
        }
        Some(TmuxSession { name, windows, attached })
    } else {
        None
    }
}

/// The sessions listed in the output of `tmux list-sessions` run with the
/// format `#{session_name}\t#{session_windows}\t#{session_attached}`.
pub fn parse_session_list(output: &str) -> (r: Vec<TmuxSession>)
    ensures
        session_views(r@) == sessions_of_output(output@),
{
    let chars = to_chars(output);
    let lines = line_list(&chars);
    let ghost ls = lines_of(output@);
    let mut r: Vec<TmuxSession> = Vec::new();
    let mut k: usize = 0;
    while k < lines.len()
        invariant
            k <= lines@.len(),
            views(lines@) == ls,
            session_views(r@) == sessions_of_lines(ls.take(k as int)),
        decreases lines@.len() - k,
    {
        let line = &lines[k];
        assert(line@ == ls[k as int]);
        assert(ls.take(k + 1).drop_last() =~= ls.take(k as int));
        assert(ls.take(k + 1).last() == ls[k as int]);
        let ghost pre = session_views(r@);
        match parse_session_line(line) {
            Some(t) => {
                r.push(t);
                assert(session_views(r@) =~= pre.push(t@));
            },
            None => {},
        }
        k = k + 1;
    }
    assert(ls.take(lines@.len() as int) =~= ls);
    r
}

} // verus!

verus! {

// ---------------------------------------------------------------------------
// Commands for tmux
// ---------------------------------------------------------------------------

/// A tmux command that the session manager needs run.
#[derive(Debug, Clone, PartialEq, Eq)]
pub enum TmuxCommand {
    /// List the sessions, one line each in the format that
    /// [`parse_session_list`] reads.
    ListSessions,
    /// Create a detached session.
    NewSession { name: String },
    /// Rename a session.
    RenameSession { target: String, new_name: String },
    /// Kill a session.
    KillSession { target: String },
    /// Switch the current client to a session (works inside tmux).
    SwitchClient { target: String },
    /// Attach the terminal to a session (works outside tmux).
    AttachSession { target: String },
}

/// What a [`TmuxCommand`] holds, as plain values.
pub enum CommandView {
    ListSessions,
    NewSession { name: Seq<char> },
    RenameSession { target: Seq<char>, new_name: Seq<char> },
    KillSession { target: Seq<char> },
    SwitchClient { target: Seq<char> },
    AttachSession { target: Seq<char> },
}

impl View for TmuxCommand {
    type V = CommandView;

    open spec fn view(&self) -> CommandView {
        match self {
            TmuxCommand::ListSessions => CommandView::ListSessions,
            TmuxCommand::NewSession { name } => CommandView::NewSession { name: name@ },
            TmuxCommand::RenameSession { target, new_name } => CommandView::RenameSession {
                target: target@,
                new_name: new_name@,
            },
            TmuxCommand::KillSession { target } => CommandView::KillSession { target: target@ },
            TmuxCommand::SwitchClient { target } => CommandView::SwitchClient { target: target@ },
            TmuxCommand::AttachSession { target } => CommandView::AttachSession { target: target@ },
        }
    }
}

/// The view of an optional command.
pub open spec fn command_view(c: Option<TmuxCommand>) -> Option<CommandView> {
    match c {
        Some(c) => Some(c@),
        None => None,
    }
}

/// The format that `list-sessions` is asked for: tab-separated, so that
/// session names holding colons come through whole.
pub open spec fn list_format() -> Seq<char> {
    "#{session_name}\t#{session_windows}\t#{session_attached}"@
}

/// The arguments given to `tmux` for a command.
pub open spec fn command_args(c: CommandView) -> Seq<Seq<char>> {
    match c {
        CommandView::ListSessions => seq!["list-sessions"@, "-F"@, list_format()],
        CommandView::NewSession { name } => seq!["new-session"@, "-d"@, "-s"@, name],
        CommandView::RenameSession { target, new_name } => seq![
            "rename-session"@,
            "-t"@,
            target,
            new_name,
        ],
        CommandView::KillSession { target } => seq!["kill-session"@, "-t"@, target],
        CommandView::SwitchClient { target } => seq!["switch-client"@, "-t"@, target],
        CommandView::AttachSession { target } => seq!["attach-session"@, "-t"@, target],
    }
}

/// How running a tmux command went.
#[derive(Debug, Clone, PartialEq, Eq)]
pub enum Spawn {
    /// tmux ran and exited, successfully or not.
    Exited { success: bool },
    /// tmux could not be run; the reason, as text.
    Failed { reason: String },
}

/// What a [`Spawn`] holds, as plain values.
pub enum SpawnView {
    Exited { success: bool },
    Failed { reason: Seq<char> },
}

impl View for Spawn {
    type V = SpawnView;

    open spec fn view(&self) -> SpawnView {
        match self {
            Spawn::Exited { success } => SpawnView::Exited { success: *success },
            Spawn::Failed { reason } => SpawnView::Failed { reason: reason@ },
        }
    }
}

/// The words that open the message of a command that could not be run
/// (a listing has no message: see [`outcome_of`]).
pub open spec fn spawn_failure_prefix(c: CommandView) -> Seq<char> {
    match c {
        CommandView::ListSessions => ""@,
        CommandView::NewSession { .. } => "Failed to create session: "@,
        CommandView::RenameSession { .. } => "Failed to rename session: "@,
        CommandView::KillSession { .. } => "Failed to kill session: "@,
        CommandView::SwitchClient { .. } => "Failed to attach session: "@,
        CommandView::AttachSession { .. } => "Failed to attach session: "@,
    }
}

/// The message of a command that ran and exited unsuccessfully (a listing
/// has no message: see [`outcome_of`]).
pub open spec fn exit_failure_message(c: CommandView) -> Seq<char> {
    match c {
        CommandView::ListSessions => ""@,
        CommandView::NewSession { .. } => "Failed to create tmux session"@,
        CommandView::RenameSession { .. } => "Failed to rename tmux session"@,
        CommandView::KillSession { .. } => "Failed to kill tmux session"@,
        CommandView::SwitchClient { .. } => "Failed to attach to tmux session"@,
        CommandView::AttachSession { .. } => "Failed to attach to tmux session"@,
    }
}

/// The result of a command, given how running it went. A listing never
/// fails: one that goes wrong lists no sessions (see [`sessions_from_listing`]).
pub open spec fn outcome_of(c: CommandView, s: SpawnView) -> Result<(), Seq<char>> {
    if c is ListSessions {
        Ok(())
    } else {
        match s {
            SpawnView::Exited { success } => if success {
                Ok(())
            } else {
                Err(exit_failure_message(c))
            },
            SpawnView::Failed { reason } => Err(spawn_failure_prefix(c) + reason),
        }
    }
}

/// The view of a result whose error is text.
pub open spec fn result_view(r: Result<(), String>) -> Result<(), Seq<char>> {
    match r {
        Ok(()) => Ok(()),
        Err(e) => Err(e@),
    }
}

fn owned(s: &str) -> (r: String)
    ensures
        r@ == s@,
{
    String::from_str(s)
}

impl TmuxCommand {
    /// The arguments to hand to `tmux` for this command.
    pub fn args(&self) -> (r: Vec<String>)
        ensures
            r@.map_values(|a: String| a@) == command_args(self@),
    {
        let mut r: Vec<String> = Vec::new();
        match self {
            TmuxCommand::ListSessions => {
                r.push(owned("list-sessions"));
                r.push(owned("-F"));
                r.push(owned("#{session_name}\t#{session_windows}\t#{session_attached}"));
            },
            TmuxCommand::NewSession { name } => {
                r.push(owned("new-session"));
                r.push(owned("-d"));
                r.push(owned("-s"));
                r.push(name.clone());
            },
            TmuxCommand::RenameSession { target, new_name } => {
                r.push(owned("rename-session"));
                r.push(owned("-t"));
                r.push(target.clone());
                r.push(new_name.clone());
            },
            TmuxCommand::KillSession { target } => {
                r.push(owned("kill-session"));
                r.push(owned("-t"));
                r.push(target.clone());
            },
            TmuxCommand::SwitchClient { target } => {
                r.push(owned("switch-client"));
                r.push(owned("-t"));
                r.push(target.clone());
            },
            TmuxCommand::AttachSession { target } => {
                r.push(owned("attach-session"));
                r.push(owned("-t"));
                r.push(target.clone());
            },
        }
        assert(r@.map_values(|a: String| a@) =~= command_args(self@));
        r
    }

    fn spawn_failure_prefix(&self) -> (r: &'static str)
        ensures
            r@ == spawn_failure_prefix(self@),
    {
        match self {
            TmuxCommand::ListSessions => "",
            TmuxCommand::NewSession { .. } => "Failed to create session: ",
            TmuxCommand::RenameSession { .. } => "Failed to rename session: ",
            TmuxCommand::KillSession { .. } => "Failed to kill session: ",
            TmuxCommand::SwitchClient { .. } => "Failed to attach session: ",
            TmuxCommand::AttachSession { .. } => "Failed to attach session: ",
        }
    }

    fn exit_failure_message(&self) -> (r: &'static str)
        ensures
            r@ == exit_failure_message(self@),
    {
        match self {
            TmuxCommand::ListSessions => "",
            TmuxCommand::NewSession { .. } => "Failed to create tmux session",
            TmuxCommand::RenameSession { .. } => "Failed to rename tmux session",
            TmuxCommand::KillSession { .. } => "Failed to kill tmux session",
            TmuxCommand::SwitchClient { .. } => "Failed to attach to tmux session",
            TmuxCommand::AttachSession { .. } => "Failed to attach to tmux session",
        }
    }

    /// The result of this command, given how running it went.
    pub fn outcome(&self, spawn: Spawn) -> (r: Result<(), String>)
        ensures
            result_view(r) == outcome_of(self@, spawn@),
    {
        if let TmuxCommand::ListSessions = self {
            return Ok(());
        }
        match spawn {
            Spawn::Exited { success } => {
                if success {
                    Ok(())
                } else {
                    Err(owned(self.exit_failure_message()))
                }
            },
            Spawn::Failed { reason } => {
                let mut msg = owned(self.spawn_failure_prefix());
                msg.append(reason.as_str());
                Err(msg)
            },
        }
    }

    /// The command to try next after this one ran: `attach-session` once
    /// `switch-client` has exited unsuccessfully (the manager is not running
    /// inside tmux); nothing in every other case.
    pub fn fallback(&self, spawn: &Spawn) -> (r: Option<TmuxCommand>)
        ensures
            command_view(r) == (match (self@, spawn@) {
                (CommandView::SwitchClient { target }, SpawnView::Exited { success: false }) => Some(
                    CommandView::AttachSession { target },
                ),
                _ => None,
            }),
    {
        match (self, spawn) {
            (TmuxCommand::SwitchClient { target }, Spawn::Exited { success: false }) => Some(
                TmuxCommand::AttachSession { target: target.clone() },
            ),
            _ => None,
        }
    }
}

/// The sessions that a run of `tmux list-sessions` reports: those its
/// output lists when it exited successfully, and none otherwise.
pub fn sessions_from_listing(spawn: &Spawn, output: &str) -> (r: Vec<TmuxSession>)
    ensures
        session_views(r@) == (match spawn@ {
            SpawnView::Exited { success: true } => sessions_of_output(output@),
            _ => Seq::empty(),
        }),
{
    match spawn {
        Spawn::Exited { success: true } => parse_session_list(output),
        _ => {
            let r: Vec<TmuxSession> = Vec::new();
            assert(session_views(r@) =~= Seq::empty());
            r
        },
    }
}

} // verus!

verus! {

/// The text shown after a session's name: its window count, with the plural
/// where the count is not one, and a mark when a client is attached.
pub open spec fn summary_text(s: SessionView) -> Seq<char> {
    " ["@ + decimal(s.windows as nat) + " window"@ + (if s.windows == 1 {
        ""@
    } else {
        "s"@
    }) + "]"@ + (if s.attached {
        " (attached)"@
    } else {
        ""@
    })
}

impl TmuxSession {
    /// The text shown after the session's name, such as ` [2 windows] (attached)`.
    pub fn summary(&self) -> (r: String)
        ensures
            r@ == summary_text(self@),
    {
        let mut r = owned(" [");
        push_decimal(&mut r, self.windows);
        r.append(" window");
        if self.windows != 1 {
            r.append("s");
        }
        r.append("]");
        if self.attached {
            r.append(" (attached)");
        }
        proof {
            reveal_strlit("");
        }
        assert(r@ =~= summary_text(self@));
        r
    }
}

} // verus!
