//! The per-shard streaming session: its payload and its minimal state
//! machine.
//!
//! A session is born disconnected, becomes connected on a successful
//! connect, and reaches a terminal state on the first failure; there is no
//! retry, backoff or reconnect — a failed session can only be replaced by a
//! brand-new one. The payload is materialized once: the shard's commands in
//! wire form joined by newlines, no trailing newline, retransmitted whole
//! until the first write failure. The transport that performs the connect
//! and send calls lives outside the library and feeds their outcomes back
//! as events.

use vstd::prelude::*;
use vstd::string::StringExecFns;

use crate::command::command_wire;
use crate::command::Command;

verus! {

/// Typed-state marker for a transport that holds no connection; `connect`
/// is its only move.
pub struct Disconnected;

/// Typed-state marker for a transport that holds a live connection; only
/// such a transport may send.
pub struct Connected;

/// The I/O failures a shard's session can surface.
#[derive(Copy, Clone, Eq, PartialEq, Structural, Debug)]
pub enum SessionError {
    /// The connection could not be established; no session is produced.
    ConnectFailed,
    /// A send did not complete; the session is over.
    WriteFailed,
}

/// Where a session stands.
#[derive(Copy, Clone, Eq, PartialEq, Structural, Debug)]
pub enum SessionPhase {
    /// Initial: no connection yet.
    Disconnected,
    /// Connected: sending the payload, over and over.
    Connected,
    /// Terminal: closed from outside.
    Closed,
    /// Terminal: a connect or send failed.
    Failed,
}

/// What the transport reports back.
#[derive(Copy, Clone, Eq, PartialEq, Structural, Debug)]
pub enum SessionEvent {
    ConnectSucceeded,
    ConnectFailed,
    SendSucceeded,
    SendFailed,
}

/// What the session should do next.
#[derive(Copy, Clone, Eq, PartialEq, Structural, Debug)]
pub enum SessionAction {
    /// Establish the connection.
    Connect,
    /// Send the payload once more.
    Send,
    /// The session is over; release the socket.
    Stop,
}

/// The transition function: connecting moves a disconnected session to
/// connected or failed; a send keeps a connected session connected or
/// fails it; terminal states absorb everything, and an event that does not
/// belong to the current phase changes nothing.
pub open spec fn spec_session_step(p: SessionPhase, e: SessionEvent) -> SessionPhase {
    match (p, e) {
        (SessionPhase::Disconnected, SessionEvent::ConnectSucceeded) => SessionPhase::Connected,
        (SessionPhase::Disconnected, SessionEvent::ConnectFailed) => SessionPhase::Failed,
        (SessionPhase::Connected, SessionEvent::SendSucceeded) => SessionPhase::Connected,
        (SessionPhase::Connected, SessionEvent::SendFailed) => SessionPhase::Failed,
        (q, _) => q,
    }
}

/// The next action of each phase: a disconnected session connects, a
/// connected one sends, a terminal one stops.
pub open spec fn spec_session_action(p: SessionPhase) -> SessionAction {
    match p {
        SessionPhase::Disconnected => SessionAction::Connect,
        SessionPhase::Connected => SessionAction::Send,
        SessionPhase::Closed => SessionAction::Stop,
        SessionPhase::Failed => SessionAction::Stop,
    }
}

/// The error a failure event surfaces: a failed connect is
/// `ConnectFailed`, a failed send is `WriteFailed`, success is no error.
pub open spec fn spec_session_failure(e: SessionEvent) -> Option<SessionError> {
    match e {
        SessionEvent::ConnectFailed => Some(SessionError::ConnectFailed),
        SessionEvent::SendFailed => Some(SessionError::WriteFailed),
        _ => None,
    }
}

/// Advance the session by one reported outcome.
pub fn session_step(p: SessionPhase, e: SessionEvent) -> (r: SessionPhase)
    ensures
        r == spec_session_step(p, e),
{
    match (p, e) {
        (SessionPhase::Disconnected, SessionEvent::ConnectSucceeded) => SessionPhase::Connected,
        (SessionPhase::Disconnected, SessionEvent::ConnectFailed) => SessionPhase::Failed,
        (SessionPhase::Connected, SessionEvent::SendSucceeded) => SessionPhase::Connected,
        (SessionPhase::Connected, SessionEvent::SendFailed) => SessionPhase::Failed,
        (q, _) => q,
    }
}

/// What to do in the given phase.
pub fn session_action(p: SessionPhase) -> (r: SessionAction)
    ensures
        r == spec_session_action(p),
{
    match p {
        SessionPhase::Disconnected => SessionAction::Connect,
        SessionPhase::Connected => SessionAction::Send,
        SessionPhase::Closed => SessionAction::Stop,
        SessionPhase::Failed => SessionAction::Stop,
    }
}

/// The error to surface for a reported outcome, if any.
pub fn session_failure(e: SessionEvent) -> (r: Option<SessionError>)
    ensures
        r == spec_session_failure(e),
{
    match e {
        SessionEvent::ConnectFailed => Some(SessionError::ConnectFailed),
        SessionEvent::SendFailed => Some(SessionError::WriteFailed),
        _ => None,
    }
}

/// A terminal session never comes back: no event leaves `Closed` or
/// `Failed`. Restarting communication takes a brand-new session.
pub proof fn lemma_terminal_absorbing(p: SessionPhase, e: SessionEvent)
    requires
        p is Closed || p is Failed,
    ensures
        spec_session_step(p, e) == p,
{
}

/// Only a connected session sends, and a session that failed to connect
/// never reaches the connected phase by that event.
pub proof fn lemma_send_needs_connection(p: SessionPhase, e: SessionEvent)
    ensures
        spec_session_action(p) is Send <==> p is Connected,
        p is Disconnected && e is ConnectFailed ==> !(spec_session_step(p, e) is Connected),
{
}

/// The shard payload: every command's wire form, joined by single
/// newlines, no trailing newline.
pub open spec fn spec_payload(commands: Seq<Command>) -> Seq<char>
    decreases commands.len(),
{
    if commands.len() == 0 {
        Seq::empty()
    } else if commands.len() == 1 {
        command_wire(commands[0])
    } else {
        spec_payload(commands.drop_last()) + seq!['\n'] + command_wire(commands.last())
    }
}

/// Materialize the payload of a command sequence: wire forms joined by
/// newlines, no trailing newline.
pub fn build_payload(commands: &Vec<Command>) -> (r: String)
    ensures
        r@ == spec_payload(commands@),
{
    let n = commands.len();
    let mut out = String::new();
    let mut i: usize = 0;
    while i < n
        invariant
            0 <= i <= n,
            n == commands@.len(),
            out@ == spec_payload(commands@.take(i as int)),
        decreases n - i,
    {
        proof {
            reveal_strlit("\n");
        }
        if i > 0 {
            out.append("\n");
        }
        let line = commands[i].wire_string();
        out.append(line.as_str());
        i = i + 1;
        proof {
            let t = commands@.take(i as int);
            assert(t.drop_last() =~= commands@.take(i - 1));
            assert(t.last() == commands@[i - 1]);
            if i > 1 {
                assert(out@ =~= spec_payload(t.drop_last()) + seq!['\n'] + command_wire(t.last()));
            } else {
                assert(out@ =~= command_wire(t[0]));
            }
        }
    }
    proof {
        assert(commands@.take(n as int) =~= commands@);
    }
    out
}

} // verus!
