use vstd::prelude::*;
use crate::command::{classify, reply_bytes, classify_spec, reply_text, command_text, Command};
use crate::stream::{ReadErrorKind, ReadOutcome, StreamState};

verus! {

/// Where the listener's read/dispatch loop stands.
#[derive(Clone, Copy, Debug, PartialEq, Eq, Structural)]
pub enum SessionPhase {
    /// Reading and answering messages.
    Running,
    /// The peer finished its send direction and ours was finished in turn.
    Finished,
    /// The connection was closed; a clean end.
    Closed,
    /// A read failed for another reason.
    Failed(ReadErrorKind),
    /// Writing a reply failed.
    WriteFailed,
}

/// The listener's side of one session: the state of its stream and of its loop.
#[derive(Clone, Copy, Debug, PartialEq, Eq, Structural)]
pub struct ServerSession {
    pub stream: StreamState,
    pub phase: SessionPhase,
}

/// What the loop must do after one read.
#[derive(Clone, Debug, PartialEq, Eq)]
pub enum ServerAction {
    /// Write these bytes on the send direction and read again.
    Reply(Vec<u8>),
    /// The message was not recognised: send nothing and read again.
    Ignore(Vec<u8>),
    /// Finish the send direction; the session is over.
    Finish,
    /// The connection was closed by the peer; stop without error.
    Stop,
    /// Stop and report the failure.
    Fail(ReadErrorKind),
}

/// The reply owed to one received message, if any.
pub open spec fn response_to(msg: Seq<u8>) -> Option<Seq<u8>> {
    match classify_spec(msg) {
        Some(c) => Some(reply_text(c)),
        None => None,
    }
}

/// The session after one read outcome, from a running session.
pub open spec fn server_next(s: ServerSession, e: ReadOutcome) -> ServerSession {
    match e {
        ReadOutcome::Data(_) => s,
        ReadOutcome::EndOfStream => ServerSession {
            stream: StreamState { send_finished: true, receive_ended: true, ..s.stream },
            phase: SessionPhase::Finished,
        },
        ReadOutcome::Error(ReadErrorKind::ConnectionClosed) => ServerSession {
            stream: StreamState { closed: true, ..s.stream },
            phase: SessionPhase::Closed,
        },
        ReadOutcome::Error(k) => ServerSession { phase: SessionPhase::Failed(k), ..s },
    }
}

/// The action that one read outcome calls for.
pub open spec fn server_action_ok(e: ReadOutcome, a: ServerAction) -> bool {
    match e {
        ReadOutcome::Data(b) => match response_to(b@) {
            Some(out) => a matches ServerAction::Reply(o) && o@ == out,
            None => a matches ServerAction::Ignore(m) && m@ == b@,
        },
        ReadOutcome::EndOfStream => a is Finish,
        ReadOutcome::Error(ReadErrorKind::ConnectionClosed) => a is Stop,
        ReadOutcome::Error(k) => a == ServerAction::Fail(k),
    }
}

impl ServerSession {
    /// The loop's state agrees with its stream: a running loop may read and write,
    /// a finished one has finished both directions, a closed one has lost its connection.
    pub open spec fn wf(self) -> bool {
        match self.phase {
            SessionPhase::Running => self.stream.can_write() && self.stream.can_read(),
            SessionPhase::Finished => self.stream.send_finished && self.stream.receive_ended,
            SessionPhase::Closed => self.stream.closed,
            SessionPhase::Failed(k) => k != ReadErrorKind::ConnectionClosed,
            SessionPhase::WriteFailed => true,
        }
    }

    pub open spec fn is_running(self) -> bool {
        self.phase == SessionPhase::Running
    }

    /// A session on a freshly accepted stream.
    pub fn new() -> (r: Self)
        ensures
            r.wf(),
            r.is_running(),
            r.stream == (StreamState { send_finished: false, receive_ended: false, closed: false }),
    {
        ServerSession { stream: StreamState::new(), phase: SessionPhase::Running }
    }

    /// Whether the loop should read again.
    pub fn running(&self) -> (r: bool)
        ensures
            r == self.is_running(),
    {
        match self.phase {
            SessionPhase::Running => true,
            _ => false,
        }
    }

    /// Records that writing a reply failed: the stream is unusable, so the
    /// session ends, as a failure and not as a clean close.
    pub fn on_write_failed(&mut self)
        requires
            old(self).wf(),
            old(self).is_running(),
        ensures
            final(self).wf(),
            *final(self) == (ServerSession { phase: SessionPhase::WriteFailed, ..*old(self) }),
    {
        self.phase = SessionPhase::WriteFailed;
    }

    /// Takes one read outcome and says what to do: reply to a known command,
    /// ignore anything else, finish on end of stream, stop cleanly when the
    /// connection closed, fail on any other read error.
    pub fn step(&mut self, event: ReadOutcome) -> (r: ServerAction)
        requires
            old(self).wf(),
            old(self).is_running(),
        ensures
            final(self).wf(),
            *final(self) == server_next(*old(self), event),
            server_action_ok(event, r),
    {
        match event {
            ReadOutcome::Data(bytes) => {
                match classify(bytes.as_slice()) {
                    Some(c) => ServerAction::Reply(reply_bytes(c)),
                    None => ServerAction::Ignore(bytes),
                }
            },
            ReadOutcome::EndOfStream => {
                self.stream.end_receive();
                self.stream.finish_send();
                self.phase = SessionPhase::Finished;
                ServerAction::Finish
            },
            ReadOutcome::Error(ReadErrorKind::ConnectionClosed) => {
                self.stream.close();
                self.phase = SessionPhase::Closed;
                ServerAction::Stop
            },
            ReadOutcome::Error(k) => {
                self.phase = SessionPhase::Failed(k);
                ServerAction::Fail(k)
            },
        }
    }
}

/// Every command of the vocabulary is answered with its own reply, and with
/// nothing else: `ping` with `pong`, `marco` with `polo`; the session keeps running.
pub proof fn lemma_command_round_trip(s: ServerSession, e: ReadOutcome, c: Command)
    requires
        s.wf(),
        s.is_running(),
        e matches ReadOutcome::Data(b) && b@ == command_text(c),
    ensures
        response_to(command_text(c)) == Some(reply_text(c)),
        c == Command::Ping ==> response_to(command_text(c)) == Some(crate::command::pong_text()),
        c == Command::Marco ==> response_to(command_text(c)) == Some(crate::command::polo_text()),
        server_next(s, e) == s,
        server_next(s, e).is_running(),
{
    assert(crate::command::ping_text() != crate::command::marco_text()) by {
        assert(crate::command::ping_text().len() != crate::command::marco_text().len());
    }
}

/// The bytes that an action writes on the send direction.
pub open spec fn action_output(a: ServerAction) -> Seq<u8> {
    match a {
        ServerAction::Reply(o) => o@,
        _ => Seq::empty(),
    }
}

/// The bytes that a sequence of actions writes, in order.
pub open spec fn outputs(actions: Seq<ServerAction>) -> Seq<u8>
    decreases actions.len(),
{
    if actions.len() == 0 {
        Seq::empty()
    } else {
        outputs(actions.drop_last()) + action_output(actions.last())
    }
}

/// The replies owed to a sequence of commands, concatenated in order.
pub open spec fn replies_of(cmds: Seq<Command>) -> Seq<u8>
    decreases cmds.len(),
{
    if cmds.len() == 0 {
        Seq::empty()
    } else {
        replies_of(cmds.drop_last()) + reply_text(cmds.last())
    }
}

/// When each read holds one whole command, a running session stays running and
/// the steps write exactly the commands' replies, one each, in command order:
/// nothing dropped, duplicated or interleaved.
pub proof fn lemma_replies_in_order(
    s: ServerSession,
    cmds: Seq<Command>,
    events: Seq<ReadOutcome>,
    actions: Seq<ServerAction>,
)
    requires
        s.wf(),
        s.is_running(),
        events.len() == cmds.len(),
        actions.len() == cmds.len(),
        forall|i: int|
            0 <= i < cmds.len() ==> (#[trigger] events[i] matches ReadOutcome::Data(b) && b@
                == command_text(cmds[i])),
        forall|i: int| 0 <= i < cmds.len() ==> server_action_ok(#[trigger] events[i], actions[i]),
    ensures
        outputs(actions) == replies_of(cmds),
        forall|i: int| 0 <= i < cmds.len() ==> server_next(s, #[trigger] events[i]) == s,
    decreases cmds.len(),
{
    if cmds.len() > 0 {
        let n = cmds.len() - 1;
        assert forall|i: int| 0 <= i < n implies (#[trigger] events.drop_last()[i] matches ReadOutcome::Data(b)
            && b@ == command_text(cmds.drop_last()[i])) by {
            assert(events.drop_last()[i] == events[i]);
        }
        assert forall|i: int| 0 <= i < n implies server_action_ok(
            #[trigger] events.drop_last()[i],
            actions.drop_last()[i],
        ) by {
            assert(events.drop_last()[i] == events[i]);
        }
        lemma_replies_in_order(s, cmds.drop_last(), events.drop_last(), actions.drop_last());
        lemma_command_round_trip(s, events[n], cmds[n]);
        assert(server_action_ok(events[n], actions[n]));
        assert(action_output(actions.last()) == reply_text(cmds.last()));
    }
}

/// A message outside the vocabulary gets no reply and leaves the session running.
pub proof fn lemma_unrecognized_ignored(s: ServerSession, e: ReadOutcome)
    requires
        s.wf(),
        s.is_running(),
        e matches ReadOutcome::Data(b) && classify_spec(b@) is None,
    ensures
        e matches ReadOutcome::Data(b) && response_to(b@) is None,
        server_next(s, e).is_running(),
        server_next(s, e).stream.can_write(),
{
}

/// The peer's finish ends a running session normally, never as a failure: the
/// receive direction is over and the session finishes its own send direction.
pub proof fn lemma_end_of_stream_finishes(s: ServerSession)
    requires
        s.wf(),
        s.is_running(),
    ensures
        server_next(s, ReadOutcome::EndOfStream).phase == SessionPhase::Finished,
        server_next(s, ReadOutcome::EndOfStream).stream.send_finished,
        server_next(s, ReadOutcome::EndOfStream).stream.receive_ended,
        server_next(s, ReadOutcome::EndOfStream).wf(),
        server_action_ok(ReadOutcome::EndOfStream, ServerAction::Finish),
{
}

/// A closed connection ends a running session cleanly: it is never reported as a failure.
pub proof fn lemma_close_is_clean(s: ServerSession)
    requires
        s.wf(),
        s.is_running(),
    ensures
        server_next(s, ReadOutcome::Error(ReadErrorKind::ConnectionClosed)).phase
            == SessionPhase::Closed,
        server_action_ok(ReadOutcome::Error(ReadErrorKind::ConnectionClosed), ServerAction::Stop),
{
}

} // verus!
