use vstd::prelude::*;
use crate::command::{command_bytes, command_text, reply_text, Command};
use crate::stream::{ReadErrorKind, ReadOutcome, StreamState};

verus! {

/// The connector's side of one session. Commands are sent one at a time and
/// each waits for its reply, so that every message stays alone in the read that
/// receives it (messages carry no length or delimiter). After the last reply the
/// send direction is finished and the session reads until the listener finishes.
#[derive(Clone, Debug)]
pub struct ClientSession {
    pub commands: Vec<Command>,
    pub replies: Vec<Vec<u8>>,
    pub awaiting_reply: bool,
    pub stream: StreamState,
    pub failure: Option<ReadErrorKind>,
}

/// What the connector must do next.
#[derive(Clone, Debug, PartialEq, Eq)]
pub enum ClientAction {
    /// Write these bytes, then read the reply.
    Send(Vec<u8>),
    /// Read the reply to the command last sent.
    ReadReply,
    /// Finish the send direction.
    Finish,
    /// Read until the listener finishes its send direction.
    ReadEnd,
    /// The session is over.
    Done,
}

impl ClientSession {
    pub open spec fn wf(self) -> bool {
        &&& self.replies@.len() <= self.commands@.len()
        &&& self.awaiting_reply ==> self.replies@.len() < self.commands@.len()
        &&& self.awaiting_reply ==> self.stream.can_read()
        &&& self.stream.send_finished ==> !self.awaiting_reply
        &&& self.stream.send_finished ==> (self.replies@.len() == self.commands@.len()
            || self.stream.receive_ended)
    }

    /// The session has ended on a read error or a closed connection.
    pub open spec fn stopped(self) -> bool {
        self.stream.closed || self.failure is Some
    }

    /// A read is what the session waits for.
    pub open spec fn reading(self) -> bool {
        !self.stopped() && (self.awaiting_reply || (self.stream.send_finished
            && !self.stream.receive_ended))
    }

    /// Every command got its own reply, in order.
    pub open spec fn all_answered(self) -> bool {
        &&& self.replies@.len() == self.commands@.len()
        &&& forall|i: int| 0 <= i < self.commands@.len() ==> (#[trigger] self.replies@[i])@
            == reply_text(self.commands@[i])
    }

    /// A session that will send `commands` on a freshly opened stream.
    pub fn new(commands: Vec<Command>) -> (r: Self)
        ensures
            r.wf(),
            r.commands == commands,
            r.replies@.len() == 0,
            !r.awaiting_reply,
            r.stream == (StreamState { send_finished: false, receive_ended: false, closed: false }),
            r.failure is None,
    {
        ClientSession {
            commands,
            replies: Vec::new(),
            awaiting_reply: false,
            stream: StreamState::new(),
            failure: None,
        }
    }

    /// Decides the next step: send the next command once the previous one is
    /// answered, then finish, then read to the end; nothing more once stopped.
    pub fn next_action(&mut self) -> (r: ClientAction)
        requires
            old(self).wf(),
        ensures
            final(self).wf(),
            if old(self).stopped() {
                r is Done && *final(self) == *old(self)
            } else if old(self).awaiting_reply {
                r is ReadReply && *final(self) == *old(self)
            } else if old(self).stream.receive_ended {
                if !old(self).stream.send_finished {
                    r is Finish && *final(self) == (ClientSession {
                        stream: StreamState { send_finished: true, ..old(self).stream },
                        ..*old(self)
                    })
                } else {
                    r is Done && *final(self) == *old(self)
                }
            } else if old(self).replies@.len() < old(self).commands@.len() {
                &&& r matches ClientAction::Send(b) && b@ == command_text(
                    old(self).commands@[old(self).replies@.len() as int],
                )
                &&& *final(self) == (ClientSession { awaiting_reply: true, ..*old(self) })
            } else if !old(self).stream.send_finished {
                r is Finish && *final(self) == (ClientSession {
                    stream: StreamState { send_finished: true, ..old(self).stream },
                    ..*old(self)
                })
            } else {
                r is ReadEnd && *final(self) == *old(self)
            },
    {
        if self.stream.closed || self.failure.is_some() {
            ClientAction::Done
        } else if self.awaiting_reply {
            ClientAction::ReadReply
        } else if self.stream.receive_ended {
            if !self.stream.send_finished {
                self.stream.finish_send();
                ClientAction::Finish
            } else {
                ClientAction::Done
            }
        } else if self.replies.len() < self.commands.len() {
            let c = self.commands[self.replies.len()];
            self.awaiting_reply = true;
            ClientAction::Send(command_bytes(c))
        } else if !self.stream.send_finished {
            self.stream.finish_send();
            ClientAction::Finish
        } else {
            ClientAction::ReadEnd
        }
    }

    /// Takes the outcome of the read that the session waited for: data is the
    /// reply to the pending command (extra data at the end is dropped), end of
    /// stream ends the receive direction, a closed connection closes the
    /// stream, any other error is kept as the session's failure.
    pub fn on_read(&mut self, outcome: ReadOutcome)
        requires
            old(self).wf(),
            old(self).reading(),
        ensures
            final(self).wf(),
            final(self).commands == old(self).commands,
            match outcome {
                ReadOutcome::Data(b) => if old(self).awaiting_reply {
                    &&& final(self).replies@ == old(self).replies@.push(b)
                    &&& !final(self).awaiting_reply
                    &&& final(self).stream == old(self).stream
                    &&& final(self).failure == old(self).failure
                } else {
                    *final(self) == *old(self)
                },
                ReadOutcome::EndOfStream => *final(self) == (ClientSession {
                    awaiting_reply: false,
                    stream: StreamState { receive_ended: true, ..old(self).stream },
                    ..*old(self)
                }),
                ReadOutcome::Error(ReadErrorKind::ConnectionClosed) => *final(self) == (
                ClientSession {
                    awaiting_reply: false,
                    stream: StreamState { closed: true, ..old(self).stream },
                    ..*old(self)
                }),
                ReadOutcome::Error(k) => *final(self) == (ClientSession {
                    awaiting_reply: false,
                    failure: Some(k),
                    ..*old(self)
                }),
            },
    {
        match outcome {
            ReadOutcome::Data(b) => {
                if self.awaiting_reply {
                    self.replies.push(b);
                    self.awaiting_reply = false;
                }
            },
            ReadOutcome::EndOfStream => {
                self.awaiting_reply = false;
                self.stream.end_receive();
            },
            ReadOutcome::Error(ReadErrorKind::ConnectionClosed) => {
                self.awaiting_reply = false;
                self.stream.close();
            },
            ReadOutcome::Error(k) => {
                self.awaiting_reply = false;
                self.failure = Some(k);
            },
        }
    }

    /// Whether the session waits for a read.
    pub fn is_reading(&self) -> (r: bool)
        ensures
            r == self.reading(),
    {
        !(self.stream.closed || self.failure.is_some()) && (self.awaiting_reply || (
        self.stream.send_finished && !self.stream.receive_ended))
    }

    /// Whether every command got exactly its reply.
    pub fn replies_match(&self) -> (r: bool)
        ensures
            r == self.all_answered(),
    {
        if self.replies.len() != self.commands.len() {
            return false;
        }
        let mut i: usize = 0;
        while i < self.commands.len()
            invariant
                self.replies@.len() == self.commands@.len(),
                i <= self.commands@.len(),
                forall|j: int| 0 <= j < i ==> (#[trigger] self.replies@[j])@ == reply_text(
                    self.commands@[j],
                ),
            decreases self.commands@.len() - i,
        {
            let expected = crate::command::reply_bytes(self.commands[i]);
            if !bytes_equal(self.replies[i].as_slice(), expected.as_slice()) {
                return false;
            }
            i += 1;
        }
        true
    }
}

/// Byte-wise equality of two messages.
pub fn bytes_equal(a: &[u8], b: &[u8]) -> (r: bool)
    ensures
        r == (a@ == b@),
{
    if a.len() != b.len() {
        return false;
    }
    let mut i: usize = 0;
    while i < a.len()
        invariant
            a@.len() == b@.len(),
            i <= a@.len(),
            forall|j: int| 0 <= j < i ==> a@[j] == b@[j],
        decreases a@.len() - i,
    {
        if a[i] != b[i] {
            return false;
        }
        i += 1;
    }
    assert(a@ =~= b@);
    true
}

} // verus!
