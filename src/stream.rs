use vstd::prelude::*;

verus! {

/// Lifecycle of one bidirectional stream as seen by the task that owns it:
/// the send direction may be finished once, the receive direction ends when
/// the peer finishes, and the whole stream ends with its connection.
#[derive(Clone, Copy, Debug, PartialEq, Eq, Structural)]
pub struct StreamState {
    pub send_finished: bool,
    pub receive_ended: bool,
    pub closed: bool,
}

/// Why a read on a receive direction failed.
#[derive(Clone, Copy, Debug, PartialEq, Eq, Structural)]
pub enum ReadErrorKind {
    /// The connection was closed; a clean end of the session.
    ConnectionClosed,
    /// The peer abandoned its send direction.
    Reset,
    /// Any other transport failure.
    Transport,
}

/// What one read on a receive direction produced.
#[derive(Clone, Debug, PartialEq, Eq)]
pub enum ReadOutcome {
    /// The bytes that one read placed in the buffer.
    Data(Vec<u8>),
    /// The peer finished its send direction; nothing more will arrive.
    EndOfStream,
    /// The read failed.
    Error(ReadErrorKind),
}

impl StreamState {
    /// Bytes may still be written.
    pub open spec fn can_write(self) -> bool {
        !self.send_finished && !self.closed
    }

    /// Reads may still produce data.
    pub open spec fn can_read(self) -> bool {
        !self.receive_ended && !self.closed
    }

    /// A freshly opened or accepted stream.
    pub fn new() -> (r: Self)
        ensures
            r.can_write(),
            r.can_read(),
            !r.send_finished && !r.receive_ended && !r.closed,
    {
        StreamState { send_finished: false, receive_ended: false, closed: false }
    }

    pub fn may_write(&self) -> (r: bool)
        ensures
            r == self.can_write(),
    {
        !self.send_finished && !self.closed
    }

    pub fn may_read(&self) -> (r: bool)
        ensures
            r == self.can_read(),
    {
        !self.receive_ended && !self.closed
    }

    /// Records the half-close of the send direction; allowed once only.
    pub fn finish_send(&mut self)
        requires
            old(self).can_write(),
        ensures
            *final(self) == (StreamState { send_finished: true, ..*old(self) }),
    {
        self.send_finished = true;
    }

    /// Records that the peer finished its send direction.
    pub fn end_receive(&mut self)
        ensures
            *final(self) == (StreamState { receive_ended: true, ..*old(self) }),
    {
        self.receive_ended = true;
    }

    /// Records that the connection carrying the stream is gone.
    pub fn close(&mut self)
        ensures
            *final(self) == (StreamState { closed: true, ..*old(self) }),
    {
        self.closed = true;
    }
}

} // verus!
