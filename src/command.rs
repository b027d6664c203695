use vstd::prelude::*;

verus! {

/// A command of the fixed vocabulary that the session understands.
#[derive(Clone, Copy, Debug, PartialEq, Eq, Structural)]
pub enum Command {
    Ping,
    Marco,
}

/// The bytes of `ping` on the wire.
pub open spec fn ping_text() -> Seq<u8> {
    seq![112u8, 105u8, 110u8, 103u8]
}

/// The bytes of `marco` on the wire.
pub open spec fn marco_text() -> Seq<u8> {
    seq![109u8, 97u8, 114u8, 99u8, 111u8]
}

/// The bytes of `pong` on the wire.
pub open spec fn pong_text() -> Seq<u8> {
    seq![112u8, 111u8, 110u8, 103u8]
}

/// The bytes of `polo` on the wire.
pub open spec fn polo_text() -> Seq<u8> {
    seq![112u8, 111u8, 108u8, 111u8]
}

/// What a command looks like on the wire.
pub open spec fn command_text(c: Command) -> Seq<u8> {
    match c {
        Command::Ping => ping_text(),
        Command::Marco => marco_text(),
    }
}

/// The reply that a command receives.
pub open spec fn reply_text(c: Command) -> Seq<u8> {
    match c {
        Command::Ping => pong_text(),
        Command::Marco => polo_text(),
    }
}

/// Exact, case-sensitive match of one received message against the vocabulary.
pub open spec fn classify_spec(b: Seq<u8>) -> Option<Command> {
    if b == ping_text() {
        Some(Command::Ping)
    } else if b == marco_text() {
        Some(Command::Marco)
    } else {
        None
    }
}

/// Interprets one received message: `Some` command for `ping` or `marco`
/// exactly, `None` for anything else.
pub fn classify(bytes: &[u8]) -> (r: Option<Command>)
    ensures
        r == classify_spec(bytes@),
{
    let n = bytes.len();
    if n == 4 && bytes[0] == 112u8 && bytes[1] == 105u8 && bytes[2] == 110u8 && bytes[3] == 103u8 {
        assert(bytes@ =~= ping_text());
        Some(Command::Ping)
    } else if n == 5 && bytes[0] == 109u8 && bytes[1] == 97u8 && bytes[2] == 114u8
        && bytes[3] == 99u8 && bytes[4] == 111u8 {
        assert(bytes@ =~= marco_text());
        Some(Command::Marco)
    } else {
        proof {
            if bytes@ == ping_text() {
                assert(bytes@[1] == 105u8 && bytes@[2] == 110u8);
            }
            if bytes@ == marco_text() {
                assert(bytes@[1] == 97u8 && bytes@[2] == 114u8);
            }
        }
        None
    }
}

/// The bytes that send a command.
pub fn command_bytes(c: Command) -> (r: Vec<u8>)
    ensures
        r@ == command_text(c),
{
    let r = match c {
        Command::Ping => vec![112u8, 105u8, 110u8, 103u8],
        Command::Marco => vec![109u8, 97u8, 114u8, 99u8, 111u8],
    };
    assert(r@ =~= command_text(c));
    r
}

/// The bytes of the reply to a command.
pub fn reply_bytes(c: Command) -> (r: Vec<u8>)
    ensures
        r@ == reply_text(c),
{
    let r = match c {
        Command::Ping => vec![112u8, 111u8, 110u8, 103u8],
        Command::Marco => vec![112u8, 111u8, 108u8, 111u8],
    };
    assert(r@ =~= reply_text(c));
    r
}

} // verus!
