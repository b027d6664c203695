use quinn_networking::client::{bytes_equal, ClientAction, ClientSession};
use quinn_networking::command::{classify, command_bytes, reply_bytes, Command};
use quinn_networking::server::{ServerAction, ServerSession, SessionPhase};
use quinn_networking::stream::{ReadErrorKind, ReadOutcome, StreamState};

#[test]
fn classify_known_commands() {
    assert_eq!(classify(b"ping"), Some(Command::Ping));
    assert_eq!(classify(b"marco"), Some(Command::Marco));
}

#[test]
fn classify_is_exact_and_case_sensitive() {
    assert_eq!(classify(b"foo"), None);
    assert_eq!(classify(b""), None);
    assert_eq!(classify(b"Ping"), None);
    assert_eq!(classify(b"ping\n"), None);
    assert_eq!(classify(b" ping"), None);
    assert_eq!(classify(b"pingmarco"), None);
    assert_eq!(classify(b"marc"), None);
    assert_eq!(classify(b"pong"), None);
}

#[test]
fn wire_texts() {
    assert_eq!(command_bytes(Command::Ping), b"ping".to_vec());
    assert_eq!(command_bytes(Command::Marco), b"marco".to_vec());
    assert_eq!(reply_bytes(Command::Ping), b"pong".to_vec());
    assert_eq!(reply_bytes(Command::Marco), b"polo".to_vec());
}

#[test]
fn ping_yields_pong() {
    let mut s = ServerSession::new();
    let a = s.step(ReadOutcome::Data(b"ping".to_vec()));
    assert_eq!(a, ServerAction::Reply(b"pong".to_vec()));
    assert!(s.running());
}

#[test]
fn marco_yields_polo() {
    let mut s = ServerSession::new();
    let a = s.step(ReadOutcome::Data(b"marco".to_vec()));
    assert_eq!(a, ServerAction::Reply(b"polo".to_vec()));
    assert!(s.running());
}

#[test]
fn unrecognized_gets_no_reply_and_loop_continues() {
    let mut s = ServerSession::new();
    let a = s.step(ReadOutcome::Data(b"foo".to_vec()));
    assert_eq!(a, ServerAction::Ignore(b"foo".to_vec()));
    assert!(s.running());
    let b = s.step(ReadOutcome::Data(b"ping".to_vec()));
    assert_eq!(b, ServerAction::Reply(b"pong".to_vec()));
}

#[test]
fn end_of_stream_finishes_send() {
    let mut s = ServerSession::new();
    assert_eq!(s.step(ReadOutcome::EndOfStream), ServerAction::Finish);
    assert!(!s.running());
    assert_eq!(s.phase, SessionPhase::Finished);
    assert!(s.stream.send_finished && s.stream.receive_ended);
}

#[test]
fn connection_closed_is_clean_stop() {
    let mut s = ServerSession::new();
    let a = s.step(ReadOutcome::Error(ReadErrorKind::ConnectionClosed));
    assert_eq!(a, ServerAction::Stop);
    assert_eq!(s.phase, SessionPhase::Closed);
    assert!(s.stream.closed);
}

#[test]
fn other_read_errors_fail() {
    let mut s = ServerSession::new();
    let a = s.step(ReadOutcome::Error(ReadErrorKind::Reset));
    assert_eq!(a, ServerAction::Fail(ReadErrorKind::Reset));
    assert_eq!(s.phase, SessionPhase::Failed(ReadErrorKind::Reset));
    let mut t = ServerSession::new();
    let b = t.step(ReadOutcome::Error(ReadErrorKind::Transport));
    assert_eq!(b, ServerAction::Fail(ReadErrorKind::Transport));
    assert!(!t.running());
}

#[test]
fn stream_state_transitions() {
    let mut st = StreamState::new();
    assert!(st.may_write() && st.may_read());
    st.finish_send();
    assert!(!st.may_write() && st.may_read());
    st.end_receive();
    assert!(!st.may_read());
    let mut c = StreamState::new();
    c.close();
    assert!(!c.may_write() && !c.may_read());
}

#[test]
fn bytes_equal_cases() {
    assert!(bytes_equal(b"pong", b"pong"));
    assert!(!bytes_equal(b"pong", b"polo"));
    assert!(!bytes_equal(b"pong", b"pon"));
    assert!(bytes_equal(b"", b""));
}

/// Runs a client session against a server session, carrying each write whole
/// into the next read of the other side.
fn run_in_memory(commands: Vec<Command>) -> (ClientSession, ServerSession, Vec<ServerAction>) {
    let mut client = ClientSession::new(commands);
    let mut server = ServerSession::new();
    let mut to_server: Vec<ReadOutcome> = Vec::new();
    let mut to_client: Vec<ReadOutcome> = Vec::new();
    let mut actions = Vec::new();
    for _ in 0..100 {
        while server.running() && !to_server.is_empty() {
            let a = server.step(to_server.remove(0));
            match &a {
                ServerAction::Reply(b) => to_client.push(ReadOutcome::Data(b.clone())),
                ServerAction::Finish => to_client.push(ReadOutcome::EndOfStream),
                _ => {}
            }
            actions.push(a);
        }
        match client.next_action() {
            ClientAction::Send(b) => to_server.push(ReadOutcome::Data(b)),
            ClientAction::Finish => to_server.push(ReadOutcome::EndOfStream),
            ClientAction::ReadReply | ClientAction::ReadEnd => {
                if !to_client.is_empty() {
                    assert!(client.is_reading());
                    client.on_read(to_client.remove(0));
                }
            }
            ClientAction::Done => break,
        }
    }
    (client, server, actions)
}

#[test]
fn ping_marco_session_in_memory() {
    let (client, server, actions) = run_in_memory(vec![Command::Ping, Command::Marco]);
    assert_eq!(client.replies, vec![b"pong".to_vec(), b"polo".to_vec()]);
    assert!(client.replies_match());
    assert!(client.stream.send_finished && client.stream.receive_ended);
    assert_eq!(server.phase, SessionPhase::Finished);
    assert_eq!(
        actions,
        vec![
            ServerAction::Reply(b"pong".to_vec()),
            ServerAction::Reply(b"polo".to_vec()),
            ServerAction::Finish,
        ]
    );
}

#[test]
fn empty_session_just_finishes() {
    let (client, server, actions) = run_in_memory(Vec::new());
    assert!(client.replies.is_empty());
    assert!(client.replies_match());
    assert_eq!(server.phase, SessionPhase::Finished);
    assert_eq!(actions, vec![ServerAction::Finish]);
}

#[test]
fn client_sends_one_command_at_a_time() {
    let mut c = ClientSession::new(vec![Command::Ping, Command::Marco]);
    assert_eq!(c.next_action(), ClientAction::Send(b"ping".to_vec()));
    assert_eq!(c.next_action(), ClientAction::ReadReply);
    c.on_read(ReadOutcome::Data(b"pong".to_vec()));
    assert_eq!(c.next_action(), ClientAction::Send(b"marco".to_vec()));
    c.on_read(ReadOutcome::Data(b"polo".to_vec()));
    assert_eq!(c.next_action(), ClientAction::Finish);
    assert_eq!(c.next_action(), ClientAction::ReadEnd);
    c.on_read(ReadOutcome::EndOfStream);
    assert_eq!(c.next_action(), ClientAction::Done);
    assert!(c.replies_match());
}

#[test]
fn client_detects_wrong_reply() {
    let mut c = ClientSession::new(vec![Command::Ping]);
    assert_eq!(c.next_action(), ClientAction::Send(b"ping".to_vec()));
    c.on_read(ReadOutcome::Data(b"polo".to_vec()));
    assert!(!c.replies_match());
}

#[test]
fn client_stops_on_closed_connection() {
    let mut c = ClientSession::new(vec![Command::Ping]);
    c.next_action();
    c.on_read(ReadOutcome::Error(ReadErrorKind::ConnectionClosed));
    assert!(c.stream.closed);
    assert_eq!(c.failure, None);
    assert_eq!(c.next_action(), ClientAction::Done);
    assert!(!c.replies_match());
}

#[test]
fn client_keeps_read_failure() {
    let mut c = ClientSession::new(vec![Command::Ping]);
    c.next_action();
    c.on_read(ReadOutcome::Error(ReadErrorKind::Reset));
    assert_eq!(c.failure, Some(ReadErrorKind::Reset));
    assert_eq!(c.next_action(), ClientAction::Done);
}

#[test]
fn client_finishes_when_listener_ends_early() {
    let mut c = ClientSession::new(vec![Command::Ping, Command::Marco]);
    c.next_action();
    c.on_read(ReadOutcome::EndOfStream);
    assert_eq!(c.next_action(), ClientAction::Finish);
    assert_eq!(c.next_action(), ClientAction::Done);
    assert!(!c.replies_match());
}

#[test]
fn failed_write_ends_session_as_failure() {
    let mut s = ServerSession::new();
    let a = s.step(ReadOutcome::Data(b"ping".to_vec()));
    assert_eq!(a, ServerAction::Reply(b"pong".to_vec()));
    s.on_write_failed();
    assert!(!s.running());
    assert_eq!(s.phase, SessionPhase::WriteFailed);
}
