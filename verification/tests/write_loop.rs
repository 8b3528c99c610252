use ircd_proto::builder::{error, notice, pong, privmsg, raw_msg};
use ircd_proto::message::WireMessage;
use ircd_proto::write_loop::{write_step, WriteAction, WriteEvent, WriteState};

type Step = Option<(WriteState, WriteAction<String>)>;

/// What a run of the loop did to a transport.
#[derive(Debug, PartialEq)]
struct Outcome {
    sent: Vec<WireMessage>,
    closed: bool,
    result: Result<(), String>,
}

/// Runs the loop over a queue that holds `queue` and is then closed, on a
/// transport that fails its write number `fail_at`, counted from 0.
fn drain(queue: Vec<WireMessage>, fail_at: Option<usize>) -> Outcome {
    let mut queue = queue.into_iter();
    let mut sent = Vec::new();
    let mut closed = false;
    let mut state = WriteState::Draining;
    let mut action = WriteAction::Receive;
    loop {
        let event = match action {
            WriteAction::Receive => match queue.next() {
                Some(message) => WriteEvent::Received(message),
                None => WriteEvent::QueueClosed,
            },
            WriteAction::Send(message) => {
                assert!(!closed);
                if fail_at == Some(sent.len()) {
                    WriteEvent::SendFailed("broken pipe".to_string())
                } else {
                    sent.push(message);
                    WriteEvent::Sent
                }
            }
            WriteAction::Close => {
                closed = true;
                WriteEvent::Closed
            }
            WriteAction::Finish(result) => return Outcome { sent, closed, result },
        };
        let (next, then) = write_step(state, event).unwrap();
        state = next;
        action = then;
    }
}

#[test]
fn error_is_sent_then_the_connection_is_closed() {
    let next: Step = write_step(WriteState::Draining, WriteEvent::Received(error("bye")));
    assert_eq!(next, Some((WriteState::Sending { last: true }, WriteAction::Send(error("bye")))));
    let next: Step = write_step(WriteState::Sending { last: true }, WriteEvent::Sent);
    assert_eq!(next, Some((WriteState::Closing, WriteAction::Close)));
    let next: Step = write_step(WriteState::Closing, WriteEvent::Closed);
    assert_eq!(next, Some((WriteState::Stopped, WriteAction::Finish(Ok(())))));
}

#[test]
fn nothing_is_sent_after_error() {
    let queue = vec![
        privmsg("alice", "#room", "hi"),
        error("bye"),
        privmsg("alice", "#room", "too late"),
        pong("abc".to_string(), None),
    ];
    assert_eq!(
        drain(queue, None),
        Outcome {
            sent: vec![privmsg("alice", "#room", "hi"), error("bye")],
            closed: true,
            result: Ok(()),
        }
    );
}

#[test]
fn other_messages_are_sent_in_order() {
    let queue = vec![
        raw_msg("one"),
        notice("alice", "#room", "two"),
        pong("three".to_string(), None),
        privmsg("bob", "me", "four"),
    ];
    assert_eq!(
        drain(queue.clone(), None),
        Outcome { sent: queue, closed: false, result: Ok(()) }
    );
}

#[test]
fn closed_queue_ends_the_loop_without_closing() {
    let next: Step = write_step(WriteState::Draining, WriteEvent::QueueClosed);
    assert_eq!(next, Some((WriteState::Stopped, WriteAction::Finish(Ok(())))));
    assert_eq!(drain(vec![], None), Outcome { sent: vec![], closed: false, result: Ok(()) });
}

#[test]
fn failed_write_ends_the_loop_with_the_failure() {
    let next: Step = write_step(
        WriteState::Sending { last: false },
        WriteEvent::SendFailed("broken pipe".to_string()),
    );
    assert_eq!(
        next,
        Some((WriteState::Stopped, WriteAction::Finish(Err("broken pipe".to_string()))))
    );
    let queue = vec![raw_msg("one"), raw_msg("two"), raw_msg("three")];
    assert_eq!(
        drain(queue, Some(1)),
        Outcome {
            sent: vec![raw_msg("one")],
            closed: false,
            result: Err("broken pipe".to_string()),
        }
    );
}

#[test]
fn failed_write_of_error_does_not_close() {
    let queue = vec![error("bye"), raw_msg("late")];
    assert_eq!(
        drain(queue, Some(0)),
        Outcome { sent: vec![], closed: false, result: Err("broken pipe".to_string()) }
    );
}

#[test]
fn failed_close_ends_the_loop_with_the_failure() {
    let next: Step = write_step(
        WriteState::Closing,
        WriteEvent::CloseFailed("already gone".to_string()),
    );
    assert_eq!(
        next,
        Some((WriteState::Stopped, WriteAction::Finish(Err("already gone".to_string()))))
    );
}

#[test]
fn sent_message_lets_the_loop_drain_on() {
    let next: Step = write_step(WriteState::Draining, WriteEvent::Received(raw_msg("x")));
    assert_eq!(next, Some((WriteState::Sending { last: false }, WriteAction::Send(raw_msg("x")))));
    let next: Step = write_step(WriteState::Sending { last: false }, WriteEvent::Sent);
    assert_eq!(next, Some((WriteState::Draining, WriteAction::Receive)));
}

#[test]
fn write_events_that_answer_nothing_are_refused() {
    let next: Step = write_step(WriteState::Draining, WriteEvent::Sent);
    assert_eq!(next, None);
    let next: Step = write_step(
        WriteState::Sending { last: true },
        WriteEvent::Received(raw_msg("x")),
    );
    assert_eq!(next, None);
    let next: Step = write_step(WriteState::Closing, WriteEvent::Received(raw_msg("x")));
    assert_eq!(next, None);
    let next: Step = write_step(WriteState::Closing, WriteEvent::Sent);
    assert_eq!(next, None);
    let next: Step = write_step(WriteState::Stopped, WriteEvent::Received(raw_msg("x")));
    assert_eq!(next, None);
    let next: Step = write_step(WriteState::Stopped, WriteEvent::QueueClosed);
    assert_eq!(next, None);
}
