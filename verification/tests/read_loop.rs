use ircd_proto::builder::{notice, pong, privmsg};
use ircd_proto::message::{WireCommand, WireMessage, WirePrefix};
use ircd_proto::read_loop::{
    read_step, receive, MatrixMessageType, ReadAction, ReadEvent, ReadState,
};

type Step = Option<(ReadState, ReadAction<String>)>;

fn inbound(command: WireCommand) -> WireMessage {
    WireMessage { prefix: None, command }
}

fn inbound_from(nickname: &str, command: WireCommand) -> WireMessage {
    WireMessage {
        prefix: Some(WirePrefix {
            nickname: nickname.to_string(),
            user: "user".to_string(),
            host: "example.org".to_string(),
        }),
        command,
    }
}

fn chat(target: &str, text: &str) -> WireCommand {
    WireCommand::PrivateMessage(target.to_string(), text.to_string())
}

fn forward(target: &str, kind: MatrixMessageType, text: &str) -> ReadAction<String> {
    ReadAction::Forward { target: target.to_string(), kind, text: text.to_string() }
}

fn forwarding(reply_to: &str) -> ReadState {
    ReadState::Forwarding { reply_to: reply_to.to_string() }
}

fn listen_again() -> Step {
    Some((ReadState::Listening, ReadAction::Receive))
}

#[test]
fn action_is_forwarded_as_emote_without_marker() {
    let next: Step = read_step(
        "me",
        ReadState::Listening,
        ReadEvent::Received(inbound(chat("#room", "\u{1}ACTION waves"))),
    );
    assert_eq!(
        next,
        Some((forwarding("#room"), forward("#room", MatrixMessageType::Emote, "waves")))
    );
}

#[test]
fn plain_text_is_forwarded_unchanged() {
    let next: Step = read_step(
        "me",
        ReadState::Listening,
        ReadEvent::Received(inbound(chat("#room", "hello"))),
    );
    assert_eq!(
        next,
        Some((forwarding("#room"), forward("#room", MatrixMessageType::Text, "hello")))
    );
}

#[test]
fn notice_is_forwarded_as_notice_with_marker_left_in() {
    let next: Step = read_step(
        "me",
        ReadState::Listening,
        ReadEvent::Received(inbound(WireCommand::Notice(
            "#room".to_string(),
            "\u{1}ACTION waves".to_string(),
        ))),
    );
    assert_eq!(
        next,
        Some((
            forwarding("#room"),
            forward("#room", MatrixMessageType::Notice, "\u{1}ACTION waves")
        ))
    );
}

#[test]
fn ping_is_answered_with_one_pong() {
    let next: Step = read_step(
        "me",
        ReadState::Listening,
        ReadEvent::Received(inbound(WireCommand::Ping("abc".to_string(), None))),
    );
    assert_eq!(
        next,
        Some((ReadState::Replying, ReadAction::Enqueue(pong("abc".to_string(), None))))
    );
    let next: Step = read_step("me", ReadState::Replying, ReadEvent::Enqueued);
    assert_eq!(next, listen_again());
}

#[test]
fn ping_with_two_tokens_is_answered_with_both() {
    let (state, action) = receive::<String>(inbound(WireCommand::Ping(
        "abc".to_string(),
        Some("def".to_string()),
    )));
    assert_eq!(state, ReadState::Replying);
    assert_eq!(
        action,
        ReadAction::Enqueue(pong("abc".to_string(), Some("def".to_string())))
    );
}

#[test]
fn pong_that_cannot_be_enqueued_ends_the_loop() {
    let next: Step = read_step(
        "me",
        ReadState::Replying,
        ReadEvent::EnqueueFailed("queue closed".to_string()),
    );
    assert_eq!(
        next,
        Some((ReadState::Stopped, ReadAction::Finish(Err("queue closed".to_string()))))
    );
}

#[test]
fn failed_forwarding_is_reported_to_the_fallback_name() {
    // a private conversation, and the client named no origin: no place to
    // answer is known
    let next: Step = read_step(
        "me",
        ReadState::Listening,
        ReadEvent::Received(inbound(chat("friend", "hello"))),
    );
    let (state, action) = next.unwrap();
    assert_eq!(state, forwarding("matrirc"));
    assert_eq!(action, forward("friend", MatrixMessageType::Text, "hello"));

    let next: Step = read_step("me", state, ReadEvent::ForwardFailed("no such room".to_string()));
    assert_eq!(
        next,
        Some((
            ReadState::Notifying,
            ReadAction::Enqueue(notice("me", "matrirc", "Could not forward: no such room"))
        ))
    );

    // the loop goes on whether or not the notice went out
    let next: Step = read_step("me", ReadState::Notifying, ReadEvent::Enqueued);
    assert_eq!(next, listen_again());
    let next: Step = read_step(
        "me",
        ReadState::Notifying,
        ReadEvent::EnqueueFailed("queue full".to_string()),
    );
    assert_eq!(next, listen_again());

    // and takes the next message
    let next: Step = read_step(
        "me",
        ReadState::Listening,
        ReadEvent::Received(inbound(chat("#room", "again"))),
    );
    assert_eq!(
        next,
        Some((forwarding("#room"), forward("#room", MatrixMessageType::Text, "again")))
    );
}

#[test]
fn failed_forwarding_to_a_channel_is_reported_in_the_channel() {
    let next: Step = read_step(
        "bridge",
        ReadState::Listening,
        ReadEvent::Received(inbound(chat("#room", "hello"))),
    );
    let (state, _) = next.unwrap();
    let next: Step = read_step("bridge", state, ReadEvent::ForwardFailed("boom".to_string()));
    assert_eq!(
        next,
        Some((
            ReadState::Notifying,
            ReadAction::Enqueue(notice("bridge", "#room", "Could not forward: boom"))
        ))
    );
}

#[test]
fn reply_goes_to_the_channel_for_every_channel_sign() {
    for target in ["#a", "&a", "+a", "!a", "#"] {
        let (state, _) = receive::<String>(inbound_from("friend", chat(target, "x")));
        assert_eq!(state, forwarding(target));
        let (state, _) = receive::<String>(inbound_from(
            "friend",
            WireCommand::Notice(target.to_string(), "x".to_string()),
        ));
        assert_eq!(state, forwarding(target));
    }
}

#[test]
fn reply_goes_to_the_sender_outside_channels() {
    for target in ["me", "", "a#b", "@a", "$a"] {
        let (state, _) = receive::<String>(inbound_from("friend", chat(target, "x")));
        assert_eq!(state, forwarding("friend"));
        let (state, _) = receive::<String>(inbound(chat(target, "x")));
        assert_eq!(state, forwarding("matrirc"));
    }
    let (state, _) = receive::<String>(inbound_from(
        "friend",
        WireCommand::Notice("me".to_string(), "x".to_string()),
    ));
    assert_eq!(state, forwarding("friend"));
}

#[test]
fn forwarded_content_lets_the_loop_listen_again() {
    let next: Step = read_step("me", forwarding("#room"), ReadEvent::Forwarded);
    assert_eq!(next, listen_again());
}

#[test]
fn other_commands_are_dropped() {
    let others = [
        WireCommand::Pong("abc".to_string(), None),
        WireCommand::Error("bye".to_string()),
        WireCommand::Raw("JOIN #room".to_string()),
    ];
    for command in others {
        let next: Step = read_step("me", ReadState::Listening, ReadEvent::Received(inbound(command)));
        assert_eq!(next, listen_again());
    }
}

#[test]
fn end_of_transport_ends_the_loop_well() {
    let next: Step = read_step("me", ReadState::Listening, ReadEvent::Closed);
    assert_eq!(next, Some((ReadState::Stopped, ReadAction::Finish(Ok(())))));
}

#[test]
fn read_failure_ends_the_loop_with_the_failure() {
    let next: Step = read_step(
        "me",
        ReadState::Listening,
        ReadEvent::ReadFailed("connection reset".to_string()),
    );
    assert_eq!(
        next,
        Some((ReadState::Stopped, ReadAction::Finish(Err("connection reset".to_string()))))
    );
}

#[test]
fn events_that_answer_nothing_are_refused() {
    let next: Step = read_step("me", ReadState::Listening, ReadEvent::Enqueued);
    assert_eq!(next, None);
    let next: Step = read_step("me", ReadState::Replying, ReadEvent::Forwarded);
    assert_eq!(next, None);
    let next: Step = read_step("me", forwarding("#room"), ReadEvent::Closed);
    assert_eq!(next, None);
    let next: Step = read_step(
        "me",
        ReadState::Notifying,
        ReadEvent::ForwardFailed("boom".to_string()),
    );
    assert_eq!(next, None);
    let next: Step = read_step("me", ReadState::Stopped, ReadEvent::Closed);
    assert_eq!(next, None);
    let next: Step = read_step(
        "me",
        ReadState::Stopped,
        ReadEvent::Received(privmsg("a", "#room", "x")),
    );
    assert_eq!(next, None);
}
