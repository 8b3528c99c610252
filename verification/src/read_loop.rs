//! The decisions of the read loop, which owns the receiving half of a client
//! connection: it answers keepalive requests, forwards chat to the backend,
//! and tells the client when forwarding failed.
//!
//! The loop is a state machine that starts in [`ReadState::Listening`]. Its
//! driver waits for the first inbound message, then performs the action each
//! step asks for and hands the outcome back as the next event. `E` is the
//! driver's error type; the machine hands errors through untouched.

use crate::builder::{notice, pong, prefixed, unprefixed};
use crate::message::{
    optional_text, WireCommand, WireCommandView, WireMessage, WireMessageView, WirePrefixView,
};
use crate::text::{has_action_marker, has_short_user, strip_action_marker, ACTION_MARKER_LEN};
use irc::proto::{Command, Message, Prefix};
use vstd::prelude::*;
use vstd::string::*;

verus! {

/// How the backend is to present forwarded content.
#[derive(Debug, Clone, Copy, PartialEq, Eq)]
pub enum MatrixMessageType {
    Text,
    Emote,
    Notice,
}

/// Where the read loop stands.
#[derive(Debug, Clone, PartialEq, Eq)]
pub enum ReadState {
    /// Waiting for the next inbound message.
    Listening,
    /// A keepalive answer is being enqueued.
    Replying,
    /// Content is being forwarded to the backend; `reply_to` is where the
    /// client is told if that fails.
    Forwarding { reply_to: String },
    /// The notice about a failed forwarding is being enqueued.
    Notifying,
    /// The loop has ended.
    Stopped,
}

/// What happened to the last action.
#[derive(Debug, PartialEq, Eq)]
pub enum ReadEvent<E> {
    /// The transport handed out a message.
    Received(WireMessage),
    /// The transport ended cleanly.
    Closed,
    /// Reading from the transport failed.
    ReadFailed(E),
    /// The outbound queue took the message.
    Enqueued,
    /// The outbound queue refused the message.
    EnqueueFailed(E),
    /// The backend took the content.
    Forwarded,
    /// The backend refused the content, for the reason given.
    ForwardFailed(String),
}

/// What the driver is to do next.
#[derive(Debug, PartialEq, Eq)]
pub enum ReadAction<E> {
    /// Wait for the next inbound message.
    Receive,
    /// Put this message on the outbound queue.
    Enqueue(WireMessage),
    /// Hand this content to the backend conversation that `target` names.
    Forward { target: String, kind: MatrixMessageType, text: String },
    /// End the loop with this result.
    Finish(Result<(), E>),
}

/// A [`ReadState`] as mathematical values.
pub enum ReadStateView {
    Listening,
    Replying,
    Forwarding { reply_to: Seq<char> },
    Notifying,
    Stopped,
}

/// A [`ReadEvent`] as mathematical values.
pub enum ReadEventView<E> {
    Received(WireMessageView),
    Closed,
    ReadFailed(E),
    Enqueued,
    EnqueueFailed(E),
    Forwarded,
    ForwardFailed(Seq<char>),
}

/// A [`ReadAction`] as mathematical values.
pub enum ReadActionView<E> {
    Receive,
    Enqueue(WireMessageView),
    Forward { target: Seq<char>, kind: MatrixMessageType, text: Seq<char> },
    Finish(Result<(), E>),
}

impl View for ReadState {
    type V = ReadStateView;

    open spec fn view(&self) -> ReadStateView {
        match *self {
            ReadState::Listening => ReadStateView::Listening,
            ReadState::Replying => ReadStateView::Replying,
            ReadState::Forwarding { reply_to } => ReadStateView::Forwarding { reply_to: reply_to@ },
            ReadState::Notifying => ReadStateView::Notifying,
            ReadState::Stopped => ReadStateView::Stopped,
        }
    }
}

impl<E> View for ReadEvent<E> {
    type V = ReadEventView<E>;

    open spec fn view(&self) -> ReadEventView<E> {
        match *self {
            ReadEvent::Received(message) => ReadEventView::Received(message@),
            ReadEvent::Closed => ReadEventView::Closed,
            ReadEvent::ReadFailed(e) => ReadEventView::ReadFailed(e),
            ReadEvent::Enqueued => ReadEventView::Enqueued,
            ReadEvent::EnqueueFailed(e) => ReadEventView::EnqueueFailed(e),
            ReadEvent::Forwarded => ReadEventView::Forwarded,
            ReadEvent::ForwardFailed(reason) => ReadEventView::ForwardFailed(reason@),
        }
    }
}

impl<E> View for ReadAction<E> {
    type V = ReadActionView<E>;

    open spec fn view(&self) -> ReadActionView<E> {
        match *self {
            ReadAction::Receive => ReadActionView::Receive,
            ReadAction::Enqueue(message) => ReadActionView::Enqueue(message@),
            ReadAction::Forward { target, kind, text } => ReadActionView::Forward {
                target: target@,
                kind,
                text: text@,
            },
            ReadAction::Finish(result) => ReadActionView::Finish(result),
        }
    }
}

/// Whether `name` names a channel: it begins with `#`, `&`, `+` or `!`.
pub open spec fn is_channel_name(name: Seq<char>) -> bool {
    name.len() > 0 && (name[0] == '#' || name[0] == '&' || name[0] == '+' || name[0] == '!')
}

/// Where an answer to `message` belongs: the channel, if it is chat or a
/// notice sent to a channel, and else the nickname it came from, if it
/// names one.
pub open spec fn reply_target(message: WireMessageView) -> Option<Seq<char>> {
    let source = match message.prefix {
        Some(prefix) => Some(prefix.nickname),
        None => None,
    };
    match message.command {
        WireCommandView::PrivateMessage(target, _) => if is_channel_name(target) {
            Some(target)
        } else {
            source
        },
        WireCommandView::Notice(target, _) => if is_channel_name(target) {
            Some(target)
        } else {
            source
        },
        _ => source,
    }
}

/// Name the bridge answers to when a message names no place to answer.
pub open spec fn fallback_target() -> Seq<char> {
    "matrirc"@
}

/// Opening of the notice that tells the client of a failed forwarding.
pub open spec fn failure_opening() -> Seq<char> {
    "Could not forward: "@
}

/// The notice that tells the client, as `nick`, at `reply_to`, that
/// forwarding failed for `reason`.
pub open spec fn failure_notice(
    nick: Seq<char>,
    reply_to: Seq<char>,
    reason: Seq<char>,
) -> WireMessageView {
    prefixed(nick, WireCommandView::Notice(reply_to, failure_opening() + reason))
}

/// What is handed to the backend for `command`: the content of a private
/// message or a notice, addressed as the command is. A private message that
/// opens with the action marker goes as an emote, without the marker; any
/// other private message goes as text, unchanged; a notice goes as a notice,
/// unchanged. No other command is forwarded.
pub open spec fn forwarded<E>(command: WireCommandView) -> Option<ReadActionView<E>> {
    match command {
        WireCommandView::PrivateMessage(target, text) => Some(
            if has_action_marker(text) {
                ReadActionView::Forward {
                    target,
                    kind: MatrixMessageType::Emote,
                    text: text.skip(ACTION_MARKER_LEN as int),
                }
            } else {
                ReadActionView::Forward { target, kind: MatrixMessageType::Text, text }
            },
        ),
        WireCommandView::Notice(target, text) => Some(
            ReadActionView::Forward { target, kind: MatrixMessageType::Notice, text },
        ),
        _ => None,
    }
}

/// What the loop does with an inbound message. A keepalive request is
/// answered with its own tokens. Private messages and notices go to the
/// backend, as [`forwarded`] says, and the loop remembers where an answer to
/// the message belongs, or the fallback name if the message names no such
/// place. The rest is dropped.
pub open spec fn on_message<E>(message: WireMessageView) -> (ReadStateView, ReadActionView<E>) {
    match message.command {
        WireCommandView::Ping(token, token2) => (
            ReadStateView::Replying,
            ReadActionView::Enqueue(unprefixed(WireCommandView::Pong(token, token2))),
        ),
        _ => match forwarded::<E>(message.command) {
            Some(action) => (
                ReadStateView::Forwarding {
                    reply_to: match reply_target(message) {
                        Some(target) => target,
                        None => fallback_target(),
                    },
                },
                action,
            ),
            None => (ReadStateView::Listening, ReadActionView::Receive),
        },
    }
}

/// The step relation of the read loop: the state that follows `state` on
/// `event` and the action to perform, or `None` where `event` cannot be the
/// outcome of what `state` waits for. `nick` is the name under which the
/// bridge speaks to its client.
///
/// The end of the transport ends the loop well, a failed read ends it with
/// that failure, and so does a keepalive answer that cannot be enqueued. A
/// failed forwarding is answered with one notice and the loop goes on,
/// whether or not that notice could be enqueued.
pub open spec fn read_next<E>(
    nick: Seq<char>,
    state: ReadStateView,
    event: ReadEventView<E>,
) -> Option<(ReadStateView, ReadActionView<E>)> {
    match (state, event) {
        (ReadStateView::Listening, ReadEventView::Received(message)) => Some(on_message(message)),
        (ReadStateView::Listening, ReadEventView::Closed) => Some(
            (ReadStateView::Stopped, ReadActionView::Finish(Ok(()))),
        ),
        (ReadStateView::Listening, ReadEventView::ReadFailed(e)) => Some(
            (ReadStateView::Stopped, ReadActionView::Finish(Err(e))),
        ),
        (ReadStateView::Replying, ReadEventView::Enqueued) => Some(
            (ReadStateView::Listening, ReadActionView::Receive),
        ),
        (ReadStateView::Replying, ReadEventView::EnqueueFailed(e)) => Some(
            (ReadStateView::Stopped, ReadActionView::Finish(Err(e))),
        ),
        (ReadStateView::Forwarding { .. }, ReadEventView::Forwarded) => Some(
            (ReadStateView::Listening, ReadActionView::Receive),
        ),
        (ReadStateView::Forwarding { reply_to }, ReadEventView::ForwardFailed(reason)) => Some(
            (
                ReadStateView::Notifying,
                ReadActionView::Enqueue(failure_notice(nick, reply_to, reason)),
            ),
        ),
        (ReadStateView::Notifying, ReadEventView::Enqueued) => Some(
            (ReadStateView::Listening, ReadActionView::Receive),
        ),
        (ReadStateView::Notifying, ReadEventView::EnqueueFailed(_)) => Some(
            (ReadStateView::Listening, ReadActionView::Receive),
        ),
        _ => None,
    }
}

/// Where an answer to `message` belongs, by `Message::response_target` of
/// the `irc` crate, called on the same message in that crate's types.
/// Trusted: the result is the target of a private message or notice whose
/// target begins with `#`, `&`, `+` or `!`, and for every other message the
/// nickname of its prefix, if it has one.
#[verifier::external_body]
fn response_target(message: &WireMessage) -> (target: Option<String>)
    ensures
        optional_text(target) == reply_target(message@),
{
    let WireMessage { prefix, command } = message.clone();
    let command = match command {
        WireCommand::Ping(a, b) => Command::PING(a, b),
        WireCommand::Pong(a, b) => Command::PONG(a, b),
        WireCommand::PrivateMessage(a, b) => Command::PRIVMSG(a, b),
        WireCommand::Notice(a, b) => Command::NOTICE(a, b),
        WireCommand::Error(a) => Command::ERROR(a),
        WireCommand::Raw(a) => Command::Raw(a, Vec::new()),
    };
    let prefix = prefix.map(|p| Prefix::Nickname(p.nickname, p.user, p.host));
    let outside = Message { tags: None, prefix, command };
    outside.response_target().map(String::from)
}

/// One step of the read loop: see [`read_next`].
///
/// Where a failed forwarding is reported, the short user name of `nick`
/// must exist: see [`can_shorten`](crate::text::can_shorten).
pub fn read_step<E>(nick: &str, state: ReadState, event: ReadEvent<E>) -> (next: Option<
    (ReadState, ReadAction<E>),
>)
    requires
        state@ is Forwarding && event@ is ForwardFailed ==> has_short_user(nick@),
    ensures
        match next {
            Some((after, action)) => read_next(nick@, state@, event@) == Some((after@, action@)),
            None => read_next(nick@, state@, event@) is None,
        },
{
    match state {
        ReadState::Listening => match event {
            ReadEvent::Received(message) => Some(receive(message)),
            ReadEvent::Closed => Some((ReadState::Stopped, ReadAction::Finish(Ok(())))),
            ReadEvent::ReadFailed(e) => Some((ReadState::Stopped, ReadAction::Finish(Err(e)))),
            _ => None,
        },
        ReadState::Replying => match event {
            ReadEvent::Enqueued => Some((ReadState::Listening, ReadAction::Receive)),
            ReadEvent::EnqueueFailed(e) => Some((ReadState::Stopped, ReadAction::Finish(Err(e)))),
            _ => None,
        },
        ReadState::Forwarding { reply_to } => match event {
            ReadEvent::Forwarded => Some((ReadState::Listening, ReadAction::Receive)),
            ReadEvent::ForwardFailed(reason) => {
                let body = String::from_str("Could not forward: ").concat(reason.as_str());
                let message = notice(nick, reply_to.as_str(), body.as_str());
                Some((ReadState::Notifying, ReadAction::Enqueue(message)))
            },
            _ => None,
        },
        ReadState::Notifying => match event {
            ReadEvent::Enqueued => Some((ReadState::Listening, ReadAction::Receive)),
            ReadEvent::EnqueueFailed(_) => Some((ReadState::Listening, ReadAction::Receive)),
            _ => None,
        },
        ReadState::Stopped => None,
    }
}

/// Decides what to do with an inbound message: see [`on_message`].
pub fn receive<E>(message: WireMessage) -> (next: (ReadState, ReadAction<E>))
    ensures
        (next.0@, next.1@) == on_message::<E>(message@),
{
    match message.command {
        WireCommand::Ping(token, token2) => (
            ReadState::Replying,
            ReadAction::Enqueue(pong(token, token2)),
        ),
        WireCommand::PrivateMessage(_, _) | WireCommand::Notice(_, _) => {
            let reply_to = match response_target(&message) {
                Some(target) => target,
                None => "matrirc".to_owned(),
            };
            (ReadState::Forwarding { reply_to }, forward(message.command))
        },
        _ => (ReadState::Listening, ReadAction::Receive),
    }
}

/// What is handed to the backend for a private message or a notice.
fn forward<E>(command: WireCommand) -> (action: ReadAction<E>)
    requires
        command@ is PrivateMessage || command@ is Notice,
    ensures
        Some(action@) == forwarded::<E>(command@),
{
    match command {
        WireCommand::PrivateMessage(target, text) => match strip_action_marker(text.as_str()) {
            Some(rest) => ReadAction::Forward { target, kind: MatrixMessageType::Emote, text: rest },
            None => ReadAction::Forward { target, kind: MatrixMessageType::Text, text },
        },
        WireCommand::Notice(target, text) => ReadAction::Forward {
            target,
            kind: MatrixMessageType::Notice,
            text,
        },
        _ => ReadAction::Receive,
    }
}

/// A failed forwarding does not end the loop. Chat or a notice is handed to
/// the backend; if the backend refuses it, one notice is enqueued, addressed
/// to where an answer to the message belongs or, if it names no such place,
/// to the fallback name; and whether or not the queue takes that notice, the
/// loop listens again.
pub proof fn lemma_forward_failure_is_survived<E>(
    nick: Seq<char>,
    message: WireMessageView,
    reason: Seq<char>,
    outcome: ReadEventView<E>,
)
    requires
        message.command is PrivateMessage || message.command is Notice,
        outcome is Enqueued || outcome is EnqueueFailed,
    ensures
        ({
            let reply_to = match reply_target(message) {
                Some(target) => target,
                None => fallback_target(),
            };
            let forwarding = ReadStateView::Forwarding { reply_to };
            &&& read_next::<E>(nick, ReadStateView::Listening, ReadEventView::Received(message))
                matches Some((after, action)) && after == forwarding && action is Forward
            &&& read_next::<E>(nick, forwarding, ReadEventView::ForwardFailed(reason)) == Some(
                (
                    ReadStateView::Notifying,
                    ReadActionView::<E>::Enqueue(
                        prefixed(
                            nick,
                            WireCommandView::Notice(reply_to, failure_opening() + reason),
                        ),
                    ),
                ),
            )
            &&& read_next(nick, ReadStateView::Notifying, outcome) == Some(
                (ReadStateView::Listening, ReadActionView::<E>::Receive),
            )
        }),
{
}

/// A keepalive request is answered with exactly its own tokens, and once
/// the answer is enqueued the loop listens again.
pub proof fn lemma_ping_is_answered<E>(
    nick: Seq<char>,
    prefix: Option<WirePrefixView>,
    token: Seq<char>,
    token2: Option<Seq<char>>,
)
    ensures
        read_next::<E>(
            nick,
            ReadStateView::Listening,
            ReadEventView::Received(
                WireMessageView { prefix, command: WireCommandView::Ping(token, token2) },
            ),
        ) == Some(
            (
                ReadStateView::Replying,
                ReadActionView::<E>::Enqueue(
                    WireMessageView { prefix: None, command: WireCommandView::Pong(token, token2) },
                ),
            ),
        ),
        read_next::<E>(nick, ReadStateView::Replying, ReadEventView::Enqueued) == Some(
            (ReadStateView::Listening, ReadActionView::<E>::Receive),
        ),
{
}

} // verus!
