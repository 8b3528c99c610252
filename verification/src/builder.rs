//! Builders for the messages the bridge sends to its client.

use crate::message::{
    optional_text, IrcMessage, IrcMessageType, IrcMessageView, WireCommand, WireCommandView,
    WireMessage, WireMessageView, WirePrefix, WirePrefixView,
};
use crate::text::{
    count_breaks, has_short_user, join_lines, lemma_lines_count, lemma_lines_rejoin, lines,
    short_user, shorten, split_lines, texts,
};
use vstd::prelude::*;
use vstd::string::*;

verus! {

/// Host name under which the bridge signs every message it originates.
pub open spec fn bridge_host() -> Seq<char> {
    "matrirc"@
}

/// The prefix the bridge gives a message that comes from `nickname`.
pub open spec fn bridge_prefix(nickname: Seq<char>) -> WirePrefixView {
    WirePrefixView { nickname, user: short_user(nickname), host: bridge_host() }
}

/// `command` as a message from `nickname`.
pub open spec fn prefixed(nickname: Seq<char>, command: WireCommandView) -> WireMessageView {
    WireMessageView { prefix: Some(bridge_prefix(nickname)), command }
}

/// `command` as a message without origin.
pub open spec fn unprefixed(command: WireCommandView) -> WireMessageView {
    WireMessageView { prefix: None, command }
}

/// The delivery command of the given kind.
pub open spec fn delivery(
    kind: IrcMessageType,
    target: Seq<char>,
    text: Seq<char>,
) -> WireCommandView {
    match kind {
        IrcMessageType::Privmsg => WireCommandView::PrivateMessage(target, text),
        IrcMessageType::Notice => WireCommandView::Notice(target, text),
    }
}

/// The messages a chat event becomes: one per line of its text, each of the
/// event's kind, from its sender to its target.
pub open spec fn framed(event: IrcMessageView) -> Seq<WireMessageView> {
    lines(event.text).map_values(
        |line: Seq<char>| prefixed(event.from, delivery(event.message_type, event.target, line)),
    )
}

/// The text a delivery command carries; empty for the other commands.
pub open spec fn content(message: WireMessageView) -> Seq<char> {
    match message.command {
        WireCommandView::PrivateMessage(_, text) => text,
        WireCommandView::Notice(_, text) => text,
        _ => Seq::<char>::empty(),
    }
}

/// The views of a sequence of messages.
pub open spec fn message_views(messages: Seq<WireMessage>) -> Seq<WireMessageView> {
    messages.map_values(|m: WireMessage| m@)
}

fn message_of(prefix: &str, command: WireCommand) -> (message: WireMessage)
    requires
        has_short_user(prefix@),
    ensures
        message@ == prefixed(prefix@, command@),
{
    let user = shorten(prefix);
    WireMessage {
        prefix: Some(
            WirePrefix { nickname: prefix.to_owned(), user, host: "matrirc".to_owned() },
        ),
        command,
    }
}

fn message_of_noprefix(command: WireCommand) -> (message: WireMessage)
    ensures
        message@ == unprefixed(command@),
{
    WireMessage { prefix: None, command }
}

/// A line for the client as it is, without any formatting.
pub fn raw_msg(msg: &str) -> (message: WireMessage)
    ensures
        message@ == unprefixed(WireCommandView::Raw(msg@)),
{
    message_of_noprefix(WireCommand::Raw(msg.to_owned()))
}

/// The answer to a keepalive request, carrying the request's tokens.
pub fn pong(server: String, server2: Option<String>) -> (message: WireMessage)
    ensures
        message@ == unprefixed(WireCommandView::Pong(server@, optional_text(server2))),
{
    message_of_noprefix(WireCommand::Pong(server, server2))
}

/// Chat text for `target`, coming as from `from`, with the given content.
/// `target` is the client's nick for a private message, or a channel name.
///
/// The short user name of `from` must exist: see [`can_shorten`].
pub fn privmsg(from: &str, target: &str, msg: &str) -> (message: WireMessage)
    requires
        has_short_user(from@),
    ensures
        message@ == prefixed(from@, WireCommandView::PrivateMessage(target@, msg@)),
{
    message_of(from, WireCommand::PrivateMessage(target.to_owned(), msg.to_owned()))
}

/// A notice for `target`, coming as from `from`, with the given content.
///
/// The short user name of `from` must exist: see [`can_shorten`].
pub fn notice(from: &str, target: &str, msg: &str) -> (message: WireMessage)
    requires
        has_short_user(from@),
    ensures
        message@ == prefixed(from@, WireCommandView::Notice(target@, msg@)),
{
    message_of(from, WireCommand::Notice(target.to_owned(), msg.to_owned()))
}

/// The error message that ends the connection: once the writer has sent it,
/// it closes the connection and stops.
pub fn error(reason: &str) -> (message: WireMessage)
    ensures
        message@ == unprefixed(WireCommandView::Error(reason@)),
{
    message_of_noprefix(WireCommand::Error(reason.to_owned()))
}

impl IrcMessage {
    /// Frames the event for the wire: one message per line of its text.
    ///
    /// The short user name of the sender must exist: see [`can_shorten`].
    pub fn into_messages(self) -> (messages: Vec<WireMessage>)
        requires
            has_short_user(self@.from),
        ensures
            message_views(messages@) == framed(self@),
    {
        let pieces = split_lines(self.text.as_str());
        let mut messages: Vec<WireMessage> = Vec::new();
        let mut i: usize = 0;
        while i < pieces.len()
            invariant
                i <= pieces.len(),
                has_short_user(self@.from),
                texts(pieces@) == lines(self@.text),
                messages@.len() == i,
                forall|k: int| 0 <= k < i ==> (#[trigger] messages@[k])@ == framed(self@)[k],
            decreases pieces.len() - i,
        {
            let line = pieces[i].as_str();
            assert(line@ == texts(pieces@)[i as int]);
            let message = match self.message_type {
                IrcMessageType::Privmsg => privmsg(self.from.as_str(), self.target.as_str(), line),
                IrcMessageType::Notice => notice(self.from.as_str(), self.target.as_str(), line),
            };
            messages.push(message);
            i += 1;
        }
        assert(message_views(messages@) =~= framed(self@));
        messages
    }
}

/// A chat event becomes one message more than its text has line breaks.
pub proof fn lemma_framed_count(event: IrcMessageView)
    ensures
        framed(event).len() == count_breaks(event.text) + 1,
{
    lemma_lines_count(event.text);
}

/// The contents of the messages of a chat event, joined by line breaks, are
/// the event's text.
pub proof fn lemma_framed_rejoin(event: IrcMessageView)
    ensures
        join_lines(framed(event).map_values(|m: WireMessageView| content(m))) == event.text,
{
    lemma_lines_rejoin(event.text);
    assert(framed(event).map_values(|m: WireMessageView| content(m)) =~= lines(event.text));
}

/// Every message of a chat event has the command that goes with the event's
/// kind, private message for private message and notice for notice, goes to
/// the event's target, comes from the event's sender, and carries the line
/// of the text that stands at its place.
pub proof fn lemma_framed_addressing(event: IrcMessageView, i: int)
    requires
        0 <= i < framed(event).len(),
    ensures
        i < lines(event.text).len(),
        framed(event)[i].prefix == Some(bridge_prefix(event.from)),
        framed(event)[i].prefix->0.nickname == event.from,
        event.message_type is Privmsg ==> framed(event)[i].command
            == WireCommandView::PrivateMessage(event.target, lines(event.text)[i]),
        event.message_type is Notice ==> framed(event)[i].command == WireCommandView::Notice(
            event.target,
            lines(event.text)[i],
        ),
{
}

} // verus!
