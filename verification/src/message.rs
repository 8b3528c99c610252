//! The message model: chat events coming from the backend and the messages
//! that travel on the wire, each with its mathematical view.

use vstd::prelude::*;

verus! {

/// The two delivery commands a chat event can become. Both are framed the
/// same way; only the wire command differs.
#[derive(Debug, Clone, Copy, PartialEq, Eq)]
pub enum IrcMessageType {
    Privmsg,
    Notice,
}

/// A chat event on its way to the client.
#[derive(Debug, Clone, PartialEq, Eq)]
pub struct IrcMessage {
    pub message_type: IrcMessageType,
    /// Name the message appears to come from (member name in a channel,
    /// query name in a query).
    pub from: String,
    /// Where the message goes: a channel name, or the client's own nick.
    pub target: String,
    /// Content; may span several lines.
    pub text: String,
}

/// What an [`IrcMessage`] holds, as mathematical values.
pub struct IrcMessageView {
    pub message_type: IrcMessageType,
    pub from: Seq<char>,
    pub target: Seq<char>,
    pub text: Seq<char>,
}

impl View for IrcMessage {
    type V = IrcMessageView;

    open spec fn view(&self) -> IrcMessageView {
        IrcMessageView {
            message_type: self.message_type,
            from: self.from@,
            target: self.target@,
            text: self.text@,
        }
    }
}

/// The origin of a wire message: `nickname!user@host`.
#[derive(Debug, Clone, PartialEq, Eq)]
pub struct WirePrefix {
    pub nickname: String,
    pub user: String,
    pub host: String,
}

/// What a [`WirePrefix`] holds, as mathematical values.
pub struct WirePrefixView {
    pub nickname: Seq<char>,
    pub user: Seq<char>,
    pub host: Seq<char>,
}

impl View for WirePrefix {
    type V = WirePrefixView;

    open spec fn view(&self) -> WirePrefixView {
        WirePrefixView { nickname: self.nickname@, user: self.user@, host: self.host@ }
    }
}

/// The commands the bridge relays. Anything else a client may send is
/// carried as [`WireCommand::Raw`].
#[derive(Debug, Clone, PartialEq, Eq)]
pub enum WireCommand {
    /// Keepalive request: token and optional second token.
    Ping(String, Option<String>),
    /// Keepalive answer: token and optional second token.
    Pong(String, Option<String>),
    /// Chat text: target and content.
    PrivateMessage(String, String),
    /// Notice: target and content.
    Notice(String, String),
    /// Fatal error with its reason; tells the writer to shut down.
    Error(String),
    /// A line sent or received as it is.
    Raw(String),
}

/// What a [`WireCommand`] holds, as mathematical values.
pub enum WireCommandView {
    Ping(Seq<char>, Option<Seq<char>>),
    Pong(Seq<char>, Option<Seq<char>>),
    PrivateMessage(Seq<char>, Seq<char>),
    Notice(Seq<char>, Seq<char>),
    Error(Seq<char>),
    Raw(Seq<char>),
}

/// The view of an optional string.
pub open spec fn optional_text(text: Option<String>) -> Option<Seq<char>> {
    match text {
        Some(t) => Some(t@),
        None => None,
    }
}

impl View for WireCommand {
    type V = WireCommandView;

    open spec fn view(&self) -> WireCommandView {
        match *self {
            WireCommand::Ping(token, token2) => WireCommandView::Ping(token@, optional_text(token2)),
            WireCommand::Pong(token, token2) => WireCommandView::Pong(token@, optional_text(token2)),
            WireCommand::PrivateMessage(target, text) => WireCommandView::PrivateMessage(
                target@,
                text@,
            ),
            WireCommand::Notice(target, text) => WireCommandView::Notice(target@, text@),
            WireCommand::Error(reason) => WireCommandView::Error(reason@),
            WireCommand::Raw(line) => WireCommandView::Raw(line@),
        }
    }
}

/// One message on the wire: an optional origin and a command.
#[derive(Debug, Clone, PartialEq, Eq)]
pub struct WireMessage {
    pub prefix: Option<WirePrefix>,
    pub command: WireCommand,
}

/// What a [`WireMessage`] holds, as mathematical values.
pub struct WireMessageView {
    pub prefix: Option<WirePrefixView>,
    pub command: WireCommandView,
}

impl View for WireMessage {
    type V = WireMessageView;

    open spec fn view(&self) -> WireMessageView {
        WireMessageView {
            prefix: match self.prefix {
                Some(p) => Some(p@),
                None => None,
            },
            command: self.command@,
        }
    }
}

impl WireMessage {
    /// Whether this message is the shutdown signal.
    pub fn is_error(&self) -> (b: bool)
        ensures
            b == (self@.command is Error),
    {
        match self.command {
            WireCommand::Error(_) => true,
            _ => false,
        }
    }
}

} // verus!
