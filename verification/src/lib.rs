//! Message framing and relay decisions for a bridge that presents a chat
//! backend to an IRC client.
//!
//! The crate holds the pure part of the bridge's client-facing side: the
//! messages it puts on the wire, how a backend chat event is framed into
//! them, and the decisions of the two loops that own the halves of a client
//! connection. The loops themselves perform no I/O here: each is a step
//! function from a state and an event to the next state and the action to
//! perform, so that whoever owns the sockets only carries actions out and
//! reports what happened.

pub mod builder;
pub mod message;
pub mod read_loop;
pub mod text;
pub mod write_loop;
