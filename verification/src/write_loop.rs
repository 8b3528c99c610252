//! The decisions of the write loop, which owns the sending half of a client
//! connection and drains the queue of outbound messages onto it.
//!
//! The loop is a state machine that starts in [`WriteState::Draining`]. Its
//! driver waits for the first message, then performs the action each step
//! asks for and hands the outcome back as the next event: after
//! [`WriteAction::Receive`] the next queued message or the news that the
//! queue is closed, after [`WriteAction::Send`] and [`WriteAction::Close`]
//! whether the transport accepted it. `E` is the driver's error type; the
//! machine hands errors through untouched.

use crate::message::{WireMessage, WireMessageView};
use vstd::prelude::*;

verus! {

/// Where the write loop stands.
#[derive(Debug, Clone, Copy, PartialEq, Eq)]
pub enum WriteState {
    /// Waiting for the next queued message.
    Draining,
    /// A message is being written; `last` tells that it is the shutdown
    /// signal, after which the connection is closed.
    Sending { last: bool },
    /// The sending half is being closed.
    Closing,
    /// The loop has ended.
    Stopped,
}

/// What happened to the last action.
#[derive(Debug, PartialEq, Eq)]
pub enum WriteEvent<E> {
    /// The queue handed out a message.
    Received(WireMessage),
    /// Every producer is gone: no message will ever arrive.
    QueueClosed,
    /// The transport took the message.
    Sent,
    /// The transport refused the message.
    SendFailed(E),
    /// The sending half is closed.
    Closed,
    /// Closing the sending half failed.
    CloseFailed(E),
}

/// What the driver is to do next.
#[derive(Debug, PartialEq, Eq)]
pub enum WriteAction<E> {
    /// Wait for the next queued message.
    Receive,
    /// Write this message to the transport.
    Send(WireMessage),
    /// Close the sending half of the transport.
    Close,
    /// End the loop with this result.
    Finish(Result<(), E>),
}

/// A [`WriteEvent`] as mathematical values.
pub enum WriteEventView<E> {
    Received(WireMessageView),
    QueueClosed,
    Sent,
    SendFailed(E),
    Closed,
    CloseFailed(E),
}

/// A [`WriteAction`] as mathematical values.
pub enum WriteActionView<E> {
    Receive,
    Send(WireMessageView),
    Close,
    Finish(Result<(), E>),
}

impl<E> View for WriteEvent<E> {
    type V = WriteEventView<E>;

    open spec fn view(&self) -> WriteEventView<E> {
        match *self {
            WriteEvent::Received(message) => WriteEventView::Received(message@),
            WriteEvent::QueueClosed => WriteEventView::QueueClosed,
            WriteEvent::Sent => WriteEventView::Sent,
            WriteEvent::SendFailed(e) => WriteEventView::SendFailed(e),
            WriteEvent::Closed => WriteEventView::Closed,
            WriteEvent::CloseFailed(e) => WriteEventView::CloseFailed(e),
        }
    }
}

impl<E> View for WriteAction<E> {
    type V = WriteActionView<E>;

    open spec fn view(&self) -> WriteActionView<E> {
        match *self {
            WriteAction::Receive => WriteActionView::Receive,
            WriteAction::Send(message) => WriteActionView::Send(message@),
            WriteAction::Close => WriteActionView::Close,
            WriteAction::Finish(result) => WriteActionView::Finish(result),
        }
    }
}

/// The step relation of the write loop: the state that follows `state` on
/// `event` and the action to perform, or `None` where `event` cannot be the
/// outcome of what `state` waits for.
///
/// A received message is sent. Once the shutdown signal is sent the sending
/// half is closed and the loop ends well. A closed queue ends the loop well
/// without closing the transport. A failed write or close ends the loop with
/// that failure.
pub open spec fn write_next<E>(state: WriteState, event: WriteEventView<E>) -> Option<
    (WriteState, WriteActionView<E>),
> {
    match (state, event) {
        (WriteState::Draining, WriteEventView::Received(message)) => Some(
            (
                WriteState::Sending { last: message.command is Error },
                WriteActionView::Send(message),
            ),
        ),
        (WriteState::Draining, WriteEventView::QueueClosed) => Some(
            (WriteState::Stopped, WriteActionView::Finish(Ok(()))),
        ),
        (WriteState::Sending { last }, WriteEventView::Sent) => if last {
            Some((WriteState::Closing, WriteActionView::Close))
        } else {
            Some((WriteState::Draining, WriteActionView::Receive))
        },
        (WriteState::Sending { .. }, WriteEventView::SendFailed(e)) => Some(
            (WriteState::Stopped, WriteActionView::Finish(Err(e))),
        ),
        (WriteState::Closing, WriteEventView::Closed) => Some(
            (WriteState::Stopped, WriteActionView::Finish(Ok(()))),
        ),
        (WriteState::Closing, WriteEventView::CloseFailed(e)) => Some(
            (WriteState::Stopped, WriteActionView::Finish(Err(e))),
        ),
        _ => None,
    }
}

/// One step of the write loop: see [`write_next`].
pub fn write_step<E>(state: WriteState, event: WriteEvent<E>) -> (next: Option<
    (WriteState, WriteAction<E>),
>)
    ensures
        match next {
            Some((after, action)) => write_next(state, event@) == Some((after, action@)),
            None => write_next(state, event@) is None,
        },
{
    match state {
        WriteState::Draining => match event {
            WriteEvent::Received(message) => {
                let last = message.is_error();
                Some((WriteState::Sending { last }, WriteAction::Send(message)))
            },
            WriteEvent::QueueClosed => Some((WriteState::Stopped, WriteAction::Finish(Ok(())))),
            _ => None,
        },
        WriteState::Sending { last } => match event {
            WriteEvent::Sent => if last {
                Some((WriteState::Closing, WriteAction::Close))
            } else {
                Some((WriteState::Draining, WriteAction::Receive))
            },
            WriteEvent::SendFailed(e) => Some((WriteState::Stopped, WriteAction::Finish(Err(e)))),
            _ => None,
        },
        WriteState::Closing => match event {
            WriteEvent::Closed => Some((WriteState::Stopped, WriteAction::Finish(Ok(())))),
            WriteEvent::CloseFailed(e) => Some((WriteState::Stopped, WriteAction::Finish(Err(e)))),
            _ => None,
        },
        WriteState::Stopped => None,
    }
}

/// The actions of a run of the write loop that starts in `state` and is fed
/// `events` in order. The run ends with the events, or before them at the
/// first event that does not answer what the loop waits for.
pub open spec fn write_run<E>(state: WriteState, events: Seq<WriteEventView<E>>) -> Seq<
    WriteActionView<E>,
>
    decreases events.len(),
{
    if events.len() == 0 {
        Seq::empty()
    } else {
        match write_next(state, events[0]) {
            Some((after, action)) => seq![action] + write_run(after, events.drop_first()),
            None => Seq::empty(),
        }
    }
}

/// The messages that the given actions write to the transport, in order.
pub open spec fn sent<E>(actions: Seq<WriteActionView<E>>) -> Seq<WireMessageView>
    decreases actions.len(),
{
    if actions.len() == 0 {
        Seq::empty()
    } else {
        match actions[0] {
            WriteActionView::Send(message) => seq![message] + sent(actions.drop_first()),
            _ => sent(actions.drop_first()),
        }
    }
}

/// The messages that the given events take from the queue, in order.
pub open spec fn received<E>(events: Seq<WriteEventView<E>>) -> Seq<WireMessageView>
    decreases events.len(),
{
    if events.len() == 0 {
        Seq::empty()
    } else {
        match events[0] {
            WriteEventView::Received(message) => seq![message] + received(events.drop_first()),
            _ => received(events.drop_first()),
        }
    }
}

/// Whether `state` lies behind the shutdown signal: the signal is being
/// written, or the connection is being closed, or the loop has ended.
pub open spec fn shutting_down(state: WriteState) -> bool {
    state == (WriteState::Sending { last: true }) || state == WriteState::Closing || state
        == WriteState::Stopped
}

/// A run acts once for each event it takes, so it is never longer than its
/// events.
pub proof fn lemma_write_run_len<E>(state: WriteState, events: Seq<WriteEventView<E>>)
    ensures
        write_run(state, events).len() <= events.len(),
    decreases events.len(),
{
    if events.len() > 0 {
        match write_next(state, events[0]) {
            Some((after, _)) => lemma_write_run_len(after, events.drop_first()),
            None => {},
        }
    }
}

/// Nothing is written once the loop is shutting down, whatever events
/// follow.
pub proof fn lemma_silent_when_shutting_down<E>(
    state: WriteState,
    events: Seq<WriteEventView<E>>,
    j: int,
)
    requires
        shutting_down(state),
        0 <= j < write_run(state, events).len(),
    ensures
        !(write_run(state, events)[j] is Send),
    decreases events.len(),
{
    match write_next(state, events[0]) {
        Some((after, action)) => {
            if j > 0 {
                lemma_silent_when_shutting_down(after, events.drop_first(), j - 1);
            }
        },
        None => {},
    }
}

/// Nothing is written after the shutdown signal: in any run, from any
/// state, no message follows an error message onto the transport, however
/// many are still queued behind it.
pub proof fn lemma_nothing_sent_after_error<E>(
    state: WriteState,
    events: Seq<WriteEventView<E>>,
    i: int,
    j: int,
)
    requires
        0 <= i < j < write_run(state, events).len(),
        write_run(state, events)[i] matches WriteActionView::Send(message)
            && message.command is Error,
    ensures
        !(write_run(state, events)[j] is Send),
    decreases events.len(),
{
    match write_next(state, events[0]) {
        Some((after, action)) => {
            if i == 0 {
                lemma_silent_when_shutting_down(after, events.drop_first(), j - 1);
            } else {
                lemma_nothing_sent_after_error(after, events.drop_first(), i - 1, j - 1);
            }
        },
        None => {},
    }
}

/// The shutdown signal closes the connection: what follows an error message
/// in a run is the closing of the sending half, or the end of the loop with
/// the failure to write the message.
pub proof fn lemma_error_is_followed_by_close<E>(
    state: WriteState,
    events: Seq<WriteEventView<E>>,
    i: int,
)
    requires
        0 <= i,
        i + 1 < write_run(state, events).len(),
        write_run(state, events)[i] matches WriteActionView::Send(message)
            && message.command is Error,
    ensures
        write_run(state, events)[i + 1] is Close || (write_run(state, events)[i + 1]
            matches WriteActionView::Finish(result) && result is Err),
    decreases events.len(),
{
    match write_next(state, events[0]) {
        Some((after, action)) => {
            let rest = events.drop_first();
            if i == 0 {
                assert(write_run(after, rest).len() > 0);
                assert(write_next(after, rest[0]) is Some);
            } else {
                lemma_error_is_followed_by_close(after, rest, i - 1);
            }
        },
        None => {},
    }
}

/// The transport sees the queue in order: the messages a run writes are the
/// messages it took from the queue, one for one and in the order in which
/// they came.
pub proof fn lemma_sent_in_order<E>(state: WriteState, events: Seq<WriteEventView<E>>)
    ensures
        write_run(state, events).len() <= events.len(),
        sent(write_run(state, events)) == received(
            events.take(write_run(state, events).len() as int),
        ),
    decreases events.len(),
{
    lemma_write_run_len(state, events);
    let run = write_run(state, events);
    let taken = events.take(run.len() as int);
    if events.len() > 0 {
        match write_next(state, events[0]) {
            Some((after, action)) => {
                let rest = events.drop_first();
                lemma_sent_in_order(after, rest);
                let tail = write_run(after, rest);
                assert(run.drop_first() =~= tail);
                assert(taken.drop_first() =~= rest.take(tail.len() as int));
                assert(taken[0] == events[0]);
                assert(sent(run) =~= received(taken));
            },
            None => {
                assert(sent(run) =~= received(taken));
            },
        }
    } else {
        assert(sent(run) =~= received(taken));
    }
}

} // verus!
