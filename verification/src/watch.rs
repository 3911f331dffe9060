//! Decisions of the live job watchers: the websocket event stream and the
//! assistant's blocking wait for a job. The callers read the job store,
//! listen on the job's channel and talk to the client; these functions say
//! what to do with each thing that happens.

use vstd::prelude::*;

use crate::jobs::{is_terminal, spec_is_terminal, JobState};

verus! {

/// What a watcher knows of a job from its last status.
#[derive(Clone, Copy, Debug, PartialEq, Eq)]
pub struct Observed {
    pub state: JobState,
    /// 1-based position in the waiting queue, for queued jobs.
    pub queue_position: Option<u32>,
}

/// Something that happened while streaming a job's events.
#[derive(Clone, Copy, Debug, PartialEq, Eq)]
pub enum WatchEvent {
    /// A status was published on the job's channel.
    Published(Observed),
    /// A message on the channel that is not a status.
    Unreadable,
    /// The channel closed.
    ChannelClosed,
    /// The queue-position timer fired.
    Tick,
    /// The status read back after a tick (`None`: it could not be found).
    Polled(Option<Observed>),
    /// The client closed the socket, or the socket failed.
    ClientGone,
    /// The client sent anything else.
    ClientMessage,
}

/// What the stream does next.
#[derive(Clone, Copy, Debug, PartialEq, Eq)]
pub enum WatchAction {
    /// Tell the client there is no such job, then close.
    NotFound,
    /// Send the status and keep watching.
    Send,
    /// Send the status, then close.
    SendAndClose,
    /// Read the job's status again and report it as `Polled`.
    Poll,
    /// Keep watching.
    Wait,
    /// Close the socket.
    Close,
}

/// Sending a status: the stream ends with a terminal one.
pub open spec fn send_action(o: Observed) -> WatchAction {
    if spec_is_terminal(o.state) {
        WatchAction::SendAndClose
    } else {
        WatchAction::Send
    }
}

/// The opening step: the snapshot read when the client connects.
pub open spec fn spec_watch_start(snapshot: Option<Observed>) -> (Option<Observed>, WatchAction) {
    match snapshot {
        None => (None, WatchAction::NotFound),
        Some(o) => (Some(o), send_action(o)),
    }
}

/// One step of the stream: published statuses are forwarded; while the job
/// is queued the timer re-reads it and forwards it when its state or queue
/// position changed; the stream closes after a terminal status, when the
/// channel closes or when the client goes away.
pub open spec fn spec_watch_step(last: Observed, ev: WatchEvent) -> (Observed, WatchAction) {
    match ev {
        WatchEvent::Published(o) => (o, send_action(o)),
        WatchEvent::Unreadable => (last, WatchAction::Wait),
        WatchEvent::ChannelClosed => (last, WatchAction::Close),
        WatchEvent::Tick => (last, if last.state == JobState::Queued {
            WatchAction::Poll
        } else {
            WatchAction::Wait
        }),
        WatchEvent::Polled(None) => (last, WatchAction::Wait),
        WatchEvent::Polled(Some(o)) => (o, if o != last {
            send_action(o)
        } else if spec_is_terminal(o.state) {
            WatchAction::Close
        } else {
            WatchAction::Wait
        }),
        WatchEvent::ClientGone => (last, WatchAction::Close),
        WatchEvent::ClientMessage => (last, WatchAction::Wait),
    }
}

fn send_for(o: Observed) -> (r: WatchAction)
    ensures
        r == send_action(o),
{
    if is_terminal(o.state) {
        WatchAction::SendAndClose
    } else {
        WatchAction::Send
    }
}

fn same_observation(a: Observed, b: Observed) -> (r: bool)
    ensures
        r == (a == b),
{
    let same_position = match (a.queue_position, b.queue_position) {
        (None, None) => true,
        (Some(x), Some(y)) => x == y,
        _ => false,
    };
    a.state == b.state && same_position
}

/// Start streaming: with no snapshot the job does not exist; otherwise the
/// snapshot is sent, and the stream ends at once if the job is finished.
pub fn watch_start(snapshot: Option<Observed>) -> (r: (Option<Observed>, WatchAction))
    ensures
        r == spec_watch_start(snapshot),
{
    match snapshot {
        None => (None, WatchAction::NotFound),
        Some(o) => (Some(o), send_for(o)),
    }
}

/// The next status to remember and the action for one event.
pub fn watch_step(last: Observed, ev: WatchEvent) -> (r: (Observed, WatchAction))
    ensures
        r == spec_watch_step(last, ev),
{
    match ev {
        WatchEvent::Published(o) => (o, send_for(o)),
        WatchEvent::Unreadable => (last, WatchAction::Wait),
        WatchEvent::ChannelClosed => (last, WatchAction::Close),
        WatchEvent::Tick => {
            if last.state == JobState::Queued {
                (last, WatchAction::Poll)
            } else {
                (last, WatchAction::Wait)
            }
        },
        WatchEvent::Polled(None) => (last, WatchAction::Wait),
        WatchEvent::Polled(Some(o)) => {
            if !same_observation(o, last) {
                (o, send_for(o))
            } else if is_terminal(o.state) {
                (o, WatchAction::Close)
            } else {
                (o, WatchAction::Wait)
            }
        },
        WatchEvent::ClientGone => (last, WatchAction::Close),
        WatchEvent::ClientMessage => (last, WatchAction::Wait),
    }
}

/// The stream never forwards a terminal status without closing after it,
/// never keeps a connection open once it has seen a terminal status from
/// the job's channel, and only polls the store while the job is queued.
pub proof fn lemma_stream_closes_after_terminal(last: Observed, ev: WatchEvent)
    ensures
        spec_watch_step(last, ev).1 == WatchAction::Send ==> !spec_is_terminal(spec_watch_step(last, ev).0.state),
        spec_watch_step(last, ev).1 == WatchAction::SendAndClose ==> spec_is_terminal(spec_watch_step(last, ev).0.state),
        (ev matches WatchEvent::Published(o) && spec_is_terminal(o.state)) ==> spec_watch_step(last, ev).1
            == WatchAction::SendAndClose,
        spec_watch_step(last, ev).1 == WatchAction::Poll ==> last.state == JobState::Queued,
{
}

/// A status read back after a tick that equals the last one sent is never
/// sent again.
pub proof fn lemma_poll_sends_only_changes(last: Observed)
    ensures
        spec_watch_step(last, WatchEvent::Polled(Some(last))).1 != WatchAction::Send,
        spec_watch_step(last, WatchEvent::Polled(Some(last))).1 != WatchAction::SendAndClose,
{
}

/// What the blocking wait does after reading the job's status once.
#[derive(Clone, Copy, Debug, PartialEq, Eq)]
pub enum AwaitStart {
    /// No such job: the tool fails.
    Missing,
    /// The job is finished: answer with this status at once.
    Finished,
    /// Subscribe to the job's channel and wait.
    Wait,
}

/// Something that happened while waiting for a job.
#[derive(Clone, Copy, Debug, PartialEq, Eq)]
pub enum AwaitEvent {
    /// A message on the job's channel; `true` when it is a status.
    Message(bool),
    /// The channel closed.
    ChannelClosed,
    /// The wait's deadline passed.
    Deadline,
}

/// What the blocking wait does after an event.
#[derive(Clone, Copy, Debug, PartialEq, Eq)]
pub enum AwaitStep {
    /// Keep waiting.
    Wait,
    /// Answer with the status just published.
    Answer,
    /// Read the status once more and answer with it; `timed_out` tells
    /// whether the deadline passed.
    Reread { timed_out: bool },
}

pub open spec fn spec_await_start(state: Option<JobState>) -> AwaitStart {
    match state {
        None => AwaitStart::Missing,
        Some(s) => if spec_is_terminal(s) {
            AwaitStart::Finished
        } else {
            AwaitStart::Wait
        },
    }
}

pub open spec fn spec_await_step(ev: AwaitEvent) -> AwaitStep {
    match ev {
        AwaitEvent::Message(true) => AwaitStep::Answer,
        AwaitEvent::Message(false) => AwaitStep::Wait,
        AwaitEvent::ChannelClosed => AwaitStep::Reread { timed_out: false },
        AwaitEvent::Deadline => AwaitStep::Reread { timed_out: true },
    }
}

/// First step of the wait, from the state of the job's status (`None` when
/// there is no such job).
pub fn await_start(state: Option<JobState>) -> (r: AwaitStart)
    ensures
        r == spec_await_start(state),
{
    match state {
        None => AwaitStart::Missing,
        Some(s) => {
            if is_terminal(s) {
                AwaitStart::Finished
            } else {
                AwaitStart::Wait
            }
        },
    }
}

/// The wait ends with the first status published on the channel; when the
/// channel closes or the deadline passes it answers with a fresh read.
pub fn await_step(ev: AwaitEvent) -> (r: AwaitStep)
    ensures
        r == spec_await_step(ev),
{
    match ev {
        AwaitEvent::Message(true) => AwaitStep::Answer,
        AwaitEvent::Message(false) => AwaitStep::Wait,
        AwaitEvent::ChannelClosed => AwaitStep::Reread { timed_out: false },
        AwaitEvent::Deadline => AwaitStep::Reread { timed_out: true },
    }
}

} // verus!
