use craftpath::jobs::JobState;
use craftpath::watch::{
    await_start, await_step, watch_start, watch_step, AwaitEvent, AwaitStart, AwaitStep, Observed,
    WatchAction, WatchEvent,
};

fn obs(state: JobState, pos: Option<u32>) -> Observed {
    Observed { state, queue_position: pos }
}

#[test]
fn test_watch_start() {
    assert_eq!(watch_start(None), (None, WatchAction::NotFound));
    let q = obs(JobState::Queued, Some(3));
    assert_eq!(watch_start(Some(q)), (Some(q), WatchAction::Send));
    let done = obs(JobState::Succeeded, None);
    assert_eq!(watch_start(Some(done)), (Some(done), WatchAction::SendAndClose));
}

#[test]
fn test_watch_forwards_published_and_closes_on_terminal() {
    let q = obs(JobState::Queued, Some(2));
    let r = obs(JobState::Running, None);
    assert_eq!(watch_step(q, WatchEvent::Published(r)), (r, WatchAction::Send));
    let f = obs(JobState::Failed, None);
    assert_eq!(watch_step(r, WatchEvent::Published(f)), (f, WatchAction::SendAndClose));
    assert_eq!(watch_step(r, WatchEvent::Unreadable), (r, WatchAction::Wait));
    assert_eq!(watch_step(r, WatchEvent::ChannelClosed), (r, WatchAction::Close));
    assert_eq!(watch_step(r, WatchEvent::ClientGone), (r, WatchAction::Close));
    assert_eq!(watch_step(r, WatchEvent::ClientMessage), (r, WatchAction::Wait));
}

#[test]
fn test_watch_polls_only_while_queued() {
    let q = obs(JobState::Queued, Some(2));
    let r = obs(JobState::Running, None);
    assert_eq!(watch_step(q, WatchEvent::Tick), (q, WatchAction::Poll));
    assert_eq!(watch_step(r, WatchEvent::Tick), (r, WatchAction::Wait));
    // unchanged position: nothing sent
    assert_eq!(watch_step(q, WatchEvent::Polled(Some(q))), (q, WatchAction::Wait));
    // moved up the queue: sent
    let q1 = obs(JobState::Queued, Some(1));
    assert_eq!(watch_step(q, WatchEvent::Polled(Some(q1))), (q1, WatchAction::Send));
    // finished meanwhile: sent and closed
    let c = obs(JobState::Cancelled, None);
    assert_eq!(watch_step(q, WatchEvent::Polled(Some(c))), (c, WatchAction::SendAndClose));
    assert_eq!(watch_step(c, WatchEvent::Polled(Some(c))), (c, WatchAction::Close));
    assert_eq!(watch_step(q, WatchEvent::Polled(None)), (q, WatchAction::Wait));
}

#[test]
fn test_await_steps() {
    assert_eq!(await_start(None), AwaitStart::Missing);
    assert_eq!(await_start(Some(JobState::Expired)), AwaitStart::Finished);
    assert_eq!(await_start(Some(JobState::Running)), AwaitStart::Wait);
    assert_eq!(await_step(AwaitEvent::Message(true)), AwaitStep::Answer);
    assert_eq!(await_step(AwaitEvent::Message(false)), AwaitStep::Wait);
    assert_eq!(await_step(AwaitEvent::ChannelClosed), AwaitStep::Reread { timed_out: false });
    assert_eq!(await_step(AwaitEvent::Deadline), AwaitStep::Reread { timed_out: true });
}
