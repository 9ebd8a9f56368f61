use sse_countdown::broadcast::{listener_step, BroadcastChannel, RecvOutcome};
use sse_countdown::event::Event;
use sse_countdown::timer::BroadcastTimerTask;
use tokio::sync::broadcast::error::TryRecvError;

#[test]
fn publish_without_subscribers_is_silent() {
    let ch = BroadcastChannel::new(16);
    // The receiver made at construction is dropped, so no subscriber
    // exists: the value comes back and nothing blocks or panics.
    assert_eq!(ch.publish(7), Err(7));
    assert_eq!(ch.publish(0), Err(0));
}

#[test]
fn publish_reports_subscriber_count() {
    let ch = BroadcastChannel::new(16);
    let _rx1 = ch.subscribe();
    assert_eq!(ch.publish(3), Ok(1));
    let _rx2 = ch.subscribe();
    assert_eq!(ch.publish(2), Ok(2));
}

#[test]
fn early_subscriber_sees_whole_countdown_in_order() {
    let ch = BroadcastChannel::new(16);
    let mut rx = ch.subscribe();
    let mut task = BroadcastTimerTask::new(3);
    while task.publish_next(&ch).is_some() {}
    assert_eq!(rx.try_recv(), Ok(2));
    assert_eq!(rx.try_recv(), Ok(1));
    assert_eq!(rx.try_recv(), Ok(0));
    assert!(matches!(rx.try_recv(), Err(TryRecvError::Empty)));
}

#[test]
fn late_subscriber_sees_no_replay() {
    let ch = BroadcastChannel::new(16);
    let _keep_open = ch.subscribe();
    let mut task = BroadcastTimerTask::new(4);
    assert_eq!(task.publish_next(&ch), Some(3));
    assert_eq!(task.publish_next(&ch), Some(2));
    let mut late = ch.subscribe();
    assert_eq!(task.publish_next(&ch), Some(1));
    assert_eq!(task.publish_next(&ch), Some(0));
    assert_eq!(task.publish_next(&ch), None);
    // Only the values published after the subscription arrive.
    assert_eq!(late.try_recv(), Ok(1));
    assert_eq!(late.try_recv(), Ok(0));
    assert!(matches!(late.try_recv(), Err(TryRecvError::Empty)));
}

#[test]
fn concurrent_countdowns_interleave() {
    let ch = BroadcastChannel::new(16);
    let mut rx = ch.subscribe();
    let mut a = BroadcastTimerTask::new(2);
    let mut b = BroadcastTimerTask::new(3);
    // Two countdowns share the channel; neither waits on the other,
    // and each makes progress regardless of the other's state.
    assert_eq!(a.publish_next(&ch), Some(1));
    assert_eq!(b.publish_next(&ch), Some(2));
    assert_eq!(a.publish_next(&ch), Some(0));
    assert_eq!(b.publish_next(&ch), Some(1));
    assert_eq!(a.publish_next(&ch), None);
    assert_eq!(b.publish_next(&ch), Some(0));
    assert_eq!(rx.try_recv(), Ok(1));
    assert_eq!(rx.try_recv(), Ok(2));
    assert_eq!(rx.try_recv(), Ok(0));
    assert_eq!(rx.try_recv(), Ok(1));
    assert_eq!(rx.try_recv(), Ok(0));
    assert!(matches!(rx.try_recv(), Err(TryRecvError::Empty)));
}

#[test]
fn slow_subscriber_misses_oldest_values() {
    // Capacity 2: a subscriber that never drains its queue keeps only
    // the newest two values; the publisher is never blocked, and the
    // subscriber learns of the gap once, then resumes with what is
    // left.
    let ch = BroadcastChannel::new(2);
    let mut rx = ch.subscribe();
    assert_eq!(ch.publish(5), Ok(1));
    assert_eq!(ch.publish(4), Ok(1));
    assert_eq!(ch.publish(3), Ok(1));
    assert!(matches!(rx.try_recv(), Err(TryRecvError::Lagged(1))));
    assert_eq!(rx.try_recv(), Ok(4));
    assert_eq!(rx.try_recv(), Ok(3));
    assert!(matches!(rx.try_recv(), Err(TryRecvError::Empty)));
}

#[test]
fn stream_ends_when_channel_closes() {
    let ch = BroadcastChannel::new(16);
    let mut rx = ch.subscribe();
    ch.publish(9).unwrap();
    drop(ch);
    assert_eq!(rx.try_recv(), Ok(9));
    assert!(matches!(rx.try_recv(), Err(TryRecvError::Closed)));
}

#[test]
fn listener_turns_values_into_events() {
    assert_eq!(listener_step(RecvOutcome::Received(5)), Some(Event::new(5)));
    assert_eq!(listener_step(RecvOutcome::Received(0)), Some(Event::new(0)));
}

#[test]
fn listener_ends_cleanly() {
    assert_eq!(listener_step(RecvOutcome::Ended), None);
}
