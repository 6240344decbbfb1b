use purgebot::debounce::{
    accept, debouncer_new, flush, message_disposition, MessageDisposition, QueueEntry,
};
use purgebot::ids::{ChannelRef, MessageRef};

const VOID: ChannelRef = ChannelRef(10);
const FEEDBACK: ChannelRef = ChannelRef(11);
const OTHER: ChannelRef = ChannelRef(12);

#[test]
fn bootstrap_configures_the_target() {
    let mut d = debouncer_new();
    accept(&mut d, QueueEntry::Bootstrap(VOID));
    assert_eq!(d.target, Some(VOID));
    assert!(!d.stopped);
}

#[test]
fn burst_is_coalesced_into_one_batch() {
    // Ids queued within one window come out as a single bulk call, in
    // arrival order.
    let mut d = debouncer_new();
    accept(&mut d, QueueEntry::Bootstrap(VOID));
    accept(&mut d, QueueEntry::Delete(MessageRef(7)));
    accept(&mut d, QueueEntry::Delete(MessageRef(3)));
    accept(&mut d, QueueEntry::Delete(MessageRef(9)));
    let (channel, batch) = flush(&mut d);
    assert_eq!(channel, VOID);
    assert_eq!(batch, vec![MessageRef(7), MessageRef(3), MessageRef(9)]);
    // The buffer is clear for the next window.
    let (_, empty) = flush(&mut d);
    assert!(empty.is_empty());
}

#[test]
fn second_bootstrap_stops_the_worker() {
    let mut d = debouncer_new();
    accept(&mut d, QueueEntry::Bootstrap(VOID));
    accept(&mut d, QueueEntry::Delete(MessageRef(1)));
    accept(&mut d, QueueEntry::Bootstrap(OTHER));
    assert!(d.stopped);
    // The target and buffer are untouched by the stray bootstrap.
    assert_eq!(d.target, Some(VOID));
    assert_eq!(d.buffer, vec![MessageRef(1)]);
}

#[test]
fn admin_override_is_left_alone() {
    let d = message_disposition(VOID, VOID, FEEDBACK, "ADMIN: keep this", true);
    assert_eq!(d, MessageDisposition::Ignore);
}

#[test]
fn override_marker_without_admin_is_deleted() {
    let d = message_disposition(VOID, VOID, FEEDBACK, "ADMIN: nice try", false);
    assert_eq!(d, MessageDisposition::Enqueue);
}

#[test]
fn admin_without_marker_is_deleted() {
    let d = message_disposition(VOID, VOID, FEEDBACK, "hello", true);
    assert_eq!(d, MessageDisposition::Enqueue);
}

#[test]
fn feedback_channel_forwards() {
    let d = message_disposition(FEEDBACK, VOID, FEEDBACK, "anon note", false);
    assert_eq!(d, MessageDisposition::Feedback);
}

#[test]
fn unwatched_channels_are_ignored() {
    let d = message_disposition(OTHER, VOID, FEEDBACK, "whatever", false);
    assert_eq!(d, MessageDisposition::Ignore);
}
