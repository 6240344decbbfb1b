//! The deletion debouncer: a standing worker drains a FIFO queue of
//! single-message deletions from a monitored channel and collapses bursts
//! into one bulk-delete call. The first queue entry is a bootstrap value
//! naming the target channel and is never treated as a message; the timing
//! windows and the queue itself live in the surrounding application, which
//! feeds entries in and flushes when the settle delay elapses. This module
//! also decides which inbound messages are enqueued at all: administrators
//! using the override marker are left alone.

use vstd::prelude::*;

use crate::ids::{ChannelRef, MessageRef};
use crate::strutil::str_has_prefix;

verus! {

/// One entry of the deletion queue: the one-time bootstrap naming the
/// target channel, or a message id to delete.
#[derive(Clone, Copy, Debug, PartialEq, Eq, Structural)]
pub enum QueueEntry {
    Bootstrap(ChannelRef),
    Delete(MessageRef),
}

/// The debouncer's state, abstractly: its configured target, the ids
/// buffered for the next bulk call in arrival order, and whether the worker
/// has shut down.
pub struct DebouncerView {
    pub target: Option<ChannelRef>,
    pub buffer: Seq<MessageRef>,
    pub stopped: bool,
}

/// The worker state of the deletion debouncer.
pub struct Debouncer {
    pub target: Option<ChannelRef>,
    pub buffer: Vec<MessageRef>,
    pub stopped: bool,
}

impl View for Debouncer {
    type V = DebouncerView;

    open spec fn view(&self) -> DebouncerView {
        DebouncerView { target: self.target, buffer: self.buffer@, stopped: self.stopped }
    }
}

/// How one queue entry moves the state: the first bootstrap configures the
/// target; ids are buffered in arrival order; a bootstrap arriving on an
/// already-configured worker stops it; a stopped worker changes no more.
pub open spec fn spec_accept(d: DebouncerView, e: QueueEntry) -> DebouncerView {
    if d.stopped {
        d
    } else {
        match e {
            QueueEntry::Bootstrap(c) => if d.target is None {
                DebouncerView { target: Some(c), ..d }
            } else {
                DebouncerView { stopped: true, ..d }
            },
            QueueEntry::Delete(m) => if d.target is None {
                d
            } else {
                DebouncerView { buffer: d.buffer.push(m), ..d }
            },
        }
    }
}

/// A fresh debouncer: unconfigured, empty, running.
pub fn debouncer_new() -> (d: Debouncer)
    ensures
        d@.target is None,
        d@.buffer == Seq::<MessageRef>::empty(),
        !d@.stopped,
{
    Debouncer { target: None, buffer: Vec::new(), stopped: false }
}

/// Takes one queue entry. The very first entry must be the bootstrap:
/// nothing is deletable before a target channel is known.
pub fn accept(d: &mut Debouncer, e: QueueEntry)
    requires
        !old(d)@.stopped,
        old(d)@.target is None ==> e is Bootstrap,
    ensures
        final(d)@ == spec_accept(old(d)@, e),
{
    match e {
        QueueEntry::Bootstrap(c) => {
            if d.target.is_none() {
                d.target = Some(c);
            } else {
                d.stopped = true;
            }
        },
        QueueEntry::Delete(m) => {
            d.buffer.push(m);
        },
    }
}

/// Empties the buffer into one batch: the single bulk-delete call covering
/// everything buffered since the last flush, in arrival order, against the
/// configured target channel.
pub fn flush(d: &mut Debouncer) -> (r: (ChannelRef, Vec<MessageRef>))
    requires
        old(d)@.target is Some,
    ensures
        final(d)@.target == old(d)@.target,
        final(d)@.stopped == old(d)@.stopped,
        final(d)@.buffer == Seq::<MessageRef>::empty(),
        old(d)@.target matches Some(c) ==> r.0 == c,
        r.1@ == old(d)@.buffer,
{
    let channel = match d.target {
        Some(c) => c,
        None => ChannelRef(0),
    };
    let mut batch: Vec<MessageRef> = Vec::new();
    core::mem::swap(&mut d.buffer, &mut batch);
    (channel, batch)
}

/// The state after a whole burst of ids is queued, one entry each.
pub open spec fn accept_all(d: DebouncerView, ms: Seq<MessageRef>) -> DebouncerView
    decreases ms.len(),
{
    if ms.len() == 0 {
        d
    } else {
        accept_all(spec_accept(d, QueueEntry::Delete(ms[0])), ms.drop_first())
    }
}

/// Coalescing: feeding a burst of ids into a configured, running debouncer
/// buffers exactly that burst, in arrival order, after what was already
/// buffered — so the next flush issues one bulk call covering all of them.
pub proof fn lemma_burst_coalesced(d: DebouncerView, ms: Seq<MessageRef>)
    requires
        d.target is Some,
        !d.stopped,
    ensures
        accept_all(d, ms).buffer == d.buffer + ms,
        accept_all(d, ms).target == d.target,
        !accept_all(d, ms).stopped,
    decreases ms.len(),
{
    if ms.len() == 0 {
        assert(d.buffer + ms =~= d.buffer);
    } else {
        let d1 = spec_accept(d, QueueEntry::Delete(ms[0]));
        lemma_burst_coalesced(d1, ms.drop_first());
        assert(d1.buffer + ms.drop_first() =~= d.buffer + ms);
    }
}

/// The bootstrap is consumed at most once, and always first: once a target
/// is configured, no entry ever changes it, and a bootstrap entry is never
/// buffered as a message to delete.
pub proof fn lemma_bootstrap_once(d: DebouncerView, e: QueueEntry)
    requires
        d.target is Some,
    ensures
        spec_accept(d, e).target == d.target,
        e is Bootstrap ==> spec_accept(d, e).buffer == d.buffer,
{
}

/// What to do with one message observed in a watched channel.
#[derive(Clone, Copy, Debug, PartialEq, Eq, Structural)]
pub enum MessageDisposition {
    /// Not ours to touch.
    Ignore,
    /// An anonymous-feedback message: forward it, then remove the original.
    Feedback,
    /// Queue the message for debounced deletion.
    Enqueue,
}

/// The admin override marker: a message starting with this, sent by an
/// administrator, is left alone.
pub open spec fn spec_disposition(
    channel: ChannelRef,
    monitored: ChannelRef,
    feedback: ChannelRef,
    content: Seq<char>,
    is_admin: bool,
) -> MessageDisposition {
    if channel != monitored && channel != feedback {
        MessageDisposition::Ignore
    } else if is_admin && "ADMIN:"@.is_prefix_of(content) {
        MessageDisposition::Ignore
    } else if channel == feedback {
        MessageDisposition::Feedback
    } else {
        MessageDisposition::Enqueue
    }
}

/// Decides what the message event handler does with a message: nothing
/// outside the watched channels, nothing for an administrator using the
/// override marker, forwarding for the feedback channel, and debounced
/// deletion for the monitored channel.
pub fn message_disposition(
    channel: ChannelRef,
    monitored: ChannelRef,
    feedback: ChannelRef,
    content: &str,
    is_admin: bool,
) -> (r: MessageDisposition)
    ensures
        r == spec_disposition(channel, monitored, feedback, content@, is_admin),
{
    if channel != monitored && channel != feedback {
        return MessageDisposition::Ignore;
    }
    if is_admin && str_has_prefix(content, "ADMIN:") {
        return MessageDisposition::Ignore;
    }
    if channel == feedback {
        MessageDisposition::Feedback
    } else {
        MessageDisposition::Enqueue
    }
}

/// A message from an administrator that carries the override marker is
/// never enqueued for deletion, whichever watched channel it arrived in.
pub proof fn lemma_admin_override_left_alone(
    channel: ChannelRef,
    monitored: ChannelRef,
    feedback: ChannelRef,
    content: Seq<char>,
)
    requires
        "ADMIN:"@.is_prefix_of(content),
    ensures
        spec_disposition(channel, monitored, feedback, content, true)
            != MessageDisposition::Enqueue,
{
}

} // verus!
