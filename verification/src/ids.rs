//! Plain identifiers for the chat platform's channels, messages and users,
//! and the per-message facts the purge logic reads: timestamp and pin status.

use vstd::prelude::*;

verus! {

/// A channel, identified by its numeric platform id.
#[derive(Clone, Copy, Debug, PartialEq, Eq, Structural, Hash)]
pub struct ChannelRef(pub u64);

/// A message, identified by its numeric platform id.
#[derive(Clone, Copy, Debug, PartialEq, Eq, Structural, Hash)]
pub struct MessageRef(pub u64);

/// A user, identified by its numeric platform id.
#[derive(Clone, Copy, Debug, PartialEq, Eq, Structural, Hash)]
pub struct UserRef(pub u64);

/// What the gatherer reads of one message in a history page: its id, its
/// timestamp in unix seconds, and whether it is pinned.
#[derive(Clone, Copy, Debug, PartialEq, Eq, Structural)]
pub struct MessageMeta {
    pub id: MessageRef,
    /// Unix timestamp, in seconds.
    pub timestamp: i64,
    pub pinned: bool,
}

} // verus!
