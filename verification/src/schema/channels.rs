//! Channels and who belongs to them.

use vstd::prelude::*;

verus! {

/// A row of `channels`.
#[derive(Clone, Copy, Debug, PartialEq, Eq)]
pub struct Channel {
    pub channel_id: i64,
    pub channel_type: i32,
}

/// A row of `channel_members`.
#[derive(Clone, Copy, Debug, PartialEq, Eq)]
pub struct ChannelMember {
    pub channel_id: i64,
    pub user_id: i64,
}

/// The row that the query for a private channel returns.
#[derive(Clone, Copy, Debug, PartialEq, Eq)]
pub struct PrivateChannelQuery {
    pub channel_id: i64,
}

} // verus!
