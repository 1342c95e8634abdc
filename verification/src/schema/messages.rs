//! Messages.

use vstd::prelude::*;

verus! {

/// A row of `messages`.
#[derive(Clone, Debug, PartialEq, Eq)]
pub struct Message {
    pub message_id: i64,
    pub user_id: i64,
    pub content: String,
    pub channel_id: i64,
    pub reception_status: i16,
    pub edited: bool,
    pub reply_to: Option<i64>,
}

/// A contact, the channel shared with them and the last message in it.
#[derive(Clone, Debug, PartialEq, Eq)]
pub struct ContactWithChannel {
    pub user_id: i64,
    pub channel_id: i64,
    pub name: String,
    pub username: String,
    pub message_id: Option<i64>,
    pub content: Option<String>,
    pub reception_status: Option<i16>,
    pub unread_reception_count: i64,
}

/// A message with its author's names and its reactions, the latter as the
/// store hands them out: a JSON array in text.
#[derive(Clone, Debug, PartialEq, Eq)]
pub struct CompleteMessage {
    pub message_id: i64,
    pub user_id: i64,
    pub content: String,
    pub channel_id: i64,
    pub reception_status: i16,
    pub edited: bool,
    pub reply_to: Option<i64>,
    pub author_name: String,
    pub author_username: String,
    pub reactions: String,
}

} // verus!
