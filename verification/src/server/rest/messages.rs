//! Creating, listing, editing and deleting messages.
//!
//! A packet goes out only for a change that the store has made: each
//! function here takes what the store returned for the change.

use vstd::prelude::*;
use crate::util::vectors::reversed;
use crate::schema::messages::CompleteMessage;
use crate::schema::messages::Message;
use crate::schema::reactions::ReactionSummary;
use crate::schema::users::User;
use crate::server::gateway::messages::MessageCreated;
use crate::server::gateway::messages::MessageCreatedView;
use crate::server::gateway::messages::MessageDeleted;
use crate::server::gateway::messages::MessageEdited;
use crate::server::gateway::messages::MessageEditedView;
use crate::server::messages::views;
use crate::server::rest::error;
use crate::server::rest::IrisError;
use crate::server::rest::MessageObject;
use crate::server::rest::MessageObjectView;
use crate::server::rest::StandardUserView;
use crate::server::rest::FORBIDDEN;
use crate::server::rest::INTERNAL_SERVER_ERROR;
use crate::server::rest::NOT_FOUND;

verus! {

/// The wish to write a message.
#[derive(Clone, Debug, PartialEq, Eq)]
pub struct MessageCreationRequest {
    pub content: String,
    pub reply_to: Option<i64>,
}

/// The message of a row, by view, with the reactions `reactions`.
pub open spec fn spec_message_object(
    row: CompleteMessage,
    reactions: Seq<ReactionSummary>,
) -> MessageObjectView {
    MessageObjectView {
        id: row.message_id,
        content: row.content@,
        user_id: row.user_id,
        channel_id: row.channel_id,
        receipt: row.reception_status,
        edited: row.edited,
        author: StandardUserView {
            id: row.user_id,
            name: row.author_name@,
            username: row.author_username@,
        },
        reply_to: row.reply_to,
        reactions: views(reactions),
    }
}

/// Whether the message that a new message answers is there, given what the
/// store said of it: a message whose like is not in the channel, or of
/// which the store could not tell, cannot be answered.
pub fn reply_exists(found: Option<bool>) -> (checked: Result<(), IrisError>)
    ensures
        match checked {
            Ok(_) => found == Some(true),
            Err(failure) => found != Some(true) && failure.status == NOT_FOUND && failure.message@
                == "Reply not found"@,
        },
{
    match found {
        Some(true) => Ok(()),
        _ => Err(error(NOT_FOUND, "Reply not found")),
    }
}

/// The packet that tells a channel of the message stored as `inserted`,
/// which has no reactions yet. Where the store did not store the message
/// there is no packet, and the request has failed.
pub fn create_message(inserted: Option<CompleteMessage>) -> (created: Result<
    MessageCreated,
    IrisError,
>)
    ensures
        match created {
            Ok(packet) => inserted matches Some(row) && packet@ == (MessageCreatedView {
                message: spec_message_object(row, Seq::empty()),
            }),
            Err(failure) => inserted is None && failure.status == INTERNAL_SERVER_ERROR
                && failure.message@ == "Error inserting message"@,
        },
{
    match inserted {
        Some(row) => {
            let reactions: Vec<ReactionSummary> = Vec::new();
            proof {
                assert(views(reactions@) =~= views(Seq::<ReactionSummary>::empty()));
            }
            Ok(MessageCreated { message: MessageObject::from_row(row, reactions) })
        },
        None => Err(error(INTERNAL_SERVER_ERROR, "Error inserting message")),
    }
}

/// Whether a user may list the messages of a channel, given whether the
/// store holds the user as a member of it: only members may.
pub fn membership(is_member: bool) -> (checked: Result<(), IrisError>)
    ensures
        match checked {
            Ok(_) => is_member,
            Err(failure) => !is_member && failure.status == FORBIDDEN && failure.message@
                == "You are not a member of this channel"@,
        },
{
    if is_member {
        Ok(())
    } else {
        Err(error(FORBIDDEN, "You are not a member of this channel"))
    }
}

/// The messages of the rows of a listing, in the order of the rows, each
/// with the reactions that stand beside its row.
pub fn get_messages(rows: Vec<(CompleteMessage, Vec<ReactionSummary>)>) -> (messages: Vec<
    MessageObject,
>)
    ensures
        messages@.len() == rows@.len(),
        forall|i: int|
            0 <= i < rows@.len() ==> (#[trigger] messages@[i])@ == spec_message_object(
                rows@[i].0,
                rows@[i].1@,
            ),
{
    let mut messages: Vec<MessageObject> = Vec::new();
    let mut rest = reversed(rows);
    let ghost total = rows@.len();
    while rest.len() > 0
        invariant
            total == rows@.len(),
            rest@.len() + messages@.len() == total,
            forall|i: int| 0 <= i < rest@.len() ==> rest@[i] == rows@[total - 1 - i],
            forall|i: int|
                0 <= i < messages@.len() ==> (#[trigger] messages@[i])@ == spec_message_object(
                    rows@[i].0,
                    rows@[i].1@,
                ),
        decreases rest.len(),
    {
        let (row, reactions) = rest.pop().unwrap();
        messages.push(MessageObject::from_row(row, reactions));
    }
    messages
}

/// The message stored as edited, and the packet that tells its channel
/// that `editor` gave it the content `new_content`. `edited` is the row of
/// the message as the store left it, beside its reactions, or nothing
/// where the store holds no such message of the editor in the channel:
/// then there is no packet, and the message was not found.
pub fn edit_message(
    edited: Option<(CompleteMessage, Vec<ReactionSummary>)>,
    editor: &User,
    new_content: String,
) -> (change: Result<(MessageObject, MessageEdited), IrisError>)
    ensures
        match change {
            Ok(pair) => {
                &&& edited matches Some(stored)
                &&& pair.0@ == spec_message_object(stored.0, stored.1@)
                &&& pair.1@ == (MessageEditedView {
                    message_id: stored.0.message_id,
                    channel_id: stored.0.channel_id,
                    editor_id: editor.user_id,
                    new_content: new_content@,
                })
            },
            Err(failure) => edited is None && failure.status == NOT_FOUND && failure.message@
                == "Message not found"@,
        },
{
    match edited {
        Some((row, reactions)) => {
            let packet = MessageEdited {
                message_id: row.message_id,
                channel_id: row.channel_id,
                editor_id: editor.user_id,
                new_content,
            };
            Ok((MessageObject::from_row(row, reactions), packet))
        },
        None => Err(error(NOT_FOUND, "Message not found")),
    }
}

/// The packet that tells a channel that the message of the row `deleted`
/// is gone. `deleted` is the row that the store took out, or nothing where
/// it holds no such message of the user in the channel: then there is no
/// packet, and the message was not found.
pub fn delete_message(deleted: Option<&Message>) -> (packet: Result<MessageDeleted, IrisError>)
    ensures
        match packet {
            Ok(gone) => deleted matches Some(row) && gone == (MessageDeleted {
                message_id: row.message_id,
                channel_id: row.channel_id,
            }),
            Err(failure) => deleted is None && failure.status == NOT_FOUND && failure.message@
                == "Message not found"@,
        },
{
    match deleted {
        Some(row) => Ok(MessageDeleted { message_id: row.message_id, channel_id: row.channel_id }),
        None => Err(error(NOT_FOUND, "Message not found")),
    }
}

} // verus!
