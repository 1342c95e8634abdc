//! Adding and removing reactions.
//!
//! Adding a reaction takes up to three statements in one transaction. Which
//! statement comes next is decided here, and so is that a statement which
//! fails undoes the transaction; running the statements is for the caller.

use vstd::prelude::*;
use crate::server::gateway::messages::ReactionAdded;
use crate::server::gateway::messages::ReactionAddedView;
use crate::server::gateway::messages::ReactionRemoved;
use crate::server::gateway::messages::ReactionRemovedView;
use crate::server::rest::error;
use crate::server::rest::IrisError;
use crate::server::rest::ReactionAddResponse;
use crate::server::rest::INTERNAL_SERVER_ERROR;

verus! {

/// The next statement of a transaction that adds a reaction.
#[allow(inconsistent_fields)]
#[derive(Clone, Copy, Debug, PartialEq, Eq, Structural)]
pub enum ReactionStep {
    /// Raise the count of the reaction with this id by one. The statement
    /// yields the new count.
    RaiseById { reaction_id: i32 },
    /// Raise the count of the reaction to the message with the emoji of
    /// the request by one. The statement yields the id and the new count,
    /// if there is such a reaction.
    RaiseByEmoji,
    /// Store a reaction to the message with the emoji of the request. The
    /// statement yields the id of the reaction, whose count is one.
    Insert,
    /// Store that the user has joined the reaction with this id, which now
    /// has this count. Nothing follows.
    Join { reaction_id: i32, reaction_count: i32 },
    /// Undo what the transaction has done. Nothing follows, and the
    /// request has failed.
    RollBack,
}

/// What the statement before gave.
#[allow(inconsistent_fields)]
#[derive(Clone, Copy, Debug, PartialEq, Eq, Structural)]
pub enum ReactionEvent {
    /// Nothing has run yet. The request names this reaction, or none.
    Start { reaction_id: Option<i32> },
    /// [`ReactionStep::RaiseById`] gave the new count.
    RaisedById { reaction_id: i32, reaction_count: i32 },
    /// [`ReactionStep::RaiseByEmoji`] gave the id and the new count of the
    /// reaction it found, or found none.
    RaisedByEmoji { found: Option<ReactionAddResponse> },
    /// [`ReactionStep::Insert`] gave the id of the new reaction.
    Inserted { reaction_id: i32 },
    /// The statement failed.
    Failed,
}

/// The statement that follows `event`.
///
/// A request that names a reaction raises that reaction. A request that
/// names none raises the reaction with its emoji, and stores one where
/// there is none, with the count one. Once the reaction and its count are
/// known, the user joins it. A statement that fails undoes the
/// transaction.
pub open spec fn spec_add_reaction(event: ReactionEvent) -> ReactionStep {
    match event {
        ReactionEvent::Start { reaction_id: Some(reaction_id) } => ReactionStep::RaiseById {
            reaction_id,
        },
        ReactionEvent::Start { reaction_id: None } => ReactionStep::RaiseByEmoji,
        ReactionEvent::RaisedById { reaction_id, reaction_count } => ReactionStep::Join {
            reaction_id,
            reaction_count,
        },
        ReactionEvent::RaisedByEmoji { found: Some(raised) } => ReactionStep::Join {
            reaction_id: raised.reaction_id,
            reaction_count: raised.reaction_count,
        },
        ReactionEvent::RaisedByEmoji { found: None } => ReactionStep::Insert,
        ReactionEvent::Inserted { reaction_id } => ReactionStep::Join {
            reaction_id,
            reaction_count: 1,
        },
        ReactionEvent::Failed => ReactionStep::RollBack,
    }
}

/// The statement that follows `event` in the transaction that adds a
/// reaction.
pub fn add_reaction(event: ReactionEvent) -> (step: ReactionStep)
    ensures
        step == spec_add_reaction(event),
{
    match event {
        ReactionEvent::Start { reaction_id: Some(reaction_id) } => ReactionStep::RaiseById {
            reaction_id,
        },
        ReactionEvent::Start { reaction_id: None } => ReactionStep::RaiseByEmoji,
        ReactionEvent::RaisedById { reaction_id, reaction_count } => ReactionStep::Join {
            reaction_id,
            reaction_count,
        },
        ReactionEvent::RaisedByEmoji { found: Some(raised) } => ReactionStep::Join {
            reaction_id: raised.reaction_id,
            reaction_count: raised.reaction_count,
        },
        ReactionEvent::RaisedByEmoji { found: None } => ReactionStep::Insert,
        ReactionEvent::Inserted { reaction_id } => ReactionStep::Join {
            reaction_id,
            reaction_count: 1,
        },
        ReactionEvent::Failed => ReactionStep::RollBack,
    }
}

/// Every transaction that adds a reaction and in which no statement fails
/// ends with the user joining the reaction, after three statements at
/// most, and a reaction that the transaction stored has the count one.
pub proof fn lemma_add_reaction_ends(
    requested: Option<i32>,
    raised: i32,
    found: Option<ReactionAddResponse>,
    inserted: i32,
)
    ensures
        match spec_add_reaction(ReactionEvent::Start { reaction_id: requested }) {
            ReactionStep::RaiseById { reaction_id } => requested == Some(reaction_id)
                && spec_add_reaction(
                ReactionEvent::RaisedById { reaction_id, reaction_count: raised },
            ) == (ReactionStep::Join { reaction_id, reaction_count: raised }),
            ReactionStep::RaiseByEmoji => requested is None && match spec_add_reaction(
                ReactionEvent::RaisedByEmoji { found },
            ) {
                ReactionStep::Join { reaction_id, reaction_count } => found == Some(
                    ReactionAddResponse { reaction_id, reaction_count },
                ),
                ReactionStep::Insert => found is None && spec_add_reaction(
                    ReactionEvent::Inserted { reaction_id: inserted },
                ) == (ReactionStep::Join { reaction_id: inserted, reaction_count: 1 }),
                _ => false,
            },
            _ => false,
        },
{
}

/// The packet that tells a channel of a reaction that a user joined, and
/// the answer to that user. `joined` is the reaction and its count, as the
/// transaction left them, or nothing where the transaction was undone:
/// then there is no packet, and the request has failed.
pub fn reaction_added(
    channel_id: i64,
    message_id: i64,
    user_id: i64,
    emoji: String,
    joined: Option<ReactionAddResponse>,
) -> (added: Result<(ReactionAdded, ReactionAddResponse), IrisError>)
    ensures
        match added {
            Ok(pair) => {
                &&& joined == Some(pair.1)
                &&& pair.0@ == (ReactionAddedView {
                    message_id,
                    user_id,
                    emoji: emoji@,
                    reaction_count: pair.1.reaction_count,
                    reaction_id: pair.1.reaction_id,
                    channel_id,
                })
            },
            Err(failure) => joined is None && failure.status == INTERNAL_SERVER_ERROR
                && failure.message@ == "Failed to add reaction"@,
        },
{
    match joined {
        Some(response) => Ok(
            (
                ReactionAdded {
                    message_id,
                    user_id,
                    emoji,
                    reaction_count: response.reaction_count,
                    reaction_id: response.reaction_id,
                    channel_id,
                },
                response,
            ),
        ),
        None => Err(error(INTERNAL_SERVER_ERROR, "Failed to add reaction")),
    }
}

/// The packet that tells a channel of a reaction that a user left.
/// `reaction_count` is the count that the transaction left the reaction
/// with, or nothing where the transaction was undone: then there is no
/// packet, and the request has failed. The packet names no emoji.
pub fn remove_reaction(
    channel_id: i64,
    message_id: i64,
    user_id: i64,
    reaction_id: i32,
    reaction_count: Option<i32>,
) -> (removed: Result<ReactionRemoved, IrisError>)
    ensures
        match removed {
            Ok(packet) => reaction_count matches Some(count) && packet@ == (ReactionRemovedView {
                message_id,
                user_id,
                emoji: Seq::empty(),
                reaction_count: count,
                reaction_id,
                channel_id,
            }),
            Err(failure) => reaction_count is None && failure.status == INTERNAL_SERVER_ERROR
                && failure.message@ == "Failed to remove reaction"@,
        },
{
    match reaction_count {
        Some(count) => Ok(
            ReactionRemoved {
                message_id,
                user_id,
                emoji: String::new(),
                reaction_count: count,
                reaction_id,
                channel_id,
            },
        ),
        None => Err(error(INTERNAL_SERVER_ERROR, "Failed to remove reaction")),
    }
}

} // verus!
