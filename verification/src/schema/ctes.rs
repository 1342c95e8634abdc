//! The query text that every listing of messages shares.

use vstd::prelude::*;
use vstd::string::StringExecFns;

verus! {

/// The reactions to every message, each with whether the reader is among
/// those who reacted. The reader is the first parameter of the query.
pub const REACTIONS_WITH_ME: &'static str = r#"
WITH reactions_with_me AS (
    SELECT
        reactions.reaction_id,
        reactions.message_id,
        reactions.emoji,
        reactions.reaction_count,
        bool_or(reaction_users.user_id = $1) AS me
    FROM
        reactions
    LEFT JOIN reaction_users ON reactions.reaction_id = reaction_users.reaction_id
    GROUP BY
        reactions.reaction_id, reactions.message_id, reactions.emoji, reactions.reaction_count
)
"#;

/// The columns of a message with its author and its reactions.
pub const SELECT_MESSAGES: &'static str = r#"
SELECT
    qm.message_id,
    qm.user_id,
    qm.content,
    qm.channel_id,
    qm.reception_status,
    qm.edited,
    qm.reply_to,
    u.name AS author_name,
    u.username AS author_username,
    COALESCE(
        json_agg(
            json_build_object(
                'reaction_id', reactions_with_me.reaction_id,
                'count', reactions_with_me.reaction_count,
                'me', reactions_with_me.me,
                'emoji', reactions_with_me.emoji
            )
        ) FILTER (WHERE reactions_with_me.message_id IS NOT NULL AND reactions_with_me.reaction_count > 0),
        '[]'
    ) AS reactions
"#;

/// What stands between the reactions and the statement that yields the
/// messages.
pub const QUERYING_MESSAGES_HEAD: &'static str = ",\nquerying_messages AS (\n";

/// What closes the statement that yields the messages.
pub const QUERYING_MESSAGES_TAIL: &'static str = "\n)\n";

/// The joins, the grouping and the order of the listing.
pub const FROM_QUERYING_MESSAGES: &'static str = r#"
FROM querying_messages qm
LEFT JOIN reactions_with_me ON reactions_with_me.message_id = qm.message_id
LEFT JOIN users u ON qm.user_id = u.user_id
GROUP BY
    qm.message_id, qm.user_id, qm.content, qm.channel_id, qm.reception_status, qm.edited, qm.reply_to, u.name, u.username
ORDER BY
    qm.message_id DESC
"#;

/// The text of the query that lists the messages which the statement `from`
/// yields.
pub open spec fn spec_select_messages_from(from: Seq<char>) -> Seq<char> {
    "\n"@ + REACTIONS_WITH_ME@ + QUERYING_MESSAGES_HEAD@ + from + QUERYING_MESSAGES_TAIL@
        + SELECT_MESSAGES@ + FROM_QUERYING_MESSAGES@
}

/// The query that lists, newest first and each with its author and its
/// reactions, the messages which the statement `from` yields.
pub fn select_messages_from(from: &str) -> (query: String)
    ensures
        query@ == spec_select_messages_from(from@),
{
    let mut query = String::from_str("\n");
    query.append(REACTIONS_WITH_ME);
    query.append(QUERYING_MESSAGES_HEAD);
    query.append(from);
    query.append(QUERYING_MESSAGES_TAIL);
    query.append(SELECT_MESSAGES);
    query.append(FROM_QUERYING_MESSAGES);
    query
}

} // verus!
