//! The records that the HTTP interface hands out and takes in, and what its
//! handlers compute between reading a request and querying the store, and
//! between the answer of the store and the response.

use vstd::prelude::*;
use crate::schema::messages::CompleteMessage;
use crate::schema::reactions::ReactionSummary;
use crate::schema::reactions::ReactionSummaryView;
use crate::schema::users::User;
use crate::server::messages::all_valid;
use crate::server::messages::bool_field;
use crate::server::messages::i16_field;
use crate::server::messages::i64_field;
use crate::server::messages::lemma_merge_fields_concat;
use crate::server::messages::lemma_message_field;
use crate::server::messages::lemma_short_wire;
use crate::server::messages::lemma_signed_wire;
use crate::server::messages::lemma_text_field;
use crate::server::messages::message_field;
use crate::server::messages::push_message_fields;
use crate::server::messages::read_bool;
use crate::server::messages::read_i16;
use crate::server::messages::read_i64;
use crate::server::messages::read_message;
use crate::server::messages::read_text;
use crate::server::messages::spec_bool_field;
use crate::server::messages::spec_i16_field;
use crate::server::messages::spec_i64_field;
use crate::server::messages::spec_merge_fields;
use crate::server::messages::spec_message_field;
use crate::server::messages::spec_optional_i64_fields;
use crate::server::messages::spec_read_bool;
use crate::server::messages::spec_read_i16;
use crate::server::messages::spec_read_i64;
use crate::server::messages::spec_read_message;
use crate::server::messages::spec_read_text;
use crate::server::messages::spec_repeated_message_fields;
use crate::server::messages::spec_text_field;
use crate::server::messages::text_field;
use crate::server::messages::views;
use crate::server::messages::RoundTrip;
use crate::server::messages::WireMessage;
use crate::server::wire::fields_view;
use crate::server::wire::valid_fields;
use crate::server::wire::DecodeError;
use crate::server::wire::Field;
use crate::server::wire::FieldView;
use vstd::std_specs::convert::FromSpecImpl;
use vstd::string::StringExecFns;

pub mod auth;
pub mod contacts;
pub mod messages;
pub mod middlewares;
pub mod reactions;
pub mod search;
pub mod user;

verus! {

/// A user as others see them.
#[derive(Clone, Debug, PartialEq, Eq)]
pub struct StandardUser {
    pub id: i64,
    pub name: String,
    pub username: String,
}

/// What a [`StandardUser`] holds.
pub struct StandardUserView {
    pub id: i64,
    pub name: Seq<char>,
    pub username: Seq<char>,
}

impl View for StandardUser {
    type V = StandardUserView;

    open spec fn view(&self) -> StandardUserView {
        StandardUserView { id: self.id, name: self.name@, username: self.username@ }
    }
}

impl WireMessage for StandardUser {
    open spec fn spec_fields(value: StandardUserView) -> Seq<FieldView> {
        seq![
            spec_i64_field(1, value.id),
            spec_text_field(2, value.name),
            spec_text_field(3, value.username),
        ]
    }

    open spec fn spec_empty() -> StandardUserView {
        StandardUserView { id: 0, name: Seq::empty(), username: Seq::empty() }
    }

    open spec fn spec_valid(value: StandardUserView) -> bool {
        valid_fields(Self::spec_fields(value))
    }

    open spec fn spec_merge(value: StandardUserView, field: FieldView) -> Result<
        StandardUserView,
        DecodeError,
    > {
        if field.number == 1 {
            match spec_read_i64(field) {
                Ok(id) => Ok(StandardUserView { id, ..value }),
                Err(e) => Err(e),
            }
        } else if field.number == 2 {
            match spec_read_text(field) {
                Ok(name) => Ok(StandardUserView { name, ..value }),
                Err(e) => Err(e),
            }
        } else if field.number == 3 {
            match spec_read_text(field) {
                Ok(username) => Ok(StandardUserView { username, ..value }),
                Err(e) => Err(e),
            }
        } else {
            Ok(value)
        }
    }

    fn empty() -> (message: Self) {
        StandardUser { id: 0, name: String::new(), username: String::new() }
    }

    fn merge_field(self, field: Field) -> (r: Result<Self, DecodeError>) {
        if field.number == 1 {
            Ok(StandardUser { id: read_i64(&field)?, ..self })
        } else if field.number == 2 {
            Ok(StandardUser { name: read_text(&field)?, ..self })
        } else if field.number == 3 {
            Ok(StandardUser { username: read_text(&field)?, ..self })
        } else {
            Ok(self)
        }
    }

    fn to_fields(&self) -> (fields: Vec<Field>) {
        let mut fields: Vec<Field> = Vec::new();
        fields.push(i64_field(1, self.id));
        fields.push(text_field(2, self.name.as_str()));
        fields.push(text_field(3, self.username.as_str()));
        proof {
            assert(fields_view(fields@) =~= Self::spec_fields(self@));
        }
        fields
    }
}

impl RoundTrip for StandardUser {
    proof fn lemma_merge_fields(value: StandardUserView) {
        reveal_with_fuel(spec_merge_fields, 4);
        lemma_signed_wire(value.id, 0);
        lemma_text_field(2, value.name);
        lemma_text_field(3, value.username);
    }
}

/// A message as a reader sees it: with its author and its reactions.
#[derive(Clone, Debug, PartialEq, Eq)]
pub struct MessageObject {
    pub id: i64,
    pub content: String,
    pub user_id: i64,
    pub channel_id: i64,
    pub receipt: i16,
    pub edited: bool,
    pub author: StandardUser,
    pub reply_to: Option<i64>,
    pub reactions: Vec<ReactionSummary>,
}

/// What a [`MessageObject`] holds.
pub struct MessageObjectView {
    pub id: i64,
    pub content: Seq<char>,
    pub user_id: i64,
    pub channel_id: i64,
    pub receipt: i16,
    pub edited: bool,
    pub author: StandardUserView,
    pub reply_to: Option<i64>,
    pub reactions: Seq<ReactionSummaryView>,
}

impl View for MessageObject {
    type V = MessageObjectView;

    open spec fn view(&self) -> MessageObjectView {
        MessageObjectView {
            id: self.id,
            content: self.content@,
            user_id: self.user_id,
            channel_id: self.channel_id,
            receipt: self.receipt,
            edited: self.edited,
            author: self.author@,
            reply_to: self.reply_to,
            reactions: views(self.reactions@),
        }
    }
}

/// The fields of a [`MessageObject`] that are always written.
pub open spec fn message_object_head(value: MessageObjectView) -> Seq<FieldView> {
    seq![
        spec_i64_field(1, value.id),
        spec_text_field(2, value.content),
        spec_i64_field(3, value.user_id),
        spec_i64_field(4, value.channel_id),
        spec_i16_field(5, value.receipt),
        spec_bool_field(6, value.edited),
        spec_message_field::<StandardUser>(7, value.author),
    ]
}

impl WireMessage for MessageObject {
    open spec fn spec_fields(value: MessageObjectView) -> Seq<FieldView> {
        message_object_head(value)
            + spec_optional_i64_fields(8, value.reply_to)
            + spec_repeated_message_fields::<ReactionSummary>(9, value.reactions)
    }

    open spec fn spec_empty() -> MessageObjectView {
        MessageObjectView {
            id: 0,
            content: Seq::empty(),
            user_id: 0,
            channel_id: 0,
            receipt: 0,
            edited: false,
            author: StandardUser::spec_empty(),
            reply_to: None,
            reactions: Seq::empty(),
        }
    }

    open spec fn spec_valid(value: MessageObjectView) -> bool {
        &&& StandardUser::spec_valid(value.author)
        &&& all_valid::<ReactionSummary>(value.reactions)
        &&& valid_fields(Self::spec_fields(value))
    }

    open spec fn spec_merge(value: MessageObjectView, field: FieldView) -> Result<
        MessageObjectView,
        DecodeError,
    > {
        if field.number == 1 {
            match spec_read_i64(field) {
                Ok(id) => Ok(MessageObjectView { id, ..value }),
                Err(e) => Err(e),
            }
        } else if field.number == 2 {
            match spec_read_text(field) {
                Ok(content) => Ok(MessageObjectView { content, ..value }),
                Err(e) => Err(e),
            }
        } else if field.number == 3 {
            match spec_read_i64(field) {
                Ok(user_id) => Ok(MessageObjectView { user_id, ..value }),
                Err(e) => Err(e),
            }
        } else if field.number == 4 {
            match spec_read_i64(field) {
                Ok(channel_id) => Ok(MessageObjectView { channel_id, ..value }),
                Err(e) => Err(e),
            }
        } else if field.number == 5 {
            match spec_read_i16(field) {
                Ok(receipt) => Ok(MessageObjectView { receipt, ..value }),
                Err(e) => Err(e),
            }
        } else if field.number == 6 {
            match spec_read_bool(field) {
                Ok(edited) => Ok(MessageObjectView { edited, ..value }),
                Err(e) => Err(e),
            }
        } else if field.number == 7 {
            match spec_read_message::<StandardUser>(field) {
                Ok(author) => Ok(MessageObjectView { author, ..value }),
                Err(e) => Err(e),
            }
        } else if field.number == 8 {
            match spec_read_i64(field) {
                Ok(inner) => Ok(MessageObjectView { reply_to: Some(inner), ..value }),
                Err(e) => Err(e),
            }
        } else if field.number == 9 {
            match spec_read_message::<ReactionSummary>(field) {
                Ok(last) => Ok(
                    MessageObjectView { reactions: value.reactions.push(last), ..value },
                ),
                Err(e) => Err(e),
            }
        } else {
            Ok(value)
        }
    }

    fn empty() -> (message: Self) {
        let message = MessageObject {
            id: 0,
            content: String::new(),
            user_id: 0,
            channel_id: 0,
            receipt: 0,
            edited: false,
            author: StandardUser::empty(),
            reply_to: None,
            reactions: Vec::new(),
        };
        proof {
            assert(views(message.reactions@) =~= Seq::empty());
        }
        message
    }

    fn merge_field(self, field: Field) -> (r: Result<Self, DecodeError>) {
        if field.number == 1 {
            Ok(MessageObject { id: read_i64(&field)?, ..self })
        } else if field.number == 2 {
            Ok(MessageObject { content: read_text(&field)?, ..self })
        } else if field.number == 3 {
            Ok(MessageObject { user_id: read_i64(&field)?, ..self })
        } else if field.number == 4 {
            Ok(MessageObject { channel_id: read_i64(&field)?, ..self })
        } else if field.number == 5 {
            Ok(MessageObject { receipt: read_i16(&field)?, ..self })
        } else if field.number == 6 {
            Ok(MessageObject { edited: read_bool(&field)?, ..self })
        } else if field.number == 7 {
            Ok(MessageObject { author: read_message::<StandardUser>(&field)?, ..self })
        } else if field.number == 8 {
            Ok(MessageObject { reply_to: Some(read_i64(&field)?), ..self })
        } else if field.number == 9 {
            let last = read_message::<ReactionSummary>(&field)?;
            let mut message = self;
            message.reactions.push(last);
            proof {
                assert(views(message.reactions@) =~= views(self.reactions@).push(last@));
            }
            Ok(message)
        } else {
            Ok(self)
        }
    }

    fn to_fields(&self) -> (fields: Vec<Field>) {
        let mut fields: Vec<Field> = Vec::new();
        fields.push(i64_field(1, self.id));
        fields.push(text_field(2, self.content.as_str()));
        fields.push(i64_field(3, self.user_id));
        fields.push(i64_field(4, self.channel_id));
        fields.push(i16_field(5, self.receipt));
        fields.push(bool_field(6, self.edited));
        fields.push(message_field(7, &self.author));
        proof {
            assert(fields_view(fields@) =~= message_object_head(self@));
        }
        if let Some(inner) = self.reply_to {
            fields.push(i64_field(8, inner));
        }
        proof {
            assert(fields_view(fields@) =~= message_object_head(self@)
                + spec_optional_i64_fields(8, self.reply_to));
        }
        push_message_fields(&mut fields, 9, &self.reactions);
        fields
    }
}

/// Reading the fields of a list of records appends the records.
proof fn lemma_merge_reactions(value: MessageObjectView, reactions: Seq<ReactionSummaryView>)
    requires
        all_valid::<ReactionSummary>(reactions),
    ensures
        spec_merge_fields::<MessageObject>(
            value,
            spec_repeated_message_fields::<ReactionSummary>(9, reactions),
        ) == Ok::<MessageObjectView, DecodeError>(
            MessageObjectView { reactions: value.reactions + reactions, ..value },
        ),
    decreases reactions.len(),
{
    let fields = spec_repeated_message_fields::<ReactionSummary>(9, reactions);
    if reactions.len() == 0 {
        assert(value.reactions + reactions =~= value.reactions);
    } else {
        let first = reactions[0];
        let rest = reactions.skip(1);
        let next = MessageObjectView { reactions: value.reactions.push(first), ..value };
        lemma_message_field::<ReactionSummary>(9, first);
        assert(fields.skip(1) =~= spec_repeated_message_fields::<ReactionSummary>(9, rest));
        lemma_merge_reactions(next, rest);
        assert(next.reactions + rest =~= value.reactions + reactions);
    }
}

impl RoundTrip for MessageObject {
    proof fn lemma_merge_fields(value: MessageObjectView) {
        let head = message_object_head(value);
        let optional = spec_optional_i64_fields(8, value.reply_to);
        let repeated = spec_repeated_message_fields::<ReactionSummary>(9, value.reactions);
        let empty = Self::spec_empty();
        let after_head = MessageObjectView { reply_to: None, reactions: Seq::empty(), ..value };
        let after_optional = MessageObjectView { reactions: Seq::empty(), ..value };
        assert(spec_merge_fields::<MessageObject>(empty, head) == Ok::<
            MessageObjectView,
            DecodeError,
        >(after_head)) by {
            reveal_with_fuel(spec_merge_fields, 8);
            lemma_signed_wire(value.id, 0);
            lemma_text_field(2, value.content);
            lemma_signed_wire(value.user_id, 0);
            lemma_signed_wire(value.channel_id, 0);
            lemma_short_wire(value.receipt);
            lemma_message_field::<StandardUser>(7, value.author);
        }
        assert(spec_merge_fields::<MessageObject>(after_head, optional) == Ok::<
            MessageObjectView,
            DecodeError,
        >(after_optional)) by {
            reveal_with_fuel(spec_merge_fields, 2);
            if let Some(inner) = value.reply_to {
                lemma_signed_wire(inner, 0);
            }
        }
        lemma_merge_reactions(after_optional, value.reactions);
        assert(after_optional.reactions + value.reactions =~= value.reactions);
        lemma_merge_fields_concat::<MessageObject>(empty, head, optional);
        lemma_merge_fields_concat::<MessageObject>(empty, head + optional, repeated);
    }
}

impl StandardUser {
    /// `user` as others see them.
    pub fn from_user(user: &User) -> (standard: StandardUser)
        ensures
            standard@ == (StandardUserView {
                id: user.user_id,
                name: user.name@,
                username: user.username@,
            }),
    {
        StandardUser { id: user.user_id, name: user.name.clone(), username: user.username.clone() }
    }
}

impl MessageObject {
    /// The message of a row of the listing, with the reactions that the row
    /// names.
    pub fn from_row(row: CompleteMessage, reactions: Vec<ReactionSummary>) -> (message:
        MessageObject)
        ensures
            message@ == (MessageObjectView {
                id: row.message_id,
                content: row.content@,
                user_id: row.user_id,
                channel_id: row.channel_id,
                receipt: row.reception_status,
                edited: row.edited,
                author: StandardUserView {
                    id: row.user_id,
                    name: row.author_name@,
                    username: row.author_username@,
                },
                reply_to: row.reply_to,
                reactions: views(reactions@),
            }),
    {
        MessageObject {
            id: row.message_id,
            content: row.content,
            user_id: row.user_id,
            channel_id: row.channel_id,
            receipt: row.reception_status,
            edited: row.edited,
            author: StandardUser {
                id: row.user_id,
                name: row.author_name,
                username: row.author_username,
            },
            reply_to: row.reply_to,
            reactions,
        }
    }
}

/// Status of a request that cannot be read.
pub const BAD_REQUEST: u16 = 400;

/// Status of a request without valid credentials.
pub const UNAUTHORIZED: u16 = 401;

/// Status of a request that its sender may not make.
pub const FORBIDDEN: u16 = 403;

/// Status of a request for what is not there.
pub const NOT_FOUND: u16 = 404;

/// Status of a request that the store failed on.
pub const INTERNAL_SERVER_ERROR: u16 = 500;

/// The body of a response that reports a failure.
#[derive(Clone, Debug, PartialEq, Eq)]
pub struct IrisError {
    pub status: u16,
    pub message: String,
}

/// The failure with the status `status` and the message `message`.
pub fn error(status: u16, message: &str) -> (failure: IrisError)
    ensures
        failure.status == status,
        failure.message@ == message@,
{
    IrisError { status, message: String::from_str(message) }
}

/// A user as they see themselves.
#[derive(Clone, Debug, PartialEq, Eq)]
pub struct UserSelfResponse {
    pub id: i64,
    pub name: String,
    pub username: String,
    pub email: String,
}

impl From<User> for UserSelfResponse {
    fn from(user: User) -> (response: UserSelfResponse) {
        UserSelfResponse {
            id: user.user_id,
            name: user.name,
            username: user.username,
            email: user.email,
        }
    }
}

impl FromSpecImpl<User> for UserSelfResponse {
    open spec fn obeys_from_spec() -> bool {
        true
    }

    open spec fn from_spec(user: User) -> UserSelfResponse {
        UserSelfResponse {
            id: user.user_id,
            name: user.name,
            username: user.username,
            email: user.email,
        }
    }
}

/// A user and the token that speaks for them.
#[derive(Clone, Debug, PartialEq, Eq)]
pub struct UserAuthResponse {
    pub user: UserSelfResponse,
    pub token: String,
}

/// The last message of a channel, in short.
#[derive(Clone, Debug, PartialEq, Eq)]
pub struct PrimordialMessage {
    pub id: i64,
    pub content: String,
    pub receipt: i16,
}

/// A contact with the channel shared with them.
#[derive(Clone, Debug, PartialEq, Eq)]
pub struct ContactResponse {
    pub user_id: i64,
    pub channel_id: i64,
    pub name: String,
    pub username: String,
    pub last_message: Option<PrimordialMessage>,
    pub unread_count: i64,
}

/// The wish to react to a message: with a reaction that exists, named by
/// its id, or else with an emoji.
#[derive(Clone, Debug, PartialEq, Eq)]
pub struct ReactionAddRequest {
    pub reaction_id: Option<i32>,
    pub reaction_type: String,
}

/// The reaction that a user joined, and how many have joined it.
#[derive(Clone, Copy, Debug, PartialEq, Eq, Structural)]
pub struct ReactionAddResponse {
    pub reaction_id: i32,
    pub reaction_count: i32,
}

/// The users that a search found.
#[derive(Clone, Debug, PartialEq, Eq)]
pub struct GeneralSearchResponse {
    pub users: Vec<StandardUser>,
}

/// The channel between two users.
#[derive(Clone, Copy, Debug, PartialEq, Eq)]
pub struct PrivateChannel {
    pub channel_id: i64,
}

} // verus!
