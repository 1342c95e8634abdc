//! The packets of the protocol, by direction.
//!
//! Every packet writes each of its fields, in the order it declares them and
//! numbered from one, whatever the field holds. An absent optional field is
//! left out, and a list writes one field for each of its entries, or its
//! numbers packed into one field. On reading, fields may come in any order.
//! A field that comes again takes the place of the one before, except that
//! the entries of a list add up. Numbers that the packet does not know are
//! skipped.

use vstd::prelude::*;
use crate::server::messages::i32_field;
use crate::server::messages::i64_field;
use crate::server::messages::lemma_decode_encode;
use crate::server::messages::lemma_message_field;
use crate::server::messages::lemma_parse_packed_i64;
use crate::server::messages::lemma_signed_wire;
use crate::server::messages::lemma_text_field;
use crate::server::messages::message_field;
use crate::server::messages::packed_i64_field;
use crate::server::messages::read_i32;
use crate::server::messages::read_i64;
use crate::server::messages::read_message;
use crate::server::messages::read_repeated_i64;
use crate::server::messages::read_text;
use crate::server::messages::spec_decode;
use crate::server::messages::spec_encode;
use crate::server::messages::spec_i32_field;
use crate::server::messages::spec_i64_field;
use crate::server::messages::spec_merge_fields;
use crate::server::messages::spec_message_field;
use crate::server::messages::spec_packed_i64_field;
use crate::server::messages::spec_read_i32;
use crate::server::messages::spec_read_i64;
use crate::server::messages::spec_read_message;
use crate::server::messages::spec_read_repeated_i64;
use crate::server::messages::spec_read_text;
use crate::server::messages::spec_text_field;
use crate::server::messages::text_field;
use crate::server::messages::Packet;
use crate::server::messages::PacketMessage;
use crate::server::messages::PacketMessageView;
use crate::server::messages::PacketStaticId;
use crate::server::messages::RoundTrip;
use crate::server::messages::WireMessage;
use crate::server::rest::MessageObject;
use crate::server::rest::MessageObjectView;
use crate::server::rest::StandardUser;
use crate::server::rest::StandardUserView;
use crate::server::wire::fields_view;
use crate::server::wire::valid_fields;
use crate::server::wire::DecodeError;
use crate::server::wire::Field;
use crate::server::wire::FieldView;

verus! {

// SERVERBOUND

/// The sender has read a channel.
#[derive(Clone, Copy, Debug, PartialEq, Eq)]
pub struct ChannelRead {
    pub channel_id: i64,
}

impl View for ChannelRead {
    type V = ChannelRead;

    open spec fn view(&self) -> ChannelRead {
        *self
    }
}

impl WireMessage for ChannelRead {
    open spec fn spec_fields(value: ChannelRead) -> Seq<FieldView> {
        seq![spec_i64_field(1, value.channel_id)]
    }

    open spec fn spec_empty() -> ChannelRead {
        ChannelRead { channel_id: 0 }
    }

    open spec fn spec_valid(value: ChannelRead) -> bool {
        valid_fields(Self::spec_fields(value))
    }

    open spec fn spec_merge(value: ChannelRead, field: FieldView) -> Result<
        ChannelRead,
        DecodeError,
    > {
        if field.number == 1 {
            match spec_read_i64(field) {
                Ok(channel_id) => Ok(ChannelRead { channel_id }),
                Err(e) => Err(e),
            }
        } else {
            Ok(value)
        }
    }

    fn empty() -> (message: Self) {
        ChannelRead { channel_id: 0 }
    }

    fn merge_field(self, field: Field) -> (r: Result<Self, DecodeError>) {
        if field.number == 1 {
            Ok(ChannelRead { channel_id: read_i64(&field)? })
        } else {
            Ok(self)
        }
    }

    fn to_fields(&self) -> (fields: Vec<Field>) {
        let mut fields: Vec<Field> = Vec::new();
        fields.push(i64_field(1, self.channel_id));
        proof {
            assert(fields_view(fields@) =~= Self::spec_fields(self@));
        }
        fields
    }
}

impl RoundTrip for ChannelRead {
    proof fn lemma_merge_fields(value: ChannelRead) {
        reveal_with_fuel(spec_merge_fields, 2);
        lemma_signed_wire(value.channel_id, 0);
    }
}

impl PacketStaticId for ChannelRead {
    open spec fn spec_static_id() -> i32 {
        1
    }

    fn get_id() -> (id: i32) {
        1
    }
}

impl Packet for ChannelRead {
    fn get_id(&self) -> (id: i32) {
        1
    }
}

/// The sender is typing in a channel.
#[derive(Clone, Copy, Debug, PartialEq, Eq)]
pub struct TypingRequest {
    pub channel_id: i64,
}

impl View for TypingRequest {
    type V = TypingRequest;

    open spec fn view(&self) -> TypingRequest {
        *self
    }
}

impl WireMessage for TypingRequest {
    open spec fn spec_fields(value: TypingRequest) -> Seq<FieldView> {
        seq![spec_i64_field(1, value.channel_id)]
    }

    open spec fn spec_empty() -> TypingRequest {
        TypingRequest { channel_id: 0 }
    }

    open spec fn spec_valid(value: TypingRequest) -> bool {
        valid_fields(Self::spec_fields(value))
    }

    open spec fn spec_merge(value: TypingRequest, field: FieldView) -> Result<
        TypingRequest,
        DecodeError,
    > {
        if field.number == 1 {
            match spec_read_i64(field) {
                Ok(channel_id) => Ok(TypingRequest { channel_id }),
                Err(e) => Err(e),
            }
        } else {
            Ok(value)
        }
    }

    fn empty() -> (message: Self) {
        TypingRequest { channel_id: 0 }
    }

    fn merge_field(self, field: Field) -> (r: Result<Self, DecodeError>) {
        if field.number == 1 {
            Ok(TypingRequest { channel_id: read_i64(&field)? })
        } else {
            Ok(self)
        }
    }

    fn to_fields(&self) -> (fields: Vec<Field>) {
        let mut fields: Vec<Field> = Vec::new();
        fields.push(i64_field(1, self.channel_id));
        proof {
            assert(fields_view(fields@) =~= Self::spec_fields(self@));
        }
        fields
    }
}

impl RoundTrip for TypingRequest {
    proof fn lemma_merge_fields(value: TypingRequest) {
        reveal_with_fuel(spec_merge_fields, 2);
        lemma_signed_wire(value.channel_id, 0);
    }
}

impl PacketStaticId for TypingRequest {
    open spec fn spec_static_id() -> i32 {
        2
    }

    fn get_id() -> (id: i32) {
        2
    }
}

impl Packet for TypingRequest {
    fn get_id(&self) -> (id: i32) {
        2
    }
}

// CLIENTBOUND

/// A message was created.
#[derive(Clone, Debug, PartialEq, Eq)]
pub struct MessageCreated {
    pub message: MessageObject,
}

/// What a [`MessageCreated`] holds.
pub struct MessageCreatedView {
    pub message: MessageObjectView,
}

impl View for MessageCreated {
    type V = MessageCreatedView;

    open spec fn view(&self) -> MessageCreatedView {
        MessageCreatedView { message: self.message@ }
    }
}

impl WireMessage for MessageCreated {
    open spec fn spec_fields(value: MessageCreatedView) -> Seq<FieldView> {
        seq![spec_message_field::<MessageObject>(1, value.message)]
    }

    open spec fn spec_empty() -> MessageCreatedView {
        MessageCreatedView { message: MessageObject::spec_empty() }
    }

    open spec fn spec_valid(value: MessageCreatedView) -> bool {
        &&& MessageObject::spec_valid(value.message)
        &&& valid_fields(Self::spec_fields(value))
    }

    open spec fn spec_merge(value: MessageCreatedView, field: FieldView) -> Result<
        MessageCreatedView,
        DecodeError,
    > {
        if field.number == 1 {
            match spec_read_message::<MessageObject>(field) {
                Ok(message) => Ok(MessageCreatedView { message }),
                Err(e) => Err(e),
            }
        } else {
            Ok(value)
        }
    }

    fn empty() -> (message: Self) {
        MessageCreated { message: MessageObject::empty() }
    }

    fn merge_field(self, field: Field) -> (r: Result<Self, DecodeError>) {
        if field.number == 1 {
            Ok(MessageCreated { message: read_message::<MessageObject>(&field)? })
        } else {
            Ok(self)
        }
    }

    fn to_fields(&self) -> (fields: Vec<Field>) {
        let mut fields: Vec<Field> = Vec::new();
        fields.push(message_field(1, &self.message));
        proof {
            assert(fields_view(fields@) =~= Self::spec_fields(self@));
        }
        fields
    }
}

impl RoundTrip for MessageCreated {
    proof fn lemma_merge_fields(value: MessageCreatedView) {
        reveal_with_fuel(spec_merge_fields, 2);
        lemma_message_field::<MessageObject>(1, value.message);
    }
}

impl PacketStaticId for MessageCreated {
    open spec fn spec_static_id() -> i32 {
        2
    }

    fn get_id() -> (id: i32) {
        2
    }
}

impl Packet for MessageCreated {
    fn get_id(&self) -> (id: i32) {
        2
    }
}

/// Messages were read.
#[derive(Clone, Debug, PartialEq, Eq)]
pub struct MessagesRead {
    pub reader_id: i64,
    pub message_ids: Vec<i64>,
}

/// What a [`MessagesRead`] holds.
pub struct MessagesReadView {
    pub reader_id: i64,
    pub message_ids: Seq<i64>,
}

impl View for MessagesRead {
    type V = MessagesReadView;

    open spec fn view(&self) -> MessagesReadView {
        MessagesReadView { reader_id: self.reader_id, message_ids: self.message_ids@ }
    }
}

impl WireMessage for MessagesRead {
    open spec fn spec_fields(value: MessagesReadView) -> Seq<FieldView> {
        seq![spec_i64_field(1, value.reader_id), spec_packed_i64_field(2, value.message_ids)]
    }

    open spec fn spec_empty() -> MessagesReadView {
        MessagesReadView { reader_id: 0, message_ids: Seq::empty() }
    }

    open spec fn spec_valid(value: MessagesReadView) -> bool {
        valid_fields(Self::spec_fields(value))
    }

    open spec fn spec_merge(value: MessagesReadView, field: FieldView) -> Result<
        MessagesReadView,
        DecodeError,
    > {
        if field.number == 1 {
            match spec_read_i64(field) {
                Ok(reader_id) => Ok(MessagesReadView { reader_id, ..value }),
                Err(e) => Err(e),
            }
        } else if field.number == 2 {
            match spec_read_repeated_i64(field) {
                Ok(more) => Ok(MessagesReadView { message_ids: value.message_ids + more, ..value }),
                Err(e) => Err(e),
            }
        } else {
            Ok(value)
        }
    }

    fn empty() -> (message: Self) {
        MessagesRead { reader_id: 0, message_ids: Vec::new() }
    }

    fn merge_field(self, field: Field) -> (r: Result<Self, DecodeError>) {
        if field.number == 1 {
            Ok(MessagesRead { reader_id: read_i64(&field)?, ..self })
        } else if field.number == 2 {
            let mut message = self;
            message.message_ids = read_repeated_i64(&field, message.message_ids)?;
            Ok(message)
        } else {
            Ok(self)
        }
    }

    fn to_fields(&self) -> (fields: Vec<Field>) {
        let mut fields: Vec<Field> = Vec::new();
        fields.push(i64_field(1, self.reader_id));
        fields.push(packed_i64_field(2, &self.message_ids));
        proof {
            assert(fields_view(fields@) =~= Self::spec_fields(self@));
        }
        fields
    }
}

impl RoundTrip for MessagesRead {
    proof fn lemma_merge_fields(value: MessagesReadView) {
        reveal_with_fuel(spec_merge_fields, 3);
        lemma_signed_wire(value.reader_id, 0);
        lemma_parse_packed_i64(value.message_ids);
        assert(Seq::<i64>::empty() + value.message_ids =~= value.message_ids);
    }
}

impl PacketStaticId for MessagesRead {
    open spec fn spec_static_id() -> i32 {
        3
    }

    fn get_id() -> (id: i32) {
        3
    }
}

impl Packet for MessagesRead {
    fn get_id(&self) -> (id: i32) {
        3
    }
}

/// Somebody is typing in a channel.
#[derive(Clone, Debug, PartialEq, Eq)]
pub struct ChannelTyping {
    pub user: StandardUser,
    pub channel_id: i64,
}

/// What a [`ChannelTyping`] holds.
pub struct ChannelTypingView {
    pub user: StandardUserView,
    pub channel_id: i64,
}

impl View for ChannelTyping {
    type V = ChannelTypingView;

    open spec fn view(&self) -> ChannelTypingView {
        ChannelTypingView { user: self.user@, channel_id: self.channel_id }
    }
}

impl WireMessage for ChannelTyping {
    open spec fn spec_fields(value: ChannelTypingView) -> Seq<FieldView> {
        seq![spec_message_field::<StandardUser>(1, value.user), spec_i64_field(2, value.channel_id)]
    }

    open spec fn spec_empty() -> ChannelTypingView {
        ChannelTypingView { user: StandardUser::spec_empty(), channel_id: 0 }
    }

    open spec fn spec_valid(value: ChannelTypingView) -> bool {
        &&& StandardUser::spec_valid(value.user)
        &&& valid_fields(Self::spec_fields(value))
    }

    open spec fn spec_merge(value: ChannelTypingView, field: FieldView) -> Result<
        ChannelTypingView,
        DecodeError,
    > {
        if field.number == 1 {
            match spec_read_message::<StandardUser>(field) {
                Ok(user) => Ok(ChannelTypingView { user, ..value }),
                Err(e) => Err(e),
            }
        } else if field.number == 2 {
            match spec_read_i64(field) {
                Ok(channel_id) => Ok(ChannelTypingView { channel_id, ..value }),
                Err(e) => Err(e),
            }
        } else {
            Ok(value)
        }
    }

    fn empty() -> (message: Self) {
        ChannelTyping { user: StandardUser::empty(), channel_id: 0 }
    }

    fn merge_field(self, field: Field) -> (r: Result<Self, DecodeError>) {
        if field.number == 1 {
            Ok(ChannelTyping { user: read_message::<StandardUser>(&field)?, ..self })
        } else if field.number == 2 {
            Ok(ChannelTyping { channel_id: read_i64(&field)?, ..self })
        } else {
            Ok(self)
        }
    }

    fn to_fields(&self) -> (fields: Vec<Field>) {
        let mut fields: Vec<Field> = Vec::new();
        fields.push(message_field(1, &self.user));
        fields.push(i64_field(2, self.channel_id));
        proof {
            assert(fields_view(fields@) =~= Self::spec_fields(self@));
        }
        fields
    }
}

impl RoundTrip for ChannelTyping {
    proof fn lemma_merge_fields(value: ChannelTypingView) {
        reveal_with_fuel(spec_merge_fields, 3);
        lemma_message_field::<StandardUser>(1, value.user);
        lemma_signed_wire(value.channel_id, 0);
    }
}

impl PacketStaticId for ChannelTyping {
    open spec fn spec_static_id() -> i32 {
        4
    }

    fn get_id() -> (id: i32) {
        4
    }
}

impl Packet for ChannelTyping {
    fn get_id(&self) -> (id: i32) {
        4
    }
}

/// A message was edited.
#[derive(Clone, Debug, PartialEq, Eq)]
pub struct MessageEdited {
    pub message_id: i64,
    pub channel_id: i64,
    pub editor_id: i64,
    pub new_content: String,
}

/// What a [`MessageEdited`] holds.
pub struct MessageEditedView {
    pub message_id: i64,
    pub channel_id: i64,
    pub editor_id: i64,
    pub new_content: Seq<char>,
}

impl View for MessageEdited {
    type V = MessageEditedView;

    open spec fn view(&self) -> MessageEditedView {
        MessageEditedView {
            message_id: self.message_id,
            channel_id: self.channel_id,
            editor_id: self.editor_id,
            new_content: self.new_content@,
        }
    }
}

impl WireMessage for MessageEdited {
    open spec fn spec_fields(value: MessageEditedView) -> Seq<FieldView> {
        seq![
            spec_i64_field(1, value.message_id),
            spec_i64_field(2, value.channel_id),
            spec_i64_field(3, value.editor_id),
            spec_text_field(4, value.new_content),
        ]
    }

    open spec fn spec_empty() -> MessageEditedView {
        MessageEditedView { message_id: 0, channel_id: 0, editor_id: 0, new_content: Seq::empty() }
    }

    open spec fn spec_valid(value: MessageEditedView) -> bool {
        valid_fields(Self::spec_fields(value))
    }

    open spec fn spec_merge(value: MessageEditedView, field: FieldView) -> Result<
        MessageEditedView,
        DecodeError,
    > {
        if field.number == 1 {
            match spec_read_i64(field) {
                Ok(message_id) => Ok(MessageEditedView { message_id, ..value }),
                Err(e) => Err(e),
            }
        } else if field.number == 2 {
            match spec_read_i64(field) {
                Ok(channel_id) => Ok(MessageEditedView { channel_id, ..value }),
                Err(e) => Err(e),
            }
        } else if field.number == 3 {
            match spec_read_i64(field) {
                Ok(editor_id) => Ok(MessageEditedView { editor_id, ..value }),
                Err(e) => Err(e),
            }
        } else if field.number == 4 {
            match spec_read_text(field) {
                Ok(new_content) => Ok(MessageEditedView { new_content, ..value }),
                Err(e) => Err(e),
            }
        } else {
            Ok(value)
        }
    }

    fn empty() -> (message: Self) {
        MessageEdited { message_id: 0, channel_id: 0, editor_id: 0, new_content: String::new() }
    }

    fn merge_field(self, field: Field) -> (r: Result<Self, DecodeError>) {
        if field.number == 1 {
            Ok(MessageEdited { message_id: read_i64(&field)?, ..self })
        } else if field.number == 2 {
            Ok(MessageEdited { channel_id: read_i64(&field)?, ..self })
        } else if field.number == 3 {
            Ok(MessageEdited { editor_id: read_i64(&field)?, ..self })
        } else if field.number == 4 {
            Ok(MessageEdited { new_content: read_text(&field)?, ..self })
        } else {
            Ok(self)
        }
    }

    fn to_fields(&self) -> (fields: Vec<Field>) {
        let mut fields: Vec<Field> = Vec::new();
        fields.push(i64_field(1, self.message_id));
        fields.push(i64_field(2, self.channel_id));
        fields.push(i64_field(3, self.editor_id));
        fields.push(text_field(4, self.new_content.as_str()));
        proof {
            assert(fields_view(fields@) =~= Self::spec_fields(self@));
        }
        fields
    }
}

impl RoundTrip for MessageEdited {
    proof fn lemma_merge_fields(value: MessageEditedView) {
        reveal_with_fuel(spec_merge_fields, 5);
        lemma_signed_wire(value.message_id, 0);
        lemma_signed_wire(value.channel_id, 0);
        lemma_signed_wire(value.editor_id, 0);
        lemma_text_field(4, value.new_content);
    }
}

impl PacketStaticId for MessageEdited {
    open spec fn spec_static_id() -> i32 {
        5
    }

    fn get_id() -> (id: i32) {
        5
    }
}

impl Packet for MessageEdited {
    fn get_id(&self) -> (id: i32) {
        5
    }
}

/// A message was deleted.
#[derive(Clone, Copy, Debug, PartialEq, Eq)]
pub struct MessageDeleted {
    pub message_id: i64,
    pub channel_id: i64,
}

impl View for MessageDeleted {
    type V = MessageDeleted;

    open spec fn view(&self) -> MessageDeleted {
        *self
    }
}

impl WireMessage for MessageDeleted {
    open spec fn spec_fields(value: MessageDeleted) -> Seq<FieldView> {
        seq![spec_i64_field(1, value.message_id), spec_i64_field(2, value.channel_id)]
    }

    open spec fn spec_empty() -> MessageDeleted {
        MessageDeleted { message_id: 0, channel_id: 0 }
    }

    open spec fn spec_valid(value: MessageDeleted) -> bool {
        valid_fields(Self::spec_fields(value))
    }

    open spec fn spec_merge(value: MessageDeleted, field: FieldView) -> Result<
        MessageDeleted,
        DecodeError,
    > {
        if field.number == 1 {
            match spec_read_i64(field) {
                Ok(message_id) => Ok(MessageDeleted { message_id, ..value }),
                Err(e) => Err(e),
            }
        } else if field.number == 2 {
            match spec_read_i64(field) {
                Ok(channel_id) => Ok(MessageDeleted { channel_id, ..value }),
                Err(e) => Err(e),
            }
        } else {
            Ok(value)
        }
    }

    fn empty() -> (message: Self) {
        MessageDeleted { message_id: 0, channel_id: 0 }
    }

    fn merge_field(self, field: Field) -> (r: Result<Self, DecodeError>) {
        if field.number == 1 {
            Ok(MessageDeleted { message_id: read_i64(&field)?, ..self })
        } else if field.number == 2 {
            Ok(MessageDeleted { channel_id: read_i64(&field)?, ..self })
        } else {
            Ok(self)
        }
    }

    fn to_fields(&self) -> (fields: Vec<Field>) {
        let mut fields: Vec<Field> = Vec::new();
        fields.push(i64_field(1, self.message_id));
        fields.push(i64_field(2, self.channel_id));
        proof {
            assert(fields_view(fields@) =~= Self::spec_fields(self@));
        }
        fields
    }
}

impl RoundTrip for MessageDeleted {
    proof fn lemma_merge_fields(value: MessageDeleted) {
        reveal_with_fuel(spec_merge_fields, 3);
        lemma_signed_wire(value.message_id, 0);
        lemma_signed_wire(value.channel_id, 0);
    }
}

impl PacketStaticId for MessageDeleted {
    open spec fn spec_static_id() -> i32 {
        6
    }

    fn get_id() -> (id: i32) {
        6
    }
}

impl Packet for MessageDeleted {
    fn get_id(&self) -> (id: i32) {
        6
    }
}

/// A reaction was added to a message.
#[derive(Clone, Debug, PartialEq, Eq)]
pub struct ReactionAdded {
    pub message_id: i64,
    pub user_id: i64,
    pub emoji: String,
    pub reaction_count: i32,
    pub reaction_id: i32,
    pub channel_id: i64,
}

/// What a [`ReactionAdded`] holds.
pub struct ReactionAddedView {
    pub message_id: i64,
    pub user_id: i64,
    pub emoji: Seq<char>,
    pub reaction_count: i32,
    pub reaction_id: i32,
    pub channel_id: i64,
}

impl View for ReactionAdded {
    type V = ReactionAddedView;

    open spec fn view(&self) -> ReactionAddedView {
        ReactionAddedView {
            message_id: self.message_id,
            user_id: self.user_id,
            emoji: self.emoji@,
            reaction_count: self.reaction_count,
            reaction_id: self.reaction_id,
            channel_id: self.channel_id,
        }
    }
}

impl WireMessage for ReactionAdded {
    open spec fn spec_fields(value: ReactionAddedView) -> Seq<FieldView> {
        seq![
            spec_i64_field(1, value.message_id),
            spec_i64_field(2, value.user_id),
            spec_text_field(3, value.emoji),
            spec_i32_field(4, value.reaction_count),
            spec_i32_field(5, value.reaction_id),
            spec_i64_field(6, value.channel_id),
        ]
    }

    open spec fn spec_empty() -> ReactionAddedView {
        ReactionAddedView {
            message_id: 0,
            user_id: 0,
            emoji: Seq::empty(),
            reaction_count: 0,
            reaction_id: 0,
            channel_id: 0,
        }
    }

    open spec fn spec_valid(value: ReactionAddedView) -> bool {
        valid_fields(Self::spec_fields(value))
    }

    open spec fn spec_merge(value: ReactionAddedView, field: FieldView) -> Result<
        ReactionAddedView,
        DecodeError,
    > {
        if field.number == 1 {
            match spec_read_i64(field) {
                Ok(message_id) => Ok(ReactionAddedView { message_id, ..value }),
                Err(e) => Err(e),
            }
        } else if field.number == 2 {
            match spec_read_i64(field) {
                Ok(user_id) => Ok(ReactionAddedView { user_id, ..value }),
                Err(e) => Err(e),
            }
        } else if field.number == 3 {
            match spec_read_text(field) {
                Ok(emoji) => Ok(ReactionAddedView { emoji, ..value }),
                Err(e) => Err(e),
            }
        } else if field.number == 4 {
            match spec_read_i32(field) {
                Ok(reaction_count) => Ok(ReactionAddedView { reaction_count, ..value }),
                Err(e) => Err(e),
            }
        } else if field.number == 5 {
            match spec_read_i32(field) {
                Ok(reaction_id) => Ok(ReactionAddedView { reaction_id, ..value }),
                Err(e) => Err(e),
            }
        } else if field.number == 6 {
            match spec_read_i64(field) {
                Ok(channel_id) => Ok(ReactionAddedView { channel_id, ..value }),
                Err(e) => Err(e),
            }
        } else {
            Ok(value)
        }
    }

    fn empty() -> (message: Self) {
        ReactionAdded {
            message_id: 0,
            user_id: 0,
            emoji: String::new(),
            reaction_count: 0,
            reaction_id: 0,
            channel_id: 0,
        }
    }

    fn merge_field(self, field: Field) -> (r: Result<Self, DecodeError>) {
        if field.number == 1 {
            Ok(ReactionAdded { message_id: read_i64(&field)?, ..self })
        } else if field.number == 2 {
            Ok(ReactionAdded { user_id: read_i64(&field)?, ..self })
        } else if field.number == 3 {
            Ok(ReactionAdded { emoji: read_text(&field)?, ..self })
        } else if field.number == 4 {
            Ok(ReactionAdded { reaction_count: read_i32(&field)?, ..self })
        } else if field.number == 5 {
            Ok(ReactionAdded { reaction_id: read_i32(&field)?, ..self })
        } else if field.number == 6 {
            Ok(ReactionAdded { channel_id: read_i64(&field)?, ..self })
        } else {
            Ok(self)
        }
    }

    fn to_fields(&self) -> (fields: Vec<Field>) {
        let mut fields: Vec<Field> = Vec::new();
        fields.push(i64_field(1, self.message_id));
        fields.push(i64_field(2, self.user_id));
        fields.push(text_field(3, self.emoji.as_str()));
        fields.push(i32_field(4, self.reaction_count));
        fields.push(i32_field(5, self.reaction_id));
        fields.push(i64_field(6, self.channel_id));
        proof {
            assert(fields_view(fields@) =~= Self::spec_fields(self@));
        }
        fields
    }
}

impl RoundTrip for ReactionAdded {
    proof fn lemma_merge_fields(value: ReactionAddedView) {
        reveal_with_fuel(spec_merge_fields, 7);
        lemma_signed_wire(value.message_id, 0);
        lemma_signed_wire(value.user_id, 0);
        lemma_text_field(3, value.emoji);
        lemma_signed_wire(0, value.reaction_count);
        lemma_signed_wire(0, value.reaction_id);
        lemma_signed_wire(value.channel_id, 0);
    }
}

impl PacketStaticId for ReactionAdded {
    open spec fn spec_static_id() -> i32 {
        7
    }

    fn get_id() -> (id: i32) {
        7
    }
}

impl Packet for ReactionAdded {
    fn get_id(&self) -> (id: i32) {
        7
    }
}

/// A reaction was taken off a message.
#[derive(Clone, Debug, PartialEq, Eq)]
pub struct ReactionRemoved {
    pub message_id: i64,
    pub user_id: i64,
    pub emoji: String,
    pub reaction_count: i32,
    pub reaction_id: i32,
    pub channel_id: i64,
}

/// What a [`ReactionRemoved`] holds.
pub struct ReactionRemovedView {
    pub message_id: i64,
    pub user_id: i64,
    pub emoji: Seq<char>,
    pub reaction_count: i32,
    pub reaction_id: i32,
    pub channel_id: i64,
}

impl View for ReactionRemoved {
    type V = ReactionRemovedView;

    open spec fn view(&self) -> ReactionRemovedView {
        ReactionRemovedView {
            message_id: self.message_id,
            user_id: self.user_id,
            emoji: self.emoji@,
            reaction_count: self.reaction_count,
            reaction_id: self.reaction_id,
            channel_id: self.channel_id,
        }
    }
}

impl WireMessage for ReactionRemoved {
    open spec fn spec_fields(value: ReactionRemovedView) -> Seq<FieldView> {
        seq![
            spec_i64_field(1, value.message_id),
            spec_i64_field(2, value.user_id),
            spec_text_field(3, value.emoji),
            spec_i32_field(4, value.reaction_count),
            spec_i32_field(5, value.reaction_id),
            spec_i64_field(6, value.channel_id),
        ]
    }

    open spec fn spec_empty() -> ReactionRemovedView {
        ReactionRemovedView {
            message_id: 0,
            user_id: 0,
            emoji: Seq::empty(),
            reaction_count: 0,
            reaction_id: 0,
            channel_id: 0,
        }
    }

    open spec fn spec_valid(value: ReactionRemovedView) -> bool {
        valid_fields(Self::spec_fields(value))
    }

    open spec fn spec_merge(value: ReactionRemovedView, field: FieldView) -> Result<
        ReactionRemovedView,
        DecodeError,
    > {
        if field.number == 1 {
            match spec_read_i64(field) {
                Ok(message_id) => Ok(ReactionRemovedView { message_id, ..value }),
                Err(e) => Err(e),
            }
        } else if field.number == 2 {
            match spec_read_i64(field) {
                Ok(user_id) => Ok(ReactionRemovedView { user_id, ..value }),
                Err(e) => Err(e),
            }
        } else if field.number == 3 {
            match spec_read_text(field) {
                Ok(emoji) => Ok(ReactionRemovedView { emoji, ..value }),
                Err(e) => Err(e),
            }
        } else if field.number == 4 {
            match spec_read_i32(field) {
                Ok(reaction_count) => Ok(ReactionRemovedView { reaction_count, ..value }),
                Err(e) => Err(e),
            }
        } else if field.number == 5 {
            match spec_read_i32(field) {
                Ok(reaction_id) => Ok(ReactionRemovedView { reaction_id, ..value }),
                Err(e) => Err(e),
            }
        } else if field.number == 6 {
            match spec_read_i64(field) {
                Ok(channel_id) => Ok(ReactionRemovedView { channel_id, ..value }),
                Err(e) => Err(e),
            }
        } else {
            Ok(value)
        }
    }

    fn empty() -> (message: Self) {
        ReactionRemoved {
            message_id: 0,
            user_id: 0,
            emoji: String::new(),
            reaction_count: 0,
            reaction_id: 0,
            channel_id: 0,
        }
    }

    fn merge_field(self, field: Field) -> (r: Result<Self, DecodeError>) {
        if field.number == 1 {
            Ok(ReactionRemoved { message_id: read_i64(&field)?, ..self })
        } else if field.number == 2 {
            Ok(ReactionRemoved { user_id: read_i64(&field)?, ..self })
        } else if field.number == 3 {
            Ok(ReactionRemoved { emoji: read_text(&field)?, ..self })
        } else if field.number == 4 {
            Ok(ReactionRemoved { reaction_count: read_i32(&field)?, ..self })
        } else if field.number == 5 {
            Ok(ReactionRemoved { reaction_id: read_i32(&field)?, ..self })
        } else if field.number == 6 {
            Ok(ReactionRemoved { channel_id: read_i64(&field)?, ..self })
        } else {
            Ok(self)
        }
    }

    fn to_fields(&self) -> (fields: Vec<Field>) {
        let mut fields: Vec<Field> = Vec::new();
        fields.push(i64_field(1, self.message_id));
        fields.push(i64_field(2, self.user_id));
        fields.push(text_field(3, self.emoji.as_str()));
        fields.push(i32_field(4, self.reaction_count));
        fields.push(i32_field(5, self.reaction_id));
        fields.push(i64_field(6, self.channel_id));
        proof {
            assert(fields_view(fields@) =~= Self::spec_fields(self@));
        }
        fields
    }
}

impl RoundTrip for ReactionRemoved {
    proof fn lemma_merge_fields(value: ReactionRemovedView) {
        reveal_with_fuel(spec_merge_fields, 7);
        lemma_signed_wire(value.message_id, 0);
        lemma_signed_wire(value.user_id, 0);
        lemma_text_field(3, value.emoji);
        lemma_signed_wire(0, value.reaction_count);
        lemma_signed_wire(0, value.reaction_id);
        lemma_signed_wire(value.channel_id, 0);
    }
}

impl PacketStaticId for ReactionRemoved {
    open spec fn spec_static_id() -> i32 {
        8
    }

    fn get_id() -> (id: i32) {
        8
    }
}

impl Packet for ReactionRemoved {
    fn get_id(&self) -> (id: i32) {
        8
    }
}

// BY DIRECTION

/// A packet that a client sends.
#[derive(Clone, Debug, PartialEq, Eq)]
pub enum ServerboundPacket {
    ChannelRead(ChannelRead),
    TypingRequest(TypingRequest),
}

/// What a [`ServerboundPacket`] holds.
pub enum ServerboundPacketView {
    ChannelRead(ChannelRead),
    TypingRequest(TypingRequest),
}

impl View for ServerboundPacket {
    type V = ServerboundPacketView;

    open spec fn view(&self) -> ServerboundPacketView {
        match self {
            ServerboundPacket::ChannelRead(packet) => ServerboundPacketView::ChannelRead(packet@),
            ServerboundPacket::TypingRequest(packet) => ServerboundPacketView::TypingRequest(
                packet@,
            ),
        }
    }
}

impl ServerboundPacketView {
    /// The type identifier of the packet.
    pub open spec fn id(self) -> i32 {
        match self {
            ServerboundPacketView::ChannelRead(_) => 1,
            ServerboundPacketView::TypingRequest(_) => 2,
        }
    }

    /// The bytes of the packet, without its envelope.
    pub open spec fn data(self) -> Seq<u8> {
        match self {
            ServerboundPacketView::ChannelRead(packet) => spec_encode::<ChannelRead>(packet),
            ServerboundPacketView::TypingRequest(packet) => spec_encode::<TypingRequest>(packet),
        }
    }

    /// The packet can be written.
    pub open spec fn valid(self) -> bool {
        match self {
            ServerboundPacketView::ChannelRead(packet) => ChannelRead::spec_valid(packet),
            ServerboundPacketView::TypingRequest(packet) => TypingRequest::spec_valid(packet),
        }
    }

    /// The serverbound packet with the type identifier `id` that `data`
    /// stands for. An identifier outside the serverbound table gives
    /// [`DecodeError::UnknownPacket`], whatever `data` holds.
    pub open spec fn decode(id: i32, data: Seq<u8>) -> Result<ServerboundPacketView, DecodeError> {
        if id == 1 {
            match spec_decode::<ChannelRead>(data) {
                Ok(packet) => Ok(ServerboundPacketView::ChannelRead(packet)),
                Err(e) => Err(e),
            }
        } else if id == 2 {
            match spec_decode::<TypingRequest>(data) {
                Ok(packet) => Ok(ServerboundPacketView::TypingRequest(packet)),
                Err(e) => Err(e),
            }
        } else {
            Err(DecodeError::UnknownPacket)
        }
    }

    /// Decoding inverts encoding: a serverbound packet decodes, under its
    /// own identifier, to itself.
    pub proof fn lemma_decode_encode(self)
        requires
            self.valid(),
        ensures
            Self::decode(self.id(), self.data()) == Ok::<ServerboundPacketView, DecodeError>(self),
    {
        match self {
            ServerboundPacketView::ChannelRead(packet) => {
                lemma_decode_encode::<ChannelRead>(packet);
            },
            ServerboundPacketView::TypingRequest(packet) => {
                lemma_decode_encode::<TypingRequest>(packet);
            },
        }
    }
}

impl ServerboundPacket {
    /// The type identifier of the packet.
    pub fn get_id(&self) -> (id: i32)
        ensures
            id == self@.id(),
    {
        match self {
            ServerboundPacket::ChannelRead(_) => 1,
            ServerboundPacket::TypingRequest(_) => 2,
        }
    }

    /// The bytes of the packet, without its envelope.
    pub fn encode_data(&self) -> (bytes: Vec<u8>)
        ensures
            bytes@ == self@.data(),
            self@.valid(),
    {
        match self {
            ServerboundPacket::ChannelRead(packet) => packet.encode_data(),
            ServerboundPacket::TypingRequest(packet) => packet.encode_data(),
        }
    }

    /// The serverbound packet with the type identifier `id` that `data`
    /// stands for. Fails exactly when, and as, [`ServerboundPacketView::decode`] does.
    pub fn decode(id: i32, data: &[u8]) -> (r: Result<Self, DecodeError>)
        ensures
            match r {
                Ok(packet) => ServerboundPacketView::decode(id, data@) == Ok::<
                    ServerboundPacketView,
                    DecodeError,
                >(packet@),
                Err(e) => ServerboundPacketView::decode(id, data@) == Err::<
                    ServerboundPacketView,
                    DecodeError,
                >(e),
            },
    {
        if id == 1 {
            match ChannelRead::decode_data(data) {
                Ok(packet) => Ok(ServerboundPacket::ChannelRead(packet)),
                Err(e) => Err(e),
            }
        } else if id == 2 {
            match TypingRequest::decode_data(data) {
                Ok(packet) => Ok(ServerboundPacket::TypingRequest(packet)),
                Err(e) => Err(e),
            }
        } else {
            Err(DecodeError::UnknownPacket)
        }
    }

    /// The envelope that carries the packet.
    pub fn to_envelope(&self) -> (envelope: PacketMessage)
        ensures
            envelope@ == (PacketMessageView { id: self@.id(), data: self@.data() }),
            self@.valid(),
    {
        PacketMessage { id: self.get_id(), data: self.encode_data() }
    }

    /// The serverbound packet that `envelope` carries.
    pub fn from_envelope(envelope: &PacketMessage) -> (r: Result<Self, DecodeError>)
        ensures
            match r {
                Ok(packet) => ServerboundPacketView::decode(envelope.id, envelope.data@) == Ok::<
                    ServerboundPacketView,
                    DecodeError,
                >(packet@),
                Err(e) => ServerboundPacketView::decode(envelope.id, envelope.data@) == Err::<
                    ServerboundPacketView,
                    DecodeError,
                >(e),
            },
    {
        Self::decode(envelope.id, envelope.data.as_slice())
    }
}

/// A packet that the server sends.
#[derive(Clone, Debug, PartialEq, Eq)]
pub enum ClientboundPacket {
    MessageCreated(MessageCreated),
    MessagesRead(MessagesRead),
    ChannelTyping(ChannelTyping),
    MessageEdited(MessageEdited),
    MessageDeleted(MessageDeleted),
    ReactionAdded(ReactionAdded),
    ReactionRemoved(ReactionRemoved),
}

/// What a [`ClientboundPacket`] holds.
pub enum ClientboundPacketView {
    MessageCreated(MessageCreatedView),
    MessagesRead(MessagesReadView),
    ChannelTyping(ChannelTypingView),
    MessageEdited(MessageEditedView),
    MessageDeleted(MessageDeleted),
    ReactionAdded(ReactionAddedView),
    ReactionRemoved(ReactionRemovedView),
}

impl View for ClientboundPacket {
    type V = ClientboundPacketView;

    open spec fn view(&self) -> ClientboundPacketView {
        match self {
            ClientboundPacket::MessageCreated(packet) => ClientboundPacketView::MessageCreated(
                packet@,
            ),
            ClientboundPacket::MessagesRead(packet) => ClientboundPacketView::MessagesRead(packet@),
            ClientboundPacket::ChannelTyping(packet) => ClientboundPacketView::ChannelTyping(
                packet@,
            ),
            ClientboundPacket::MessageEdited(packet) => ClientboundPacketView::MessageEdited(
                packet@,
            ),
            ClientboundPacket::MessageDeleted(packet) => ClientboundPacketView::MessageDeleted(
                packet@,
            ),
            ClientboundPacket::ReactionAdded(packet) => ClientboundPacketView::ReactionAdded(
                packet@,
            ),
            ClientboundPacket::ReactionRemoved(packet) => ClientboundPacketView::ReactionRemoved(
                packet@,
            ),
        }
    }
}

impl ClientboundPacketView {
    /// The type identifier of the packet.
    pub open spec fn id(self) -> i32 {
        match self {
            ClientboundPacketView::MessageCreated(_) => 2,
            ClientboundPacketView::MessagesRead(_) => 3,
            ClientboundPacketView::ChannelTyping(_) => 4,
            ClientboundPacketView::MessageEdited(_) => 5,
            ClientboundPacketView::MessageDeleted(_) => 6,
            ClientboundPacketView::ReactionAdded(_) => 7,
            ClientboundPacketView::ReactionRemoved(_) => 8,
        }
    }

    /// The bytes of the packet, without its envelope.
    pub open spec fn data(self) -> Seq<u8> {
        match self {
            ClientboundPacketView::MessageCreated(packet) => spec_encode::<MessageCreated>(packet),
            ClientboundPacketView::MessagesRead(packet) => spec_encode::<MessagesRead>(packet),
            ClientboundPacketView::ChannelTyping(packet) => spec_encode::<ChannelTyping>(packet),
            ClientboundPacketView::MessageEdited(packet) => spec_encode::<MessageEdited>(packet),
            ClientboundPacketView::MessageDeleted(packet) => spec_encode::<MessageDeleted>(packet),
            ClientboundPacketView::ReactionAdded(packet) => spec_encode::<ReactionAdded>(packet),
            ClientboundPacketView::ReactionRemoved(packet) => spec_encode::<ReactionRemoved>(
                packet,
            ),
        }
    }

    /// The packet can be written.
    pub open spec fn valid(self) -> bool {
        match self {
            ClientboundPacketView::MessageCreated(packet) => MessageCreated::spec_valid(packet),
            ClientboundPacketView::MessagesRead(packet) => MessagesRead::spec_valid(packet),
            ClientboundPacketView::ChannelTyping(packet) => ChannelTyping::spec_valid(packet),
            ClientboundPacketView::MessageEdited(packet) => MessageEdited::spec_valid(packet),
            ClientboundPacketView::MessageDeleted(packet) => MessageDeleted::spec_valid(packet),
            ClientboundPacketView::ReactionAdded(packet) => ReactionAdded::spec_valid(packet),
            ClientboundPacketView::ReactionRemoved(packet) => ReactionRemoved::spec_valid(packet),
        }
    }

    /// The clientbound packet with the type identifier `id` that `data`
    /// stands for. An identifier outside the clientbound table gives
    /// [`DecodeError::UnknownPacket`], whatever `data` holds.
    pub open spec fn decode(id: i32, data: Seq<u8>) -> Result<ClientboundPacketView, DecodeError> {
        if id == 2 {
            match spec_decode::<MessageCreated>(data) {
                Ok(packet) => Ok(ClientboundPacketView::MessageCreated(packet)),
                Err(e) => Err(e),
            }
        } else if id == 3 {
            match spec_decode::<MessagesRead>(data) {
                Ok(packet) => Ok(ClientboundPacketView::MessagesRead(packet)),
                Err(e) => Err(e),
            }
        } else if id == 4 {
            match spec_decode::<ChannelTyping>(data) {
                Ok(packet) => Ok(ClientboundPacketView::ChannelTyping(packet)),
                Err(e) => Err(e),
            }
        } else if id == 5 {
            match spec_decode::<MessageEdited>(data) {
                Ok(packet) => Ok(ClientboundPacketView::MessageEdited(packet)),
                Err(e) => Err(e),
            }
        } else if id == 6 {
            match spec_decode::<MessageDeleted>(data) {
                Ok(packet) => Ok(ClientboundPacketView::MessageDeleted(packet)),
                Err(e) => Err(e),
            }
        } else if id == 7 {
            match spec_decode::<ReactionAdded>(data) {
                Ok(packet) => Ok(ClientboundPacketView::ReactionAdded(packet)),
                Err(e) => Err(e),
            }
        } else if id == 8 {
            match spec_decode::<ReactionRemoved>(data) {
                Ok(packet) => Ok(ClientboundPacketView::ReactionRemoved(packet)),
                Err(e) => Err(e),
            }
        } else {
            Err(DecodeError::UnknownPacket)
        }
    }

    /// Decoding inverts encoding: a clientbound packet decodes, under its
    /// own identifier, to itself.
    pub proof fn lemma_decode_encode(self)
        requires
            self.valid(),
        ensures
            Self::decode(self.id(), self.data()) == Ok::<ClientboundPacketView, DecodeError>(self),
    {
        match self {
            ClientboundPacketView::MessageCreated(packet) => {
                lemma_decode_encode::<MessageCreated>(packet);
            },
            ClientboundPacketView::MessagesRead(packet) => {
                lemma_decode_encode::<MessagesRead>(packet);
            },
            ClientboundPacketView::ChannelTyping(packet) => {
                lemma_decode_encode::<ChannelTyping>(packet);
            },
            ClientboundPacketView::MessageEdited(packet) => {
                lemma_decode_encode::<MessageEdited>(packet);
            },
            ClientboundPacketView::MessageDeleted(packet) => {
                lemma_decode_encode::<MessageDeleted>(packet);
            },
            ClientboundPacketView::ReactionAdded(packet) => {
                lemma_decode_encode::<ReactionAdded>(packet);
            },
            ClientboundPacketView::ReactionRemoved(packet) => {
                lemma_decode_encode::<ReactionRemoved>(packet);
            },
        }
    }
}

impl ClientboundPacket {
    /// The type identifier of the packet.
    pub fn get_id(&self) -> (id: i32)
        ensures
            id == self@.id(),
    {
        match self {
            ClientboundPacket::MessageCreated(_) => 2,
            ClientboundPacket::MessagesRead(_) => 3,
            ClientboundPacket::ChannelTyping(_) => 4,
            ClientboundPacket::MessageEdited(_) => 5,
            ClientboundPacket::MessageDeleted(_) => 6,
            ClientboundPacket::ReactionAdded(_) => 7,
            ClientboundPacket::ReactionRemoved(_) => 8,
        }
    }

    /// The bytes of the packet, without its envelope.
    pub fn encode_data(&self) -> (bytes: Vec<u8>)
        ensures
            bytes@ == self@.data(),
            self@.valid(),
    {
        match self {
            ClientboundPacket::MessageCreated(packet) => packet.encode_data(),
            ClientboundPacket::MessagesRead(packet) => packet.encode_data(),
            ClientboundPacket::ChannelTyping(packet) => packet.encode_data(),
            ClientboundPacket::MessageEdited(packet) => packet.encode_data(),
            ClientboundPacket::MessageDeleted(packet) => packet.encode_data(),
            ClientboundPacket::ReactionAdded(packet) => packet.encode_data(),
            ClientboundPacket::ReactionRemoved(packet) => packet.encode_data(),
        }
    }

    /// The clientbound packet with the type identifier `id` that `data`
    /// stands for. Fails exactly when, and as, [`ClientboundPacketView::decode`] does.
    pub fn decode(id: i32, data: &[u8]) -> (r: Result<Self, DecodeError>)
        ensures
            match r {
                Ok(packet) => ClientboundPacketView::decode(id, data@) == Ok::<
                    ClientboundPacketView,
                    DecodeError,
                >(packet@),
                Err(e) => ClientboundPacketView::decode(id, data@) == Err::<
                    ClientboundPacketView,
                    DecodeError,
                >(e),
            },
    {
        if id == 2 {
            match MessageCreated::decode_data(data) {
                Ok(packet) => Ok(ClientboundPacket::MessageCreated(packet)),
                Err(e) => Err(e),
            }
        } else if id == 3 {
            match MessagesRead::decode_data(data) {
                Ok(packet) => Ok(ClientboundPacket::MessagesRead(packet)),
                Err(e) => Err(e),
            }
        } else if id == 4 {
            match ChannelTyping::decode_data(data) {
                Ok(packet) => Ok(ClientboundPacket::ChannelTyping(packet)),
                Err(e) => Err(e),
            }
        } else if id == 5 {
            match MessageEdited::decode_data(data) {
                Ok(packet) => Ok(ClientboundPacket::MessageEdited(packet)),
                Err(e) => Err(e),
            }
        } else if id == 6 {
            match MessageDeleted::decode_data(data) {
                Ok(packet) => Ok(ClientboundPacket::MessageDeleted(packet)),
                Err(e) => Err(e),
            }
        } else if id == 7 {
            match ReactionAdded::decode_data(data) {
                Ok(packet) => Ok(ClientboundPacket::ReactionAdded(packet)),
                Err(e) => Err(e),
            }
        } else if id == 8 {
            match ReactionRemoved::decode_data(data) {
                Ok(packet) => Ok(ClientboundPacket::ReactionRemoved(packet)),
                Err(e) => Err(e),
            }
        } else {
            Err(DecodeError::UnknownPacket)
        }
    }

    /// The envelope that carries the packet.
    pub fn to_envelope(&self) -> (envelope: PacketMessage)
        ensures
            envelope@ == (PacketMessageView { id: self@.id(), data: self@.data() }),
            self@.valid(),
    {
        PacketMessage { id: self.get_id(), data: self.encode_data() }
    }

    /// The clientbound packet that `envelope` carries.
    pub fn from_envelope(envelope: &PacketMessage) -> (r: Result<Self, DecodeError>)
        ensures
            match r {
                Ok(packet) => ClientboundPacketView::decode(envelope.id, envelope.data@) == Ok::<
                    ClientboundPacketView,
                    DecodeError,
                >(packet@),
                Err(e) => ClientboundPacketView::decode(envelope.id, envelope.data@) == Err::<
                    ClientboundPacketView,
                    DecodeError,
                >(e),
            },
    {
        Self::decode(envelope.id, envelope.data.as_slice())
    }
}

} // verus!
