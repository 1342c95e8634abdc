//! Reactions to messages.

use vstd::prelude::*;
use crate::server::messages::bool_field;
use crate::server::messages::i32_field;
use crate::server::messages::lemma_signed_wire;
use crate::server::messages::lemma_text_field;
use crate::server::messages::read_bool;
use crate::server::messages::read_i32;
use crate::server::messages::read_text;
use crate::server::messages::spec_bool_field;
use crate::server::messages::spec_i32_field;
use crate::server::messages::spec_merge_fields;
use crate::server::messages::spec_read_bool;
use crate::server::messages::spec_read_i32;
use crate::server::messages::spec_read_text;
use crate::server::messages::spec_text_field;
use crate::server::messages::text_field;
use crate::server::messages::RoundTrip;
use crate::server::messages::WireMessage;
use crate::server::wire::fields_view;
use crate::server::wire::valid_fields;
use crate::server::wire::DecodeError;
use crate::server::wire::Field;
use crate::server::wire::FieldView;

verus! {

/// A row of `reactions`.
#[derive(Clone, Debug, PartialEq, Eq)]
pub struct Reaction {
    pub reaction_id: i32,
    pub message_id: i64,
    pub emoji: String,
    pub reaction_count: i32,
}

/// A row of `reaction_users`.
#[derive(Clone, Copy, Debug, PartialEq, Eq)]
pub struct ReactionUser {
    pub id: i32,
    pub reaction_id: i32,
    pub user_id: i64,
}

/// A reaction about to be stored.
#[derive(Clone, Debug, PartialEq, Eq)]
pub struct ReactionInsert {
    pub message_id: i64,
    pub emoji: String,
}

/// A user's part in a reaction, about to be stored.
#[derive(Clone, Copy, Debug, PartialEq, Eq)]
pub struct ReactionUserInsert {
    pub reaction_id: i32,
    pub user_id: i64,
}

/// One reaction to a message as a reader sees it.
#[derive(Clone, Debug, PartialEq, Eq)]
pub struct ReactionSummary {
    pub emoji: String,
    pub count: i32,
    pub me: bool,
    pub reaction_id: i32,
}

/// What a [`ReactionSummary`] holds.
pub struct ReactionSummaryView {
    pub emoji: Seq<char>,
    pub count: i32,
    pub me: bool,
    pub reaction_id: i32,
}

impl View for ReactionSummary {
    type V = ReactionSummaryView;

    open spec fn view(&self) -> ReactionSummaryView {
        ReactionSummaryView {
            emoji: self.emoji@,
            count: self.count,
            me: self.me,
            reaction_id: self.reaction_id,
        }
    }
}

impl WireMessage for ReactionSummary {
    open spec fn spec_fields(value: ReactionSummaryView) -> Seq<FieldView> {
        seq![
            spec_text_field(1, value.emoji),
            spec_i32_field(2, value.count),
            spec_bool_field(3, value.me),
            spec_i32_field(4, value.reaction_id),
        ]
    }

    open spec fn spec_empty() -> ReactionSummaryView {
        ReactionSummaryView { emoji: Seq::empty(), count: 0, me: false, reaction_id: 0 }
    }

    open spec fn spec_valid(value: ReactionSummaryView) -> bool {
        valid_fields(Self::spec_fields(value))
    }

    open spec fn spec_merge(value: ReactionSummaryView, field: FieldView) -> Result<
        ReactionSummaryView,
        DecodeError,
    > {
        if field.number == 1 {
            match spec_read_text(field) {
                Ok(emoji) => Ok(ReactionSummaryView { emoji, ..value }),
                Err(e) => Err(e),
            }
        } else if field.number == 2 {
            match spec_read_i32(field) {
                Ok(count) => Ok(ReactionSummaryView { count, ..value }),
                Err(e) => Err(e),
            }
        } else if field.number == 3 {
            match spec_read_bool(field) {
                Ok(me) => Ok(ReactionSummaryView { me, ..value }),
                Err(e) => Err(e),
            }
        } else if field.number == 4 {
            match spec_read_i32(field) {
                Ok(reaction_id) => Ok(ReactionSummaryView { reaction_id, ..value }),
                Err(e) => Err(e),
            }
        } else {
            Ok(value)
        }
    }

    fn empty() -> (message: Self) {
        ReactionSummary { emoji: String::new(), count: 0, me: false, reaction_id: 0 }
    }

    fn merge_field(self, field: Field) -> (r: Result<Self, DecodeError>) {
        if field.number == 1 {
            Ok(ReactionSummary { emoji: read_text(&field)?, ..self })
        } else if field.number == 2 {
            Ok(ReactionSummary { count: read_i32(&field)?, ..self })
        } else if field.number == 3 {
            Ok(ReactionSummary { me: read_bool(&field)?, ..self })
        } else if field.number == 4 {
            Ok(ReactionSummary { reaction_id: read_i32(&field)?, ..self })
        } else {
            Ok(self)
        }
    }

    fn to_fields(&self) -> (fields: Vec<Field>) {
        let mut fields: Vec<Field> = Vec::new();
        fields.push(text_field(1, self.emoji.as_str()));
        fields.push(i32_field(2, self.count));
        fields.push(bool_field(3, self.me));
        fields.push(i32_field(4, self.reaction_id));
        proof {
            assert(fields_view(fields@) =~= Self::spec_fields(self@));
        }
        fields
    }
}

impl RoundTrip for ReactionSummary {
    proof fn lemma_merge_fields(value: ReactionSummaryView) {
        reveal_with_fuel(spec_merge_fields, 5);
        lemma_text_field(1, value.emoji);
        lemma_signed_wire(0, value.count);
        lemma_signed_wire(0, value.reaction_id);
    }
}

} // verus!
