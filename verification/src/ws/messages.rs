//! What the echo service speaks.

use vstd::prelude::*;
use crate::server::messages::lemma_text_field;
use crate::server::messages::read_text;
use crate::server::messages::spec_merge_fields;
use crate::server::messages::spec_read_text;
use crate::server::messages::spec_text_field;
use crate::server::messages::text_field;
use crate::server::messages::RoundTrip;
use crate::server::messages::WireMessage;
use crate::server::wire::fields_view;
use crate::server::wire::valid_fields;
use crate::server::wire::DecodeError;
use crate::server::wire::Field;
use crate::server::wire::FieldView;

verus! {

/// A line of text.
#[derive(Clone, Debug, PartialEq, Eq)]
pub struct TextMessage {
    pub content: String,
}

/// What a [`TextMessage`] holds.
pub struct TextMessageView {
    pub content: Seq<char>,
}

impl View for TextMessage {
    type V = TextMessageView;

    open spec fn view(&self) -> TextMessageView {
        TextMessageView { content: self.content@ }
    }
}

impl WireMessage for TextMessage {
    open spec fn spec_fields(value: TextMessageView) -> Seq<FieldView> {
        seq![spec_text_field(1, value.content)]
    }

    open spec fn spec_empty() -> TextMessageView {
        TextMessageView { content: Seq::empty() }
    }

    open spec fn spec_valid(value: TextMessageView) -> bool {
        valid_fields(Self::spec_fields(value))
    }

    open spec fn spec_merge(value: TextMessageView, field: FieldView) -> Result<
        TextMessageView,
        DecodeError,
    > {
        if field.number == 1 {
            match spec_read_text(field) {
                Ok(content) => Ok(TextMessageView { content }),
                Err(e) => Err(e),
            }
        } else {
            Ok(value)
        }
    }

    fn empty() -> (message: Self) {
        TextMessage { content: String::new() }
    }

    fn merge_field(self, field: Field) -> (r: Result<Self, DecodeError>) {
        if field.number == 1 {
            Ok(TextMessage { content: read_text(&field)? })
        } else {
            Ok(self)
        }
    }

    fn to_fields(&self) -> (fields: Vec<Field>) {
        let mut fields: Vec<Field> = Vec::new();
        fields.push(text_field(1, self.content.as_str()));
        proof {
            assert(fields_view(fields@) =~= Self::spec_fields(self@));
        }
        fields
    }
}

impl RoundTrip for TextMessage {
    proof fn lemma_merge_fields(value: TextMessageView) {
        reveal_with_fuel(spec_merge_fields, 2);
        lemma_text_field(1, value.content);
    }
}

} // verus!
