//! Messages over the wire format: what every message provides, the envelope
//! that frames a packet, and what every packet provides on top.

use vstd::prelude::*;
use vstd::string::StringSliceAdditionalSpecFns;
use vstd::utf8::decode_utf8;
use vstd::utf8::encode_utf8;
use vstd::utf8::encode_utf8_decode_utf8;
use vstd::utf8::encode_utf8_valid_utf8;
use vstd::utf8::valid_utf8;
use crate::server::wire::decode_field;
use crate::server::wire::decode_varint;
use crate::server::wire::encode_fields;
use crate::server::wire::encode_varint;
use crate::server::wire::field_bytes;
use crate::server::wire::fields_bytes;
use crate::server::wire::fields_view;
use crate::server::wire::lemma_parse_field_bounds;
use crate::server::wire::lemma_parse_field_bytes;
use crate::server::wire::lemma_parse_varint_bounds;
use crate::server::wire::lemma_parse_varint_bytes;
use crate::server::wire::lemma_varint_bytes_len;
use crate::server::wire::lemma_varint_limit_top;
use crate::server::wire::parse_field;
use crate::server::wire::parse_varint;
use crate::server::wire::valid_field;
use crate::server::wire::valid_fields;
use crate::server::wire::varint_bytes;
use crate::server::wire::DecodeError;
use crate::server::wire::MAX_FIELD_NUMBER;
use crate::server::wire::Field;
use crate::server::wire::FieldView;
use crate::server::wire::WireValue;
use crate::server::wire::WireValueView;

verus! {

/// The varint that carries a signed 64-bit value: its two's complement.
pub open spec fn i64_to_wire(value: i64) -> u64 {
    value as u64
}

/// The signed 64-bit value that a varint carries.
pub open spec fn i64_from_wire(wire: u64) -> i64 {
    wire as i64
}

/// The varint that carries a signed 32-bit value: its sign-extended two's
/// complement.
pub open spec fn i32_to_wire(value: i32) -> u64 {
    value as u64
}

/// The signed 32-bit value that a varint carries: its low 32 bits.
pub open spec fn i32_from_wire(wire: u64) -> i32 {
    wire as i32
}

/// The varint that carries a signed 16-bit value: its sign-extended two's
/// complement.
pub open spec fn i16_to_wire(value: i16) -> u64 {
    value as u64
}

/// The signed 16-bit value that a varint carries: its low 16 bits.
pub open spec fn i16_from_wire(wire: u64) -> i16 {
    wire as i16
}

/// The varint that carries a truth value: one for true, zero for false.
pub open spec fn bool_to_wire(value: bool) -> u64 {
    if value {
        1
    } else {
        0
    }
}

/// The truth value that a varint carries: whether it is not zero.
pub open spec fn bool_from_wire(wire: u64) -> bool {
    wire != 0
}

/// Signed values survive the wire.
pub proof fn lemma_signed_wire(a: i64, b: i32)
    ensures
        i64_from_wire(i64_to_wire(a)) == a,
        i32_from_wire(i32_to_wire(b)) == b,
{
    assert((a as u64) as i64 == a) by (bit_vector);
    assert((b as u64) as i32 == b) by (bit_vector);
}

/// Short signed values survive the wire.
pub proof fn lemma_short_wire(a: i16)
    ensures
        i16_from_wire(i16_to_wire(a)) == a,
{
    assert((a as u64) as i16 == a) by (bit_vector);
}

/// The bytes of a run of signed 64-bit values: their varints one after
/// another.
pub open spec fn packed_i64_bytes(values: Seq<i64>) -> Seq<u8>
    decreases values.len(),
{
    if values.len() == 0 {
        Seq::empty()
    } else {
        varint_bytes(i64_to_wire(values[0])) + packed_i64_bytes(values.skip(1))
    }
}

/// The run of signed 64-bit values that `input` holds.
pub open spec fn parse_packed_i64(input: Seq<u8>) -> Result<Seq<i64>, DecodeError>
    decreases input.len(),
{
    if input.len() == 0 {
        Ok(Seq::empty())
    } else {
        match parse_varint(input) {
            Err(e) => Err(e),
            Ok((wire, used)) => {
                proof {
                    lemma_parse_varint_bounds(input, 0);
                }
                match parse_packed_i64(input.skip(used as int)) {
                    Err(e) => Err(e),
                    Ok(rest) => Ok(seq![i64_from_wire(wire)] + rest),
                }
            },
        }
    }
}

/// The field that carries `value` under `number`.
pub open spec fn spec_varint_field(number: u32, value: u64) -> FieldView {
    FieldView { number, value: WireValueView::Varint(value) }
}

/// The field that carries `bytes` under `number`.
pub open spec fn spec_bytes_field(number: u32, bytes: Seq<u8>) -> FieldView {
    FieldView { number, value: WireValueView::Bytes(bytes) }
}

/// The field that carries the signed 64-bit `value` under `number`.
pub open spec fn spec_i64_field(number: u32, value: i64) -> FieldView {
    spec_varint_field(number, i64_to_wire(value))
}

/// The field that carries the signed 32-bit `value` under `number`.
pub open spec fn spec_i32_field(number: u32, value: i32) -> FieldView {
    spec_varint_field(number, i32_to_wire(value))
}

/// The field that carries the signed 16-bit `value` under `number`.
pub open spec fn spec_i16_field(number: u32, value: i16) -> FieldView {
    spec_varint_field(number, i16_to_wire(value))
}

/// The field that carries the truth value `value` under `number`.
pub open spec fn spec_bool_field(number: u32, value: bool) -> FieldView {
    spec_varint_field(number, bool_to_wire(value))
}

/// The field that carries `text` under `number`: its UTF-8 bytes.
pub open spec fn spec_text_field(number: u32, text: Seq<char>) -> FieldView {
    spec_bytes_field(number, encode_utf8(text))
}

/// The field that carries the run `values` under `number`.
pub open spec fn spec_packed_i64_field(number: u32, values: Seq<i64>) -> FieldView {
    spec_bytes_field(number, packed_i64_bytes(values))
}

/// The fields that carry an optional signed 64-bit value under `number`:
/// one where there is a value, none where there is not.
pub open spec fn spec_optional_i64_fields(number: u32, value: Option<i64>) -> Seq<FieldView> {
    match value {
        Some(inner) => seq![spec_i64_field(number, inner)],
        None => Seq::empty(),
    }
}

/// The varint value of a field, or why the field holds none.
pub open spec fn spec_expect_varint(field: FieldView) -> Result<u64, DecodeError> {
    match field.value {
        WireValueView::Varint(value) => Ok(value),
        _ => Err(DecodeError::UnexpectedWireType),
    }
}

/// The bytes of a field, or why the field holds none.
pub open spec fn spec_expect_bytes(field: FieldView) -> Result<Seq<u8>, DecodeError> {
    match field.value {
        WireValueView::Bytes(bytes) => Ok(bytes),
        _ => Err(DecodeError::UnexpectedWireType),
    }
}

/// The signed 64-bit value of a field, or why the field holds none.
pub open spec fn spec_read_i64(field: FieldView) -> Result<i64, DecodeError> {
    match spec_expect_varint(field) {
        Ok(wire) => Ok(i64_from_wire(wire)),
        Err(e) => Err(e),
    }
}

/// The signed 32-bit value of a field, or why the field holds none.
pub open spec fn spec_read_i32(field: FieldView) -> Result<i32, DecodeError> {
    match spec_expect_varint(field) {
        Ok(wire) => Ok(i32_from_wire(wire)),
        Err(e) => Err(e),
    }
}

/// The signed 16-bit value of a field, or why the field holds none.
pub open spec fn spec_read_i16(field: FieldView) -> Result<i16, DecodeError> {
    match spec_expect_varint(field) {
        Ok(wire) => Ok(i16_from_wire(wire)),
        Err(e) => Err(e),
    }
}

/// The truth value of a field, or why the field holds none.
pub open spec fn spec_read_bool(field: FieldView) -> Result<bool, DecodeError> {
    match spec_expect_varint(field) {
        Ok(wire) => Ok(bool_from_wire(wire)),
        Err(e) => Err(e),
    }
}

/// The text of a field, or why the field holds none.
pub open spec fn spec_read_text(field: FieldView) -> Result<Seq<char>, DecodeError> {
    match field.value {
        WireValueView::Bytes(bytes) => if valid_utf8(bytes) {
            Ok(decode_utf8(bytes))
        } else {
            Err(DecodeError::InvalidUtf8)
        },
        _ => Err(DecodeError::UnexpectedWireType),
    }
}

/// The values that a field adds to a run: one where it holds a varint, a
/// whole run where it holds bytes.
pub open spec fn spec_read_repeated_i64(field: FieldView) -> Result<Seq<i64>, DecodeError> {
    match field.value {
        WireValueView::Varint(wire) => Ok(seq![i64_from_wire(wire)]),
        WireValueView::Bytes(bytes) => parse_packed_i64(bytes),
        _ => Err(DecodeError::UnexpectedWireType),
    }
}

/// Text survives the wire.
pub proof fn lemma_text_field(number: u32, text: Seq<char>)
    ensures
        spec_read_text(spec_text_field(number, text)) == Ok::<Seq<char>, DecodeError>(text),
{
    encode_utf8_valid_utf8(text);
    encode_utf8_decode_utf8(text);
}

/// A written run reads back to itself.
pub proof fn lemma_parse_packed_i64(values: Seq<i64>)
    ensures
        parse_packed_i64(packed_i64_bytes(values)) == Ok::<Seq<i64>, DecodeError>(values),
    decreases values.len(),
{
    if values.len() == 0 {
        assert(values =~= Seq::empty());
    } else {
        let wire = i64_to_wire(values[0]);
        let rest = values.skip(1);
        lemma_varint_limit_top();
        lemma_varint_bytes_len(wire);
        lemma_parse_varint_bytes(wire, packed_i64_bytes(rest), 0);
        lemma_signed_wire(values[0], 0);
        lemma_parse_packed_i64(rest);
        assert(packed_i64_bytes(values).skip(varint_bytes(wire).len() as int) =~= packed_i64_bytes(
            rest,
        ));
        assert(seq![values[0]] + rest =~= values);
    }
}

/// Writing one more value appends its varint.
pub proof fn lemma_packed_i64_push(values: Seq<i64>, last: i64)
    ensures
        packed_i64_bytes(values.push(last)) == packed_i64_bytes(values) + varint_bytes(
            i64_to_wire(last),
        ),
    decreases values.len(),
{
    reveal_with_fuel(packed_i64_bytes, 2);
    if values.len() == 0 {
        assert(values.push(last).skip(1) =~= Seq::<i64>::empty());
        assert(packed_i64_bytes(values.push(last)) =~= packed_i64_bytes(values) + varint_bytes(
            i64_to_wire(last),
        ));
    } else {
        assert(values.push(last).skip(1) =~= values.skip(1).push(last));
        lemma_packed_i64_push(values.skip(1), last);
        assert(packed_i64_bytes(values.push(last)) =~= packed_i64_bytes(values) + varint_bytes(
            i64_to_wire(last),
        ));
    }
}

/// The field that holds the signed 64-bit `value` under `number`.
pub fn i64_field(number: u32, value: i64) -> (field: Field)
    ensures
        field@ == spec_i64_field(number, value),
{
    Field { number, value: WireValue::Varint(value as u64) }
}

/// The field that holds the signed 32-bit `value` under `number`.
pub fn i32_field(number: u32, value: i32) -> (field: Field)
    ensures
        field@ == spec_i32_field(number, value),
{
    Field { number, value: WireValue::Varint(value as u64) }
}

/// The field that holds the signed 16-bit `value` under `number`.
pub fn i16_field(number: u32, value: i16) -> (field: Field)
    ensures
        field@ == spec_i16_field(number, value),
{
    Field { number, value: WireValue::Varint(value as u64) }
}

/// The field that holds the truth value `value` under `number`.
pub fn bool_field(number: u32, value: bool) -> (field: Field)
    ensures
        field@ == spec_bool_field(number, value),
{
    let wire: u64 = if value {
        1
    } else {
        0
    };
    Field { number, value: WireValue::Varint(wire) }
}

/// The field that holds `bytes` under `number`.
pub fn bytes_field(number: u32, bytes: Vec<u8>) -> (field: Field)
    ensures
        field@ == spec_bytes_field(number, bytes@),
        1 <= number <= MAX_FIELD_NUMBER ==> valid_field(field@),
{
    let len: usize = bytes.len();
    assert(len <= u64::MAX);
    Field { number, value: WireValue::Bytes(bytes) }
}

/// The field that holds `text` under `number`.
pub fn text_field(number: u32, text: &str) -> (field: Field)
    ensures
        field@ == spec_text_field(number, text@),
        1 <= number <= MAX_FIELD_NUMBER ==> valid_field(field@),
{
    bytes_field(number, text.as_bytes_vec())
}

/// The field that holds the run `values` under `number`.
pub fn packed_i64_field(number: u32, values: &Vec<i64>) -> (field: Field)
    ensures
        field@ == spec_packed_i64_field(number, values@),
        1 <= number <= MAX_FIELD_NUMBER ==> valid_field(field@),
{
    bytes_field(number, encode_packed_i64(values))
}

/// The varint value of `field`. Fails exactly when, and as,
/// [`spec_expect_varint`] does.
pub fn expect_varint(field: &Field) -> (r: Result<u64, DecodeError>)
    ensures
        r == spec_expect_varint(field@),
{
    match &field.value {
        WireValue::Varint(value) => Ok(*value),
        _ => Err(DecodeError::UnexpectedWireType),
    }
}

/// The bytes of `field`. Fails exactly when, and as, [`spec_expect_bytes`]
/// does.
pub fn expect_bytes(field: Field) -> (r: Result<Vec<u8>, DecodeError>)
    ensures
        match r {
            Ok(bytes) => spec_expect_bytes(field@) == Ok::<Seq<u8>, DecodeError>(bytes@),
            Err(e) => spec_expect_bytes(field@) == Err::<Seq<u8>, DecodeError>(e),
        },
{
    match field.value {
        WireValue::Bytes(bytes) => Ok(bytes),
        _ => Err(DecodeError::UnexpectedWireType),
    }
}

/// The signed 64-bit value of `field`. Fails exactly when, and as,
/// [`spec_read_i64`] does.
pub fn read_i64(field: &Field) -> (r: Result<i64, DecodeError>)
    ensures
        r == spec_read_i64(field@),
{
    match expect_varint(field) {
        Ok(wire) => Ok(wire as i64),
        Err(e) => Err(e),
    }
}

/// The signed 32-bit value of `field`. Fails exactly when, and as,
/// [`spec_read_i32`] does.
pub fn read_i32(field: &Field) -> (r: Result<i32, DecodeError>)
    ensures
        r == spec_read_i32(field@),
{
    match expect_varint(field) {
        Ok(wire) => Ok(wire as i32),
        Err(e) => Err(e),
    }
}

/// The signed 16-bit value of `field`. Fails exactly when, and as,
/// [`spec_read_i16`] does.
pub fn read_i16(field: &Field) -> (r: Result<i16, DecodeError>)
    ensures
        r == spec_read_i16(field@),
{
    match expect_varint(field) {
        Ok(wire) => Ok(wire as i16),
        Err(e) => Err(e),
    }
}

/// The truth value of `field`. Fails exactly when, and as,
/// [`spec_read_bool`] does.
pub fn read_bool(field: &Field) -> (r: Result<bool, DecodeError>)
    ensures
        r == spec_read_bool(field@),
{
    match expect_varint(field) {
        Ok(wire) => Ok(wire != 0),
        Err(e) => Err(e),
    }
}

/// `std::str::from_utf8`: the bytes as text, where they are UTF-8. The text
/// that comes back has exactly the bytes that went in.
#[verifier::external_body]
fn utf8_text(bytes: &[u8]) -> (r: Option<&str>)
    ensures
        r.is_some() == valid_utf8(bytes@),
        r matches Some(text) ==> text.spec_bytes() == bytes@,
{
    match std::str::from_utf8(bytes) {
        Ok(text) => Some(text),
        Err(_) => None,
    }
}

/// The text of `field`. Fails exactly when, and as, [`spec_read_text`]
/// does.
pub fn read_text(field: &Field) -> (r: Result<String, DecodeError>)
    ensures
        match r {
            Ok(text) => spec_read_text(field@) == Ok::<Seq<char>, DecodeError>(text@),
            Err(e) => spec_read_text(field@) == Err::<Seq<char>, DecodeError>(e),
        },
{
    match &field.value {
        WireValue::Bytes(bytes) => match utf8_text(bytes.as_slice()) {
            None => Err(DecodeError::InvalidUtf8),
            Some(text) => {
                proof {
                    encode_utf8_decode_utf8(text@);
                }
                Ok(text.to_owned())
            },
        },
        _ => Err(DecodeError::UnexpectedWireType),
    }
}

/// The bytes of the run `values`.
pub fn encode_packed_i64(values: &Vec<i64>) -> (bytes: Vec<u8>)
    ensures
        bytes@ == packed_i64_bytes(values@),
{
    let mut bytes: Vec<u8> = Vec::new();
    let mut i: usize = 0;
    while i < values.len()
        invariant
            i <= values.len(),
            bytes@ == packed_i64_bytes(values@.take(i as int)),
        decreases values.len() - i,
    {
        proof {
            lemma_packed_i64_push(values@.take(i as int), values@[i as int]);
            assert(values@.take(i + 1) =~= values@.take(i as int).push(values@[i as int]));
        }
        encode_varint(values[i] as u64, &mut bytes);
        i = i + 1;
    }
    proof {
        assert(values@.take(i as int) =~= values@);
    }
    bytes
}

/// The outcome of reading a run once `front` has been read before it.
pub open spec fn prepend_i64(front: Seq<i64>, tail: Result<Seq<i64>, DecodeError>) -> Result<
    Seq<i64>,
    DecodeError,
> {
    match tail {
        Ok(rest) => Ok(front + rest),
        Err(e) => Err(e),
    }
}

/// Appends to `out` the run that `buf` holds. Fails exactly when, and as,
/// [`parse_packed_i64`] does.
pub fn decode_packed_i64(buf: &[u8], out: Vec<i64>) -> (r: Result<Vec<i64>, DecodeError>)
    ensures
        match r {
            Ok(values) => prepend_i64(out@, parse_packed_i64(buf@)) == Ok::<
                Seq<i64>,
                DecodeError,
            >(values@),
            Err(e) => parse_packed_i64(buf@) == Err::<Seq<i64>, DecodeError>(e),
        },
{
    let mut values: Vec<i64> = out;
    let mut pos: usize = 0;
    proof {
        assert(buf@.skip(0) =~= buf@);
    }
    while pos < buf.len()
        invariant
            pos <= buf.len(),
            prepend_i64(out@, parse_packed_i64(buf@)) == prepend_i64(
                values@,
                parse_packed_i64(buf@.skip(pos as int)),
            ),
        decreases buf.len() - pos,
    {
        let (wire, next) = match decode_varint(buf, pos) {
            Ok(pair) => pair,
            Err(e) => {
                return Err(e);
            },
        };
        proof {
            assert(buf@.skip(pos as int).skip(next - pos) =~= buf@.skip(next as int));
            match parse_packed_i64(buf@.skip(next as int)) {
                Ok(rest) => {
                    assert(values@ + (seq![i64_from_wire(wire)] + rest) =~= values@.push(
                        i64_from_wire(wire),
                    ) + rest);
                },
                Err(_) => {},
            }
        }
        values.push(wire as i64);
        pos = next;
    }
    proof {
        assert(values@ + Seq::<i64>::empty() =~= values@);
    }
    Ok(values)
}

/// Appends to `out` what `field` adds to a run. Fails exactly when, and
/// as, [`spec_read_repeated_i64`] does.
pub fn read_repeated_i64(field: &Field, out: Vec<i64>) -> (r: Result<Vec<i64>, DecodeError>)
    ensures
        match r {
            Ok(values) => prepend_i64(out@, spec_read_repeated_i64(field@)) == Ok::<
                Seq<i64>,
                DecodeError,
            >(values@),
            Err(e) => spec_read_repeated_i64(field@) == Err::<Seq<i64>, DecodeError>(e),
        },
{
    match &field.value {
        WireValue::Varint(wire) => {
            let mut values = out;
            values.push(*wire as i64);
            proof {
                assert(out@ + seq![i64_from_wire(*wire)] =~= values@);
            }
            Ok(values)
        },
        WireValue::Bytes(bytes) => decode_packed_i64(bytes.as_slice(), out),
        _ => Err(DecodeError::UnexpectedWireType),
    }
}

/// A record with a place in the wire format: the fields that stand for it,
/// and how a field read from the wire changes it.
pub trait WireMessage: Sized + View {
    /// The fields that stand for `value`, in the order they are written.
    spec fn spec_fields(value: Self::V) -> Seq<FieldView>;

    /// The record that an empty message stands for.
    spec fn spec_empty() -> Self::V;

    /// A record that can be written: each of its fields, and of the records
    /// inside it, is valid. Every record held in memory can be.
    spec fn spec_valid(value: Self::V) -> bool;

    /// The record after `field` is read into `value`. A field with an
    /// unknown number leaves the record as it is.
    spec fn spec_merge(value: Self::V, field: FieldView) -> Result<Self::V, DecodeError>;

    /// The record that an empty message stands for.
    fn empty() -> (message: Self)
        ensures
            message@ == Self::spec_empty(),
    ;

    /// The record after `field` is read into it. Fails exactly when, and
    /// as, [`WireMessage::spec_merge`] does.
    fn merge_field(self, field: Field) -> (r: Result<Self, DecodeError>)
        ensures
            match r {
                Ok(message) => Self::spec_merge(self@, field@) == Ok::<Self::V, DecodeError>(
                    message@,
                ),
                Err(e) => Self::spec_merge(self@, field@) == Err::<Self::V, DecodeError>(e),
            },
    ;

    /// The fields that stand for the record, in the order they are
    /// written.
    fn to_fields(&self) -> (fields: Vec<Field>)
        ensures
            fields_view(fields@) == Self::spec_fields(self@),
            valid_fields(Self::spec_fields(self@)),
            Self::spec_valid(self@),
    ;
}

/// The record after `fields` are read into `value` one by one.
pub open spec fn spec_merge_fields<M: WireMessage>(value: M::V, fields: Seq<FieldView>) -> Result<
    M::V,
    DecodeError,
>
    decreases fields.len(),
{
    if fields.len() == 0 {
        Ok(value)
    } else {
        match M::spec_merge(value, fields[0]) {
            Err(e) => Err(e),
            Ok(next) => spec_merge_fields::<M>(next, fields.skip(1)),
        }
    }
}

/// The record after the fields of `input` are read into `value`, each as
/// soon as it is parsed.
pub open spec fn spec_decode_into<M: WireMessage>(value: M::V, input: Seq<u8>) -> Result<
    M::V,
    DecodeError,
>
    decreases input.len(),
{
    if input.len() == 0 {
        Ok(value)
    } else {
        match parse_field(input) {
            Err(e) => Err(e),
            Ok((field, used)) => match M::spec_merge(value, field) {
                Err(e) => Err(e),
                Ok(next) => {
                    proof {
                        lemma_parse_field_bounds(input);
                    }
                    spec_decode_into::<M>(next, input.skip(used as int))
                },
            },
        }
    }
}

/// A message whose own fields read back to itself.
pub trait RoundTrip: WireMessage {
    /// Reading the fields of a record into an empty one gives the record.
    proof fn lemma_merge_fields(value: Self::V)
        requires
            Self::spec_valid(value),
        ensures
            valid_fields(Self::spec_fields(value)),
            spec_merge_fields::<Self>(Self::spec_empty(), Self::spec_fields(value)) == Ok::<
                Self::V,
                DecodeError,
            >(value),
    ;
}

/// The bytes of a record.
pub open spec fn spec_encode<M: WireMessage>(value: M::V) -> Seq<u8> {
    fields_bytes(M::spec_fields(value))
}

/// The record that `input` stands for, or why it stands for none.
pub open spec fn spec_decode<M: WireMessage>(input: Seq<u8>) -> Result<M::V, DecodeError> {
    spec_decode_into::<M>(M::spec_empty(), input)
}

/// Decoding written fields is reading them one by one.
pub proof fn lemma_decode_fields_bytes<M: WireMessage>(value: M::V, fields: Seq<FieldView>)
    requires
        valid_fields(fields),
    ensures
        spec_decode_into::<M>(value, fields_bytes(fields)) == spec_merge_fields::<M>(
            value,
            fields,
        ),
    decreases fields.len(),
{
    if fields.len() > 0 {
        let first = fields[0];
        let rest = fields.skip(1);
        lemma_parse_field_bytes(first, fields_bytes(rest));
        assert(fields_bytes(fields).skip(field_bytes(first).len() as int) =~= fields_bytes(rest));
        match M::spec_merge(value, first) {
            Ok(next) => {
                lemma_decode_fields_bytes::<M>(next, rest);
            },
            Err(_) => {},
        }
    }
}

/// Decoding inverts encoding: the bytes of a record decode to that record.
pub proof fn lemma_decode_encode<M: RoundTrip>(value: M::V)
    requires
        M::spec_valid(value),
    ensures
        spec_decode::<M>(spec_encode::<M>(value)) == Ok::<M::V, DecodeError>(value),
{
    M::lemma_merge_fields(value);
    lemma_decode_fields_bytes::<M>(M::spec_empty(), M::spec_fields(value));
}

/// The bytes of `message`.
pub fn encode_message<M: WireMessage>(message: &M) -> (bytes: Vec<u8>)
    ensures
        bytes@ == spec_encode::<M>(message@),
        M::spec_valid(message@),
{
    let fields = message.to_fields();
    encode_fields(&fields)
}

/// The message that `buf` stands for. Fails exactly when, and as,
/// [`spec_decode`] does.
pub fn decode_message<M: WireMessage>(buf: &[u8]) -> (r: Result<M, DecodeError>)
    ensures
        match r {
            Ok(message) => spec_decode::<M>(buf@) == Ok::<M::V, DecodeError>(message@),
            Err(e) => spec_decode::<M>(buf@) == Err::<M::V, DecodeError>(e),
        },
{
    let mut message: M = M::empty();
    let mut pos: usize = 0;
    proof {
        assert(buf@.skip(0) =~= buf@);
    }
    while pos < buf.len()
        invariant
            pos <= buf.len(),
            spec_decode::<M>(buf@) == spec_decode_into::<M>(message@, buf@.skip(pos as int)),
        decreases buf.len() - pos,
    {
        let (field, next) = match decode_field(buf, pos) {
            Ok(pair) => pair,
            Err(e) => {
                return Err(e);
            },
        };
        proof {
            assert(buf@.skip(pos as int).skip(next - pos) =~= buf@.skip(next as int));
        }
        message = match message.merge_field(field) {
            Ok(merged) => merged,
            Err(e) => {
                return Err(e);
            },
        };
        pos = next;
    }
    Ok(message)
}

/// The field that carries the record `value` under `number`.
pub open spec fn spec_message_field<M: WireMessage>(number: u32, value: M::V) -> FieldView {
    spec_bytes_field(number, spec_encode::<M>(value))
}

/// The fields that carry the records `values` under `number`, one field
/// for each.
pub open spec fn spec_repeated_message_fields<M: WireMessage>(
    number: u32,
    values: Seq<M::V>,
) -> Seq<FieldView> {
    Seq::new(values.len(), |i: int| spec_message_field::<M>(number, values[i]))
}

/// The record of a field, or why the field holds none.
pub open spec fn spec_read_message<M: WireMessage>(field: FieldView) -> Result<M::V, DecodeError> {
    match spec_expect_bytes(field) {
        Ok(bytes) => spec_decode::<M>(bytes),
        Err(e) => Err(e),
    }
}

/// The records of a list, each by its view.
pub open spec fn views<M: View>(messages: Seq<M>) -> Seq<M::V> {
    Seq::new(messages.len(), |i: int| messages[i]@)
}

/// Every record of the list can be written.
pub open spec fn all_valid<M: WireMessage>(values: Seq<M::V>) -> bool {
    forall|i: int| 0 <= i < values.len() ==> M::spec_valid(#[trigger] values[i])
}

/// A record inside a field survives the wire.
pub proof fn lemma_message_field<M: RoundTrip>(number: u32, value: M::V)
    requires
        M::spec_valid(value),
    ensures
        spec_read_message::<M>(spec_message_field::<M>(number, value)) == Ok::<
            M::V,
            DecodeError,
        >(value),
{
    lemma_decode_encode::<M>(value);
}

/// The record of `field`. Fails exactly when, and as,
/// [`spec_read_message`] does.
pub fn read_message<M: WireMessage>(field: &Field) -> (r: Result<M, DecodeError>)
    ensures
        match r {
            Ok(message) => spec_read_message::<M>(field@) == Ok::<M::V, DecodeError>(message@),
            Err(e) => spec_read_message::<M>(field@) == Err::<M::V, DecodeError>(e),
        },
{
    match &field.value {
        WireValue::Bytes(bytes) => decode_message(bytes.as_slice()),
        _ => Err(DecodeError::UnexpectedWireType),
    }
}

/// The field that holds `message` under `number`.
pub fn message_field<M: WireMessage>(number: u32, message: &M) -> (field: Field)
    ensures
        field@ == spec_message_field::<M>(number, message@),
        1 <= number <= MAX_FIELD_NUMBER ==> valid_field(field@),
        M::spec_valid(message@),
{
    bytes_field(number, encode_message(message))
}

/// Appends to `fields`, for each of `messages`, a field that holds it under
/// `number`.
pub fn push_message_fields<M: WireMessage>(fields: &mut Vec<Field>, number: u32, messages: &Vec<M>)
    requires
        1 <= number <= MAX_FIELD_NUMBER,
    ensures
        fields_view(final(fields)@) == fields_view(old(fields)@) + spec_repeated_message_fields::<
            M,
        >(number, views(messages@)),
        valid_fields(spec_repeated_message_fields::<M>(number, views(messages@))),
        all_valid::<M>(views(messages@)),
{
    let mut i: usize = 0;
    let ghost all = spec_repeated_message_fields::<M>(number, views(messages@));
    proof {
        assert(fields_view(fields@) =~= fields_view(old(fields)@) + all.take(0));
    }
    while i < messages.len()
        invariant
            i <= messages.len(),
            1 <= number <= MAX_FIELD_NUMBER,
            all == spec_repeated_message_fields::<M>(number, views(messages@)),
            fields_view(fields@) == fields_view(old(fields)@) + all.take(i as int),
            forall|j: int| 0 <= j < i ==> valid_field(#[trigger] all[j]),
            forall|j: int| 0 <= j < i ==> M::spec_valid(#[trigger] views(messages@)[j]),
        decreases messages.len() - i,
    {
        let ghost before = fields_view(fields@);
        let field = message_field(number, &messages[i]);
        fields.push(field);
        proof {
            assert(field@ == all[i as int]);
            assert(fields_view(fields@) =~= before.push(field@));
            assert(all.take(i + 1) =~= all.take(i as int).push(all[i as int]));
            assert(fields_view(fields@) =~= fields_view(old(fields)@) + all.take(i + 1));
        }
        i = i + 1;
    }
    proof {
        assert(all.take(i as int) =~= all);
    }
}

/// Reading two lists one after the other reads their concatenation.
pub proof fn lemma_merge_fields_concat<M: WireMessage>(
    value: M::V,
    front: Seq<FieldView>,
    back: Seq<FieldView>,
)
    ensures
        spec_merge_fields::<M>(value, front + back) == match spec_merge_fields::<M>(value, front) {
            Ok(middle) => spec_merge_fields::<M>(middle, back),
            Err(e) => Err(e),
        },
    decreases front.len(),
{
    if front.len() == 0 {
        assert(front + back =~= back);
    } else {
        assert((front + back).skip(1) =~= front.skip(1) + back);
        match M::spec_merge(value, front[0]) {
            Ok(next) => {
                lemma_merge_fields_concat::<M>(next, front.skip(1), back);
            },
            Err(_) => {},
        }
    }
}

/// The envelope that frames every packet on a connection: the identifier
/// of the packet's type and the packet's own bytes. Field `1` holds the
/// identifier, field `2` the bytes; a zero identifier and empty bytes are
/// left out of the frame.
#[derive(Clone, Debug, PartialEq, Eq)]
pub struct PacketMessage {
    pub id: i32,
    pub data: Vec<u8>,
}

/// What a [`PacketMessage`] holds.
pub struct PacketMessageView {
    pub id: i32,
    pub data: Seq<u8>,
}

impl View for PacketMessage {
    type V = PacketMessageView;

    open spec fn view(&self) -> PacketMessageView {
        PacketMessageView { id: self.id, data: self.data@ }
    }
}

impl WireMessage for PacketMessage {
    open spec fn spec_fields(value: PacketMessageView) -> Seq<FieldView> {
        let id = if value.id != 0 {
            seq![spec_i32_field(1, value.id)]
        } else {
            Seq::empty()
        };
        let data = if value.data.len() != 0 {
            seq![spec_bytes_field(2, value.data)]
        } else {
            Seq::empty()
        };
        id + data
    }

    open spec fn spec_empty() -> PacketMessageView {
        PacketMessageView { id: 0, data: Seq::empty() }
    }

    open spec fn spec_valid(value: PacketMessageView) -> bool {
        valid_fields(Self::spec_fields(value))
    }

    open spec fn spec_merge(value: PacketMessageView, field: FieldView) -> Result<
        PacketMessageView,
        DecodeError,
    > {
        if field.number == 1 {
            match spec_expect_varint(field) {
                Ok(wire) => Ok(PacketMessageView { id: i32_from_wire(wire), data: value.data }),
                Err(e) => Err(e),
            }
        } else if field.number == 2 {
            match spec_expect_bytes(field) {
                Ok(bytes) => Ok(PacketMessageView { id: value.id, data: bytes }),
                Err(e) => Err(e),
            }
        } else {
            Ok(value)
        }
    }

    fn empty() -> (message: Self) {
        PacketMessage { id: 0, data: Vec::new() }
    }

    fn merge_field(self, field: Field) -> (r: Result<Self, DecodeError>) {
        if field.number == 1 {
            let wire = expect_varint(&field)?;
            Ok(PacketMessage { id: wire as i32, data: self.data })
        } else if field.number == 2 {
            let bytes = expect_bytes(field)?;
            Ok(PacketMessage { id: self.id, data: bytes })
        } else {
            Ok(self)
        }
    }

    fn to_fields(&self) -> (fields: Vec<Field>) {
        let mut fields: Vec<Field> = Vec::new();
        if self.id != 0 {
            fields.push(i32_field(1, self.id));
        }
        if self.data.len() != 0 {
            fields.push(bytes_field(2, self.data.clone()));
        }
        proof {
            assert(fields_view(fields@) =~= Self::spec_fields(self@));
        }
        fields
    }
}

impl RoundTrip for PacketMessage {
    proof fn lemma_merge_fields(value: PacketMessageView) {
        reveal_with_fuel(spec_merge_fields, 3);
        lemma_signed_wire(0, value.id);
        let fields = Self::spec_fields(value);
        if value.data.len() == 0 {
            assert(value.data =~= Seq::empty());
        }
        if fields.len() == 2 {
            assert(fields.skip(1) =~= seq![spec_bytes_field(2, value.data)]);
            assert(fields.skip(1).skip(1) =~= Seq::<FieldView>::empty());
        } else if fields.len() == 1 {
            assert(fields.skip(1) =~= Seq::<FieldView>::empty());
        }
    }
}

/// The frame of a packet with the type identifier `id` and the bytes `data`.
pub open spec fn spec_frame(id: i32, data: Seq<u8>) -> Seq<u8> {
    spec_encode::<PacketMessage>(PacketMessageView { id, data })
}

/// A frame decodes to the envelope it was made from: the identifier and
/// the bytes of a packet survive the framing.
pub proof fn lemma_frame_decodes(id: i32, data: Seq<u8>)
    requires
        data.len() <= u64::MAX,
    ensures
        spec_decode::<PacketMessage>(spec_frame(id, data)) == Ok::<PacketMessageView, DecodeError>(
            PacketMessageView { id, data },
        ),
{
    lemma_decode_encode::<PacketMessage>(PacketMessageView { id, data });
}

/// The type identifier of a kind of packet, known without a value of it.
/// Identifiers are unique within a direction only.
pub trait PacketStaticId {
    /// The type identifier of the kind.
    spec fn spec_static_id() -> i32;

    /// The type identifier of the kind.
    fn get_id() -> (id: i32)
        ensures
            id == Self::spec_static_id(),
    ;
}

/// One kind of packet: a message with a type identifier.
pub trait Packet: WireMessage + PacketStaticId {
    /// The type identifier of the packet, which is that of its kind.
    fn get_id(&self) -> (id: i32)
        ensures
            id == Self::spec_static_id(),
    ;

    /// The bytes of the packet, without its envelope.
    fn encode_data(&self) -> (bytes: Vec<u8>)
        ensures
            bytes@ == spec_encode::<Self>(self@),
            Self::spec_valid(self@),
    {
        encode_message(self)
    }

    /// The packet that `buffer` stands for. Fails exactly when, and as,
    /// [`spec_decode`] does.
    fn decode_data(buffer: &[u8]) -> (r: Result<Self, DecodeError>)
        ensures
            match r {
                Ok(packet) => spec_decode::<Self>(buffer@) == Ok::<Self::V, DecodeError>(packet@),
                Err(e) => spec_decode::<Self>(buffer@) == Err::<Self::V, DecodeError>(e),
            },
    {
        decode_message(buffer)
    }
}

/// The frame that carries `packet`: its envelope, encoded.
pub fn encode_packet_message<P: Packet>(packet: &P) -> (frame: Vec<u8>)
    ensures
        frame@ == spec_frame(P::spec_static_id(), spec_encode::<P>(packet@)),
{
    let envelope = PacketMessage { id: packet.get_id(), data: packet.encode_data() };
    encode_message(&envelope)
}

} // verus!
