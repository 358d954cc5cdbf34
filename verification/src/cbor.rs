//! The CBOR codec, as far as calls to host services need it.
//!
//! Values are those of `oasis_cbor_value`, and so are the writer and the
//! reader. Neither is verified here. Specifications speak of a value through
//! the [`DataItem`] that it stands for, and of the codec through two names,
//! [`encoding`] and [`decoding`], of which this module claims no more than
//! that the writer and the reader compute them.
use vstd::prelude::*;
use oasis_cbor_value::reader::DecoderError;
use oasis_cbor_value::values::{SimpleValue, Value};

verus! {

/// A CBOR value. Its variants are public, and Verus reads them from the
/// crate that defines them: nothing is claimed of the type here.
#[verifier::external_type_specification]
pub struct ExValue(oasis_cbor_value::values::Value);

/// The simple values of CBOR: false, true, null and undefined. Read from
/// the crate like [`Value`].
#[verifier::external_type_specification]
pub struct ExSimpleValue(oasis_cbor_value::values::SimpleValue);

/// The reason for which the reader gave up on its input. It is handed on
/// and never looked into.
#[verifier::external_type_specification]
#[verifier::external_body]
pub struct ExDecoderError(oasis_cbor_value::reader::DecoderError);

/// What a [`Value`] stands for: the same tree, with sequences in place of
/// vectors and strings.
pub enum DataItem {
    Unsigned(u64),
    Negative(i128),
    ByteString(Seq<u8>),
    TextString(Seq<char>),
    Array(Seq<DataItem>),
    Mapping(Seq<(DataItem, DataItem)>),
    Tag(u64, Box<DataItem>),
    Simple(SimpleValue),
}

/// The data item that `value` stands for.
pub open spec fn item_of(value: Value) -> DataItem
    decreases value,
{
    match value {
        Value::Unsigned(n) => DataItem::Unsigned(n),
        Value::Negative(n) => DataItem::Negative(n),
        Value::ByteString(bytes) => DataItem::ByteString(bytes@),
        Value::TextString(text) => DataItem::TextString(text@),
        Value::Array(items) => DataItem::Array(
            Seq::new(
                items@.len(),
                |i: int|
                    if 0 <= i < items@.len() {
                        item_of(items@[i])
                    } else {
                        // Never asked for: the sequence ends before.
                        DataItem::Unsigned(0)
                    },
            ),
        ),
        Value::Map(entries) => DataItem::Mapping(
            Seq::new(
                entries@.len(),
                |i: int|
                    if 0 <= i < entries@.len() {
                        (item_of(entries@[i].0), item_of(entries@[i].1))
                    } else {
                        // Never asked for: the sequence ends before.
                        (DataItem::Unsigned(0), DataItem::Unsigned(0))
                    },
            ),
        ),
        Value::Tag(tag, inner) => DataItem::Tag(tag, Box::new(item_of(*inner))),
        Value::Simple(simple) => DataItem::Simple(simple),
    }
}

/// Whether the writer can work on `item`. To encode a negative integer it
/// adds one to it, which the largest `i128` does not allow.
pub open spec fn writable(item: DataItem) -> bool
    decreases item,
{
    match item {
        DataItem::Negative(n) => n < i128::MAX,
        DataItem::Array(items) => forall|i: int|
            0 <= i < items.len() ==> writable(#[trigger] items[i]),
        DataItem::Mapping(entries) => forall|i: int|
            0 <= i < entries.len() ==> writable((#[trigger] entries[i]).0) && writable(
                entries[i].1,
            ),
        DataItem::Tag(_, inner) => writable(*inner),
        _ => true,
    }
}

/// The elements of an array, and the keys and values of a map, are smaller
/// than the array or the map: a recursion that goes from a value to its
/// parts comes to an end.
proof fn lemma_parts_are_smaller(value: Value, i: int)
    ensures
        value matches Value::Array(items) ==> 0 <= i < items@.len() ==> decreases_to!(
            value => items@[i]
        ),
        value matches Value::Map(entries) ==> 0 <= i < entries@.len() ==> decreases_to!(
            value => entries@[i].0
        ) && decreases_to!(value => entries@[i].1),
{
    match value {
        Value::Array(items) => {
            if 0 <= i < items@.len() {
                vstd::std_specs::vec::axiom_vec_index_decreases(items, i);
                assert(decreases_to!(value => items));
            }
        },
        Value::Map(entries) => {
            if 0 <= i < entries@.len() {
                vstd::std_specs::vec::axiom_vec_index_decreases(entries, i);
                assert(decreases_to!(value => entries));
                assert(decreases_to!(entries@[i] => entries@[i].0));
                assert(decreases_to!(entries@[i] => entries@[i].1));
            }
        },
        _ => {},
    }
}

/// Tells whether the writer can work on `value`.
pub fn is_writable(value: &Value) -> (ok: bool)
    ensures
        ok == writable(item_of(*value)),
    decreases *value,
{
    match value {
        Value::Negative(n) => *n < i128::MAX,
        Value::Array(items) => {
            let ghost held = item_of(*value)->Array_0;
            let mut at: usize = 0;
            while at < items.len()
                invariant
                    at <= items.len(),
                    *value == Value::Array(*items),
                    held == item_of(*value)->Array_0,
                    forall|i: int| 0 <= i < at ==> writable(#[trigger] held[i]),
                decreases items.len() - at,
            {
                proof {
                    lemma_parts_are_smaller(*value, at as int);
                    assert(held[at as int] == item_of(items@[at as int]));
                }
                if !is_writable(&items[at]) {
                    return false;
                }
                at += 1;
            }
            true
        },
        Value::Map(entries) => {
            let ghost held = item_of(*value)->Mapping_0;
            let mut at: usize = 0;
            while at < entries.len()
                invariant
                    at <= entries.len(),
                    *value == Value::Map(*entries),
                    held == item_of(*value)->Mapping_0,
                    forall|i: int|
                        0 <= i < at ==> writable((#[trigger] held[i]).0) && writable(held[i].1),
                decreases entries.len() - at,
            {
                proof {
                    lemma_parts_are_smaller(*value, at as int);
                    assert(held[at as int] == (
                        item_of(entries@[at as int].0),
                        item_of(entries@[at as int].1),
                    ));
                }
                if !is_writable(&entries[at].0) || !is_writable(&entries[at].1) {
                    return false;
                }
                at += 1;
            }
            true
        },
        Value::Tag(_, inner) => is_writable(inner),
        _ => true,
    }
}

/// The bytes that the writer produces for a writable `item`, or `None`
/// where it refuses the item.
pub uninterp spec fn encoding(item: DataItem) -> Option<Seq<u8>>;

/// `oasis_cbor_value::writer::write` into an empty vector. The writer
/// returns an error for a value that nests deeper than 127 levels and for a
/// map that holds a key twice; for every other value, the vector then holds
/// the canonical encoding of the item that the value stands for. What it
/// produces depends on nothing but that item. The largest `i128` as a
/// negative integer makes its arithmetic overflow, so such values are kept
/// from it.
#[verifier::external_body]
pub(crate) fn encode(value: Value) -> (bytes: Option<Vec<u8>>)
    requires
        writable(item_of(value)),
    ensures
        match bytes {
            Some(b) => encoding(item_of(value)) == Some(b@),
            None => encoding(item_of(value)) is None,
        },
{
    let mut data = Vec::new();
    match oasis_cbor_value::writer::write(value, &mut data) {
        Ok(()) => Some(data),
        Err(_) => None,
    }
}

/// The data item that the reader finds in `bytes`, when it follows nested
/// items down to the depth `max_nest` (to any depth, for `None`), or `None`
/// where it finds fault with the bytes.
pub uninterp spec fn decoding(bytes: Seq<u8>, max_nest: Option<i8>) -> Option<DataItem>;

/// How deep the values in a response may nest.
pub const MAX_NESTING_LEVEL: i8 = 64;

/// `oasis_cbor_value::reader::read_nested` takes exactly one value from
/// `encoded_cbor`, which must be in canonical form and leave no byte over,
/// and fails otherwise. What it returns depends on nothing but its two
/// arguments. It does not panic: it checks every length against what is
/// left of its input, and it stops at the depth `max_nest`.
pub assume_specification[ oasis_cbor_value::reader::read_nested ](
    encoded_cbor: &[u8],
    max_nest: Option<i8>,
) -> (value: Result<Value, DecoderError>)
    ensures
        match value {
            Ok(v) => decoding(encoded_cbor@, max_nest) == Some(item_of(v)),
            Err(_) => decoding(encoded_cbor@, max_nest) is None,
        },
;

/// Why a payload could not be turned into the value that was expected.
///
/// The reader reports every payload that is not one well-formed CBOR value
/// as [`DecodeError::ParsingFailed`]. The other variants are for whoever
/// turns the value into a type of their own.
#[derive(Clone, Copy, Debug, PartialEq, Eq)]
pub enum DecodeError {
    ParsingFailed,
    UnexpectedType,
    MissingField,
    UnknownField,
    UnexpectedIntegerSize,
}

impl DecodeError {
    /// The description of the error, as a sequence of characters.
    pub open spec fn description(self) -> Seq<char> {
        match self {
            DecodeError::ParsingFailed => "parsing failed"@,
            DecodeError::UnexpectedType => "unexpected type"@,
            DecodeError::MissingField => "missing field"@,
            DecodeError::UnknownField => "unknown field"@,
            DecodeError::UnexpectedIntegerSize => "unexpected integer size"@,
        }
    }

    /// A description of the error, for people to read.
    pub fn message(&self) -> (text: String)
        ensures
            text@ == self.description(),
    {
        match self {
            DecodeError::ParsingFailed => "parsing failed".to_owned(),
            DecodeError::UnexpectedType => "unexpected type".to_owned(),
            DecodeError::MissingField => "missing field".to_owned(),
            DecodeError::UnknownField => "unknown field".to_owned(),
            DecodeError::UnexpectedIntegerSize => "unexpected integer size".to_owned(),
        }
    }
}

} // verus!
