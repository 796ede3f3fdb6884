//! Column values as the binlog carries them, and the scalars they decode to.

use vstd::prelude::*;
use vstd::utf8::{decode_utf8, valid_utf8};
use crate::binary_json::{check_document, document_ok};

verus! {

/// One column's value in a row image, as the binlog decoder produced it.
///
/// Floating-point columns are carried as the bits of their binary64 value.
#[derive(Clone, Debug, PartialEq)]
pub enum ColumnValue {
    Null,
    Tiny(i8),
    Short(i16),
    Long(i32),
    LongLong(i64),
    /// A binary32 column, as the bits of the binary64 value it widens to.
    Float(u64),
    /// A binary64 column, as its bits.
    Double(u64),
    Decimal(String),
    Time(String),
    Date(String),
    DateTime(String),
    /// Seconds since the epoch.
    Timestamp(i64),
    Year(u16),
    /// Text in the column's character set.
    String(Vec<u8>),
    Blob(Vec<u8>),
    Bit(u64),
    /// The members of a SET column, one bit each.
    SetMembers(u64),
    Enum(u32),
    /// A JSON document in MySQL's binary form.
    Json(Vec<u8>),
}

/// A decoded column value.
#[derive(Clone, Debug, PartialEq)]
pub enum Value {
    Null,
    Int(i64),
    /// A floating-point value, as the bits of its binary64 form.
    Float(u64),
    Text(String),
}

/// What a `Value` stands for.
pub enum ValueView {
    Null,
    Int(i64),
    Float(u64),
    Text(Seq<char>),
}

impl View for Value {
    type V = ValueView;

    open spec fn view(&self) -> ValueView {
        match self {
            Value::Null => ValueView::Null,
            Value::Int(i) => ValueView::Int(*i),
            Value::Float(b) => ValueView::Float(*b),
            Value::Text(s) => ValueView::Text(s@),
        }
    }
}

/// The padded standard base-64 text of `b`.
pub uninterp spec fn base64_text(b: Seq<u8>) -> Seq<char>;

/// The text of the JSON document that `b` holds in MySQL's binary form, if it
/// holds one.
pub uninterp spec fn json_text(b: Seq<u8>) -> Option<Seq<char>>;

/// Relies on base64's `Engine::encode` with the `STANDARD` engine: the padded
/// base-64 text of the bytes, which depends on the bytes alone.
#[verifier::external_body]
fn encode_base64(b: &Vec<u8>) -> (r: String)
    ensures
        r@ == base64_text(b@),
{
    base64::Engine::encode(&base64::engine::general_purpose::STANDARD, b)
}

/// Relies on `String::from_utf8`: it succeeds exactly on valid UTF-8, with the
/// characters that the bytes encode.
#[verifier::external_body]
fn utf8_text(b: &Vec<u8>) -> (r: Option<String>)
    ensures
        match r {
            Some(s) => valid_utf8(b@) && s@ == decode_utf8(b@),
            None => !valid_utf8(b@),
        },
{
    String::from_utf8(b.clone()).ok()
}

/// Relies on mysql_binlog_connector_rust's `JsonBinary::parse_as_string`,
/// which renders a binary JSON document as text. It trusts the document's
/// counts, offsets and lengths, so it is called only on documents that
/// `document_ok` admits.
#[verifier::external_body]
fn json_to_text(b: &Vec<u8>) -> (r: Option<String>)
    requires
        document_ok(b@),
    ensures
        match r {
            Some(s) => json_text(b@) == Some(s@),
            None => json_text(b@) is None,
        },
{
    mysql_binlog_connector_rust::column::json::json_binary::JsonBinary::parse_as_string(b).ok()
}

/// The scalar that a column value decodes to: integers stay integers,
/// temporal and decimal text stays text, text that is not UTF-8 and binary
/// data become base-64, JSON becomes its text (base-64 where it cannot be
/// read, or where the reader could not take it safely), and the bit, set and
/// enum codes become integers.
pub open spec fn decoded(c: ColumnValue) -> ValueView {
    match c {
        ColumnValue::Null => ValueView::Null,
        ColumnValue::Tiny(i) => ValueView::Int(i as i64),
        ColumnValue::Short(i) => ValueView::Int(i as i64),
        ColumnValue::Long(i) => ValueView::Int(i as i64),
        ColumnValue::LongLong(i) => ValueView::Int(i),
        ColumnValue::Float(b) => ValueView::Float(b),
        ColumnValue::Double(b) => ValueView::Float(b),
        ColumnValue::Decimal(s) => ValueView::Text(s@),
        ColumnValue::Time(s) => ValueView::Text(s@),
        ColumnValue::Date(s) => ValueView::Text(s@),
        ColumnValue::DateTime(s) => ValueView::Text(s@),
        ColumnValue::Timestamp(t) => ValueView::Int(t),
        ColumnValue::Year(y) => ValueView::Int(y as i64),
        ColumnValue::String(b) => if valid_utf8(b@) {
            ValueView::Text(decode_utf8(b@))
        } else {
            ValueView::Text(base64_text(b@))
        },
        ColumnValue::Blob(b) => ValueView::Text(base64_text(b@)),
        ColumnValue::Bit(v) => ValueView::Int(v as i64),
        ColumnValue::SetMembers(v) => ValueView::Int(v as i64),
        ColumnValue::Enum(v) => ValueView::Int(v as i64),
        ColumnValue::Json(b) => match (if document_ok(b@) { json_text(b@) } else { None }) {
            Some(t) => ValueView::Text(t),
            None => ValueView::Text(base64_text(b@)),
        },
    }
}

/// Decodes one column value.
pub fn decode_value(c: ColumnValue) -> (r: Value)
    ensures
        r@ == decoded(c),
{
    match c {
        ColumnValue::Null => Value::Null,
        ColumnValue::Tiny(i) => Value::Int(i as i64),
        ColumnValue::Short(i) => Value::Int(i as i64),
        ColumnValue::Long(i) => Value::Int(i as i64),
        ColumnValue::LongLong(i) => Value::Int(i),
        ColumnValue::Float(b) => Value::Float(b),
        ColumnValue::Double(b) => Value::Float(b),
        ColumnValue::Decimal(s) => Value::Text(s),
        ColumnValue::Time(s) => Value::Text(s),
        ColumnValue::Date(s) => Value::Text(s),
        ColumnValue::DateTime(s) => Value::Text(s),
        ColumnValue::Timestamp(t) => Value::Int(t),
        ColumnValue::Year(y) => Value::Int(y as i64),
        ColumnValue::String(b) => match utf8_text(&b) {
            Some(s) => Value::Text(s),
            None => Value::Text(encode_base64(&b)),
        },
        ColumnValue::Blob(b) => Value::Text(encode_base64(&b)),
        ColumnValue::Bit(v) => Value::Int(#[verifier::truncate] (v as i64)),
        ColumnValue::SetMembers(v) => Value::Int(#[verifier::truncate] (v as i64)),
        ColumnValue::Enum(v) => Value::Int(v as i64),
        ColumnValue::Json(b) => {
            let text = if check_document(&b) { json_to_text(&b) } else { None };
            match text {
                Some(t) => Value::Text(t),
                None => Value::Text(encode_base64(&b)),
            }
        },
    }
}

} // verus!
