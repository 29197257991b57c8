//! The conversion between attributes and the backend's binary column
//! values.

use vstd::prelude::*;
use vstd::utf8::*;
use bytes::BytesMut;
use postgres::types::{FromSql, ToSql, Type};
use crate::attribute::{Attribute, AttributeType, AttributeValue};
use crate::wire::{
    be_bytes, be_value, lemma_be_bytes_len, lemma_be_round_trip, lemma_be_value_bound,
    lemma_radix_values, lemma_signed_round_trip, put_be, read_be, signed_bytes, signed_value,
};

verus! {

/// The type of a backend column, as far as the codec tells types apart.
#[derive(Debug, Clone, Copy, PartialEq, Eq)]
pub enum ColumnType {
    Bool,
    /// The single-byte character type.
    Char,
    Int2,
    Int4,
    Int8,
    Float4,
    Float8,
    Varchar,
    Text,
    /// The blank-padded character type.
    Bpchar,
    /// The type of identifiers.
    Name,
    /// An enumeration that the backend's schema defines.
    Enum,
    /// Any other type, by its object identifier.
    Unsupported(u32),
}

/// Why a value could not be converted.
#[derive(Debug, Clone, Copy, PartialEq, Eq)]
pub enum CodecError {
    /// The column's type has no attribute kind.
    TypeMismatch,
    /// The bytes are not a value of the column's type.
    Malformed,
}

impl ColumnType {
    /// The kind of attribute that columns of this type hold, `None` for a
    /// type that the codec does not support.
    pub open spec fn attribute_kind(self) -> Option<AttributeType> {
        match self {
            ColumnType::Bool => Some(AttributeType::Bool),
            ColumnType::Char => Some(AttributeType::I8),
            ColumnType::Int2 => Some(AttributeType::I16),
            ColumnType::Int4 => Some(AttributeType::I32),
            ColumnType::Int8 => Some(AttributeType::I64),
            ColumnType::Float4 => Some(AttributeType::F32),
            ColumnType::Float8 => Some(AttributeType::F64),
            ColumnType::Varchar => Some(AttributeType::String),
            ColumnType::Text => Some(AttributeType::String),
            ColumnType::Bpchar => Some(AttributeType::String),
            ColumnType::Name => Some(AttributeType::String),
            ColumnType::Enum => Some(AttributeType::String),
            ColumnType::Unsupported(_) => None,
        }
    }

    /// The kind of attribute that columns of this type hold, `None` for a
    /// type that the codec does not support.
    pub fn attribute_type(&self) -> (r: Option<AttributeType>)
        ensures
            r == self.attribute_kind(),
    {
        match self {
            ColumnType::Bool => Some(AttributeType::Bool),
            ColumnType::Char => Some(AttributeType::I8),
            ColumnType::Int2 => Some(AttributeType::I16),
            ColumnType::Int4 => Some(AttributeType::I32),
            ColumnType::Int8 => Some(AttributeType::I64),
            ColumnType::Float4 => Some(AttributeType::F32),
            ColumnType::Float8 => Some(AttributeType::F64),
            ColumnType::Varchar => Some(AttributeType::String),
            ColumnType::Text => Some(AttributeType::String),
            ColumnType::Bpchar => Some(AttributeType::String),
            ColumnType::Name => Some(AttributeType::String),
            ColumnType::Enum => Some(AttributeType::String),
            ColumnType::Unsupported(_) => None,
        }
    }
}

/// The byte of a boolean.
pub open spec fn bool_byte(v: bool) -> u8 {
    if v {
        1
    } else {
        0
    }
}

/// The bytes that stand for a value on the wire, `None` for SQL NULL.
pub open spec fn wire_bytes(v: AttributeValue) -> Option<Seq<u8>> {
    match v {
        AttributeValue::Bool(Some(b)) => Some(seq![bool_byte(b)]),
        AttributeValue::I8(Some(n)) => Some(signed_bytes(n as int, 1)),
        AttributeValue::I16(Some(n)) => Some(signed_bytes(n as int, 2)),
        AttributeValue::I32(Some(n)) => Some(signed_bytes(n as int, 4)),
        AttributeValue::I64(Some(n)) => Some(signed_bytes(n as int, 8)),
        AttributeValue::F32(Some(bits)) => Some(be_bytes(bits as nat, 4)),
        AttributeValue::F64(Some(bits)) => Some(be_bytes(bits as nat, 8)),
        AttributeValue::String(Some(s)) => Some(encode_utf8(s)),
        _ => None,
    }
}

/// What binding a value to a column of type `ty` gives: the type mismatch
/// for an unsupported type, the value's wire bytes otherwise.
pub open spec fn encoded(v: AttributeValue, ty: ColumnType) -> Result<Option<Seq<u8>>, CodecError> {
    if ty.attribute_kind() is None {
        Err(CodecError::TypeMismatch)
    } else {
        Ok(wire_bytes(v))
    }
}

/// The value that the bytes of a non-NULL column of the given kind hold.
pub open spec fn decoded_bytes(kind: AttributeType, raw: Seq<u8>) -> Result<
    AttributeValue,
    CodecError,
> {
    match kind {
        AttributeType::Bool => if raw.len() == 1 {
            Ok(AttributeValue::Bool(Some(raw[0] != 0)))
        } else {
            Err(CodecError::Malformed)
        },
        AttributeType::I8 => if raw.len() == 1 {
            Ok(AttributeValue::I8(Some(signed_value(raw) as i8)))
        } else {
            Err(CodecError::Malformed)
        },
        AttributeType::I16 => if raw.len() == 2 {
            Ok(AttributeValue::I16(Some(signed_value(raw) as i16)))
        } else {
            Err(CodecError::Malformed)
        },
        AttributeType::I32 => if raw.len() == 4 {
            Ok(AttributeValue::I32(Some(signed_value(raw) as i32)))
        } else {
            Err(CodecError::Malformed)
        },
        AttributeType::I64 => if raw.len() == 8 {
            Ok(AttributeValue::I64(Some(signed_value(raw) as i64)))
        } else {
            Err(CodecError::Malformed)
        },
        AttributeType::F32 => if raw.len() == 4 {
            Ok(AttributeValue::F32(Some(be_value(raw) as u32)))
        } else {
            Err(CodecError::Malformed)
        },
        AttributeType::F64 => if raw.len() == 8 {
            Ok(AttributeValue::F64(Some(be_value(raw) as u64)))
        } else {
            Err(CodecError::Malformed)
        },
        AttributeType::String => if valid_utf8(raw) {
            Ok(AttributeValue::String(Some(decode_utf8(raw))))
        } else {
            Err(CodecError::Malformed)
        },
    }
}

/// What reading a column of type `ty` gives, `raw` being `None` for SQL
/// NULL: the type mismatch for an unsupported type, the NULL value of the
/// type's kind for NULL, and the value that the bytes hold otherwise.
pub open spec fn decoded(ty: ColumnType, raw: Option<Seq<u8>>) -> Result<
    AttributeValue,
    CodecError,
> {
    match ty.attribute_kind() {
        None => Err(CodecError::TypeMismatch),
        Some(kind) => match raw {
            None => Ok(kind.absent()@),
            Some(bytes) => decoded_bytes(kind, bytes),
        },
    }
}

/// A value that was bound to a column of its own kind reads back as itself.
pub proof fn lemma_decode_encode(v: AttributeValue, ty: ColumnType)
    requires
        ty.attribute_kind() == Some(v.kind()),
    ensures
        encoded(v, ty) is Ok,
        decoded(ty, encoded(v, ty)->Ok_0) == Ok::<AttributeValue, CodecError>(v),
{
    lemma_radix_values();
    match v {
        AttributeValue::Bool(Some(b)) => {},
        AttributeValue::I8(Some(n)) => {
            lemma_signed_round_trip(n as int, 1);
        },
        AttributeValue::I16(Some(n)) => {
            lemma_signed_round_trip(n as int, 2);
        },
        AttributeValue::I32(Some(n)) => {
            lemma_signed_round_trip(n as int, 4);
        },
        AttributeValue::I64(Some(n)) => {
            lemma_signed_round_trip(n as int, 8);
        },
        AttributeValue::F32(Some(bits)) => {
            lemma_be_bytes_len(bits as nat, 4);
            lemma_be_round_trip(bits as nat, 4);
        },
        AttributeValue::F64(Some(bits)) => {
            lemma_be_bytes_len(bits as nat, 8);
            lemma_be_round_trip(bits as nat, 8);
        },
        AttributeValue::String(Some(s)) => {
            encode_utf8_valid_utf8(s);
            encode_utf8_decode_utf8(s);
        },
        _ => {},
    }
}

/// `<bool as ToSql>::to_sql` of `postgres::types`: it writes one byte,
/// 1 for `true` and 0 for `false`.
#[verifier::external_body]
fn bool_to_sql(v: bool) -> (out: Vec<u8>)
    ensures
        out@ == seq![bool_byte(v)],
{
    let mut buf = BytesMut::new();
    let _ = v.to_sql(&Type::BOOL, &mut buf);
    buf.to_vec()
}

/// `<bool as FromSql>::from_sql` of `postgres::types`: it fails unless it is
/// given exactly one byte, and reads every byte but 0 as `true`. Its failure
/// is `None` here.
#[verifier::external_body]
fn bool_from_sql(raw: &[u8]) -> (r: Option<bool>)
    ensures
        r == (if raw@.len() == 1 {
            Some(raw@[0] != 0)
        } else {
            None
        }),
{
    <bool as FromSql>::from_sql(&Type::BOOL, raw).ok()
}

/// `<i8 as ToSql>::to_sql` of `postgres::types`: it writes the number as
/// one byte in two's complement.
#[verifier::external_body]
fn char_to_sql(v: i8) -> (out: Vec<u8>)
    ensures
        out@ == signed_bytes(v as int, 1),
{
    let mut buf = BytesMut::new();
    let _ = v.to_sql(&Type::CHAR, &mut buf);
    buf.to_vec()
}

/// `<i8 as FromSql>::from_sql` of `postgres::types`: it fails unless it is
/// given exactly one byte, and reads the byte in two's complement. Its
/// failure is `None` here.
#[verifier::external_body]
fn char_from_sql(raw: &[u8]) -> (r: Option<i8>)
    ensures
        r == (if raw@.len() == 1 {
            Some(signed_value(raw@) as i8)
        } else {
            None
        }),
{
    <i8 as FromSql>::from_sql(&Type::CHAR, raw).ok()
}

/// `<i16 as ToSql>::to_sql` of `postgres::types`: it writes the number as
/// two bytes, big-endian, in two's complement.
#[verifier::external_body]
fn int2_to_sql(v: i16) -> (out: Vec<u8>)
    ensures
        out@ == signed_bytes(v as int, 2),
{
    let mut buf = BytesMut::new();
    let _ = v.to_sql(&Type::INT2, &mut buf);
    buf.to_vec()
}

/// `<i16 as FromSql>::from_sql` of `postgres::types`: it fails unless it is
/// given exactly two bytes, and reads them big-endian, in two's complement.
/// Its failure is `None` here.
#[verifier::external_body]
fn int2_from_sql(raw: &[u8]) -> (r: Option<i16>)
    ensures
        r == (if raw@.len() == 2 {
            Some(signed_value(raw@) as i16)
        } else {
            None
        }),
{
    <i16 as FromSql>::from_sql(&Type::INT2, raw).ok()
}

/// `<i32 as ToSql>::to_sql` of `postgres::types`: it writes the number as
/// four bytes, big-endian, in two's complement.
#[verifier::external_body]
fn int4_to_sql(v: i32) -> (out: Vec<u8>)
    ensures
        out@ == signed_bytes(v as int, 4),
{
    let mut buf = BytesMut::new();
    let _ = v.to_sql(&Type::INT4, &mut buf);
    buf.to_vec()
}

/// `<i32 as FromSql>::from_sql` of `postgres::types`: it fails unless it is
/// given exactly four bytes, and reads them big-endian, in two's complement.
/// Its failure is `None` here.
#[verifier::external_body]
fn int4_from_sql(raw: &[u8]) -> (r: Option<i32>)
    ensures
        r == (if raw@.len() == 4 {
            Some(signed_value(raw@) as i32)
        } else {
            None
        }),
{
    <i32 as FromSql>::from_sql(&Type::INT4, raw).ok()
}

/// `<i64 as ToSql>::to_sql` of `postgres::types`: it writes the number as
/// eight bytes, big-endian, in two's complement.
#[verifier::external_body]
fn int8_to_sql(v: i64) -> (out: Vec<u8>)
    ensures
        out@ == signed_bytes(v as int, 8),
{
    let mut buf = BytesMut::new();
    let _ = v.to_sql(&Type::INT8, &mut buf);
    buf.to_vec()
}

/// `<i64 as FromSql>::from_sql` of `postgres::types`: it fails unless it is
/// given exactly eight bytes, and reads them big-endian, in two's
/// complement. Its failure is `None` here.
#[verifier::external_body]
fn int8_from_sql(raw: &[u8]) -> (r: Option<i64>)
    ensures
        r == (if raw@.len() == 8 {
            Some(signed_value(raw@) as i64)
        } else {
            None
        }),
{
    <i64 as FromSql>::from_sql(&Type::INT8, raw).ok()
}

/// `<&str as ToSql>::to_sql` of `postgres::types`, for the type `TEXT`:
/// it writes the text's UTF-8 bytes and nothing else.
#[verifier::external_body]
fn text_to_sql(s: &str) -> (out: Vec<u8>)
    ensures
        out@ == encode_utf8(s@),
{
    let mut buf = BytesMut::new();
    let _ = s.to_sql(&Type::TEXT, &mut buf);
    buf.to_vec()
}

/// `<String as FromSql>::from_sql` of `postgres::types`, for the type
/// `TEXT`: it fails unless the bytes are valid UTF-8, and gives the text
/// that they encode. Its failure is `None` here.
#[verifier::external_body]
fn text_from_sql(raw: &[u8]) -> (r: Option<String>)
    ensures
        r is Some <==> valid_utf8(raw@),
        r is Some ==> r->Some_0@ == decode_utf8(raw@),
{
    <String as FromSql>::from_sql(&Type::TEXT, raw).ok()
}

impl Attribute {
    /// Whether attributes can be bound to and read from columns of type
    /// `ty`.
    pub fn accepts(ty: &ColumnType) -> (r: bool)
        ensures
            r == ty.attribute_kind().is_some(),
    {
        ty.attribute_type().is_some()
    }

    /// The bytes to bind for this value to a parameter of type `ty`, `None`
    /// for SQL NULL. A type that the codec does not support is refused.
    pub fn to_sql(&self, ty: &ColumnType) -> (r: Result<Option<Vec<u8>>, CodecError>)
        ensures
            match r {
                Ok(Some(bytes)) => encoded(self@, *ty) == Ok::<Option<Seq<u8>>, CodecError>(
                    Some(bytes@),
                ),
                Ok(None) => encoded(self@, *ty) == Ok::<Option<Seq<u8>>, CodecError>(None),
                Err(e) => encoded(self@, *ty) == Err::<Option<Seq<u8>>, CodecError>(e),
            },
    {
        if !Attribute::accepts(ty) {
            return Err(CodecError::TypeMismatch);
        }
        let bytes = match self {
            Attribute::Bool(Some(v)) => Some(bool_to_sql(*v)),
            Attribute::I8(Some(v)) => Some(char_to_sql(*v)),
            Attribute::I16(Some(v)) => Some(int2_to_sql(*v)),
            Attribute::I32(Some(v)) => Some(int4_to_sql(*v)),
            Attribute::I64(Some(v)) => Some(int8_to_sql(*v)),
            Attribute::F32(Some(bits)) => Some(put_be(*bits as u64, 4)),
            Attribute::F64(Some(bits)) => Some(put_be(*bits, 8)),
            Attribute::String(Some(s)) => Some(text_to_sql(s.as_str())),
            _ => None,
        };
        Ok(bytes)
    }

    /// The value of a column of type `ty`, `raw` being `None` for SQL NULL.
    /// A type that the codec does not support is refused, and so are bytes
    /// that are not a value of the type.
    pub fn from_sql(ty: &ColumnType, raw: Option<&[u8]>) -> (r: Result<Attribute, CodecError>)
        ensures
            match r {
                Ok(a) => decoded(*ty, raw_view(raw)) == Ok::<AttributeValue, CodecError>(a@),
                Err(e) => decoded(*ty, raw_view(raw)) == Err::<AttributeValue, CodecError>(e),
            },
    {
        let kind = match ty.attribute_type() {
            Some(kind) => kind,
            None => {
                return Err(CodecError::TypeMismatch);
            },
        };
        let bytes = match raw {
            Some(bytes) => bytes,
            None => {
                return Ok(kind.to_attribute());
            },
        };
        let value = match kind {
            AttributeType::Bool => match bool_from_sql(bytes) {
                Some(v) => Some(Attribute::Bool(Some(v))),
                None => None,
            },
            AttributeType::I8 => match char_from_sql(bytes) {
                Some(v) => Some(Attribute::I8(Some(v))),
                None => None,
            },
            AttributeType::I16 => match int2_from_sql(bytes) {
                Some(v) => Some(Attribute::I16(Some(v))),
                None => None,
            },
            AttributeType::I32 => match int4_from_sql(bytes) {
                Some(v) => Some(Attribute::I32(Some(v))),
                None => None,
            },
            AttributeType::I64 => match int8_from_sql(bytes) {
                Some(v) => Some(Attribute::I64(Some(v))),
                None => None,
            },
            AttributeType::F32 => if bytes.len() == 4 {
                proof {
                    assert(bytes@.take(4) =~= bytes@);
                    lemma_be_value_bound(bytes@);
                    lemma_radix_values();
                }
                Some(Attribute::F32(Some(read_be(bytes, 4) as u32)))
            } else {
                None
            },
            AttributeType::F64 => if bytes.len() == 8 {
                proof {
                    assert(bytes@.take(8) =~= bytes@);
                }
                Some(Attribute::F64(Some(read_be(bytes, 8))))
            } else {
                None
            },
            AttributeType::String => match text_from_sql(bytes) {
                Some(s) => Some(Attribute::String(Some(s))),
                None => None,
            },
        };
        match value {
            Some(a) => Ok(a),
            None => Err(CodecError::Malformed),
        }
    }
}

/// The bytes of an optional byte slice.
pub open spec fn raw_view(raw: Option<&[u8]>) -> Option<Seq<u8>> {
    match raw {
        Some(bytes) => Some(bytes@),
        None => None,
    }
}

} // verus!
