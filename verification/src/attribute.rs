//! The tagged scalar values that a column can hold.

use vstd::prelude::*;
use vstd::std_specs::convert::FromSpecImpl;
use crate::name_map::NameMap;

verus! {

/// The kinds of scalar that a column can be declared to hold.
#[derive(Debug, Clone, Copy, PartialEq, Eq, Structural)]
pub enum AttributeType {
    Bool,
    I8,
    I16,
    I32,
    I64,
    /// A 32-bit binary floating-point number.
    F32,
    /// A 64-bit binary floating-point number.
    F64,
    String,
}

/// One column's content. `None` inside a variant is SQL NULL.
///
/// The two floating-point variants hold the number's IEEE 754 bit pattern,
/// so that a value survives the codec bit for bit.
#[derive(Debug, Clone, PartialEq, Eq)]
pub enum Attribute {
    Bool(Option<bool>),
    I8(Option<i8>),
    I16(Option<i16>),
    I32(Option<i32>),
    I64(Option<i64>),
    F32(Option<u32>),
    F64(Option<u64>),
    String(Option<String>),
}

/// The attributes of one row or record, by name.
pub type Attributes = NameMap<Attribute>;

/// The declared attributes of a model, by name.
pub type AttributeTypes = NameMap<AttributeType>;

/// What an attribute holds, with text as a sequence of characters.
pub enum AttributeValue {
    Bool(Option<bool>),
    I8(Option<i8>),
    I16(Option<i16>),
    I32(Option<i32>),
    I64(Option<i64>),
    F32(Option<u32>),
    F64(Option<u64>),
    String(Option<Seq<char>>),
}

impl AttributeValue {
    /// The kind of scalar that this value is.
    pub open spec fn kind(self) -> AttributeType {
        match self {
            AttributeValue::Bool(_) => AttributeType::Bool,
            AttributeValue::I8(_) => AttributeType::I8,
            AttributeValue::I16(_) => AttributeType::I16,
            AttributeValue::I32(_) => AttributeType::I32,
            AttributeValue::I64(_) => AttributeType::I64,
            AttributeValue::F32(_) => AttributeType::F32,
            AttributeValue::F64(_) => AttributeType::F64,
            AttributeValue::String(_) => AttributeType::String,
        }
    }
}

impl View for Attribute {
    type V = AttributeValue;

    open spec fn view(&self) -> AttributeValue {
        match *self {
            Attribute::Bool(v) => AttributeValue::Bool(v),
            Attribute::I8(v) => AttributeValue::I8(v),
            Attribute::I16(v) => AttributeValue::I16(v),
            Attribute::I32(v) => AttributeValue::I32(v),
            Attribute::I64(v) => AttributeValue::I64(v),
            Attribute::F32(v) => AttributeValue::F32(v),
            Attribute::F64(v) => AttributeValue::F64(v),
            Attribute::String(None) => AttributeValue::String(None),
            Attribute::String(Some(s)) => AttributeValue::String(Some(s@)),
        }
    }
}

impl AttributeType {
    /// The NULL value of this kind.
    pub open spec fn absent(self) -> Attribute {
        match self {
            AttributeType::Bool => Attribute::Bool(None),
            AttributeType::I8 => Attribute::I8(None),
            AttributeType::I16 => Attribute::I16(None),
            AttributeType::I32 => Attribute::I32(None),
            AttributeType::I64 => Attribute::I64(None),
            AttributeType::F32 => Attribute::F32(None),
            AttributeType::F64 => Attribute::F64(None),
            AttributeType::String => Attribute::String(None),
        }
    }

    /// The NULL value of this kind.
    pub fn to_attribute(&self) -> (r: Attribute)
        ensures
            r == self.absent(),
    {
        match self {
            AttributeType::Bool => Attribute::Bool(None),
            AttributeType::I8 => Attribute::I8(None),
            AttributeType::I16 => Attribute::I16(None),
            AttributeType::I32 => Attribute::I32(None),
            AttributeType::I64 => Attribute::I64(None),
            AttributeType::F32 => Attribute::F32(None),
            AttributeType::F64 => Attribute::F64(None),
            AttributeType::String => Attribute::String(None),
        }
    }
}

impl Attribute {
    /// The kind of scalar that this value is.
    pub open spec fn kind(self) -> AttributeType {
        match self {
            Attribute::Bool(_) => AttributeType::Bool,
            Attribute::I8(_) => AttributeType::I8,
            Attribute::I16(_) => AttributeType::I16,
            Attribute::I32(_) => AttributeType::I32,
            Attribute::I64(_) => AttributeType::I64,
            Attribute::F32(_) => AttributeType::F32,
            Attribute::F64(_) => AttributeType::F64,
            Attribute::String(_) => AttributeType::String,
        }
    }

    /// Whether this value is SQL NULL.
    pub open spec fn absent(self) -> bool {
        self == self.kind().absent()
    }

    /// The kind of scalar that this value is.
    pub fn attribute_type(&self) -> (t: AttributeType)
        ensures
            t == self.kind(),
    {
        match self {
            Attribute::Bool(_) => AttributeType::Bool,
            Attribute::I8(_) => AttributeType::I8,
            Attribute::I16(_) => AttributeType::I16,
            Attribute::I32(_) => AttributeType::I32,
            Attribute::I64(_) => AttributeType::I64,
            Attribute::F32(_) => AttributeType::F32,
            Attribute::F64(_) => AttributeType::F64,
            Attribute::String(_) => AttributeType::String,
        }
    }

    /// Whether this value is SQL NULL.
    pub fn is_null(&self) -> (r: bool)
        ensures
            r == self.absent(),
    {
        match self {
            Attribute::Bool(v) => v.is_none(),
            Attribute::I8(v) => v.is_none(),
            Attribute::I16(v) => v.is_none(),
            Attribute::I32(v) => v.is_none(),
            Attribute::I64(v) => v.is_none(),
            Attribute::F32(v) => v.is_none(),
            Attribute::F64(v) => v.is_none(),
            Attribute::String(v) => v.is_none(),
        }
    }
}

impl From<bool> for Attribute {
    fn from(v: bool) -> (a: Attribute) {
        Attribute::Bool(Some(v))
    }
}

impl FromSpecImpl<bool> for Attribute {
    open spec fn obeys_from_spec() -> bool {
        true
    }

    open spec fn from_spec(v: bool) -> Attribute {
        Attribute::Bool(Some(v))
    }
}

impl From<i8> for Attribute {
    fn from(v: i8) -> (a: Attribute) {
        Attribute::I8(Some(v))
    }
}

impl FromSpecImpl<i8> for Attribute {
    open spec fn obeys_from_spec() -> bool {
        true
    }

    open spec fn from_spec(v: i8) -> Attribute {
        Attribute::I8(Some(v))
    }
}

impl From<i16> for Attribute {
    fn from(v: i16) -> (a: Attribute) {
        Attribute::I16(Some(v))
    }
}

impl FromSpecImpl<i16> for Attribute {
    open spec fn obeys_from_spec() -> bool {
        true
    }

    open spec fn from_spec(v: i16) -> Attribute {
        Attribute::I16(Some(v))
    }
}

impl From<i32> for Attribute {
    fn from(v: i32) -> (a: Attribute) {
        Attribute::I32(Some(v))
    }
}

impl FromSpecImpl<i32> for Attribute {
    open spec fn obeys_from_spec() -> bool {
        true
    }

    open spec fn from_spec(v: i32) -> Attribute {
        Attribute::I32(Some(v))
    }
}

impl From<i64> for Attribute {
    fn from(v: i64) -> (a: Attribute) {
        Attribute::I64(Some(v))
    }
}

impl FromSpecImpl<i64> for Attribute {
    open spec fn obeys_from_spec() -> bool {
        true
    }

    open spec fn from_spec(v: i64) -> Attribute {
        Attribute::I64(Some(v))
    }
}

impl From<String> for Attribute {
    fn from(v: String) -> (a: Attribute) {
        Attribute::String(Some(v))
    }
}

impl FromSpecImpl<String> for Attribute {
    open spec fn obeys_from_spec() -> bool {
        true
    }

    open spec fn from_spec(v: String) -> Attribute {
        Attribute::String(Some(v))
    }
}

} // verus!
