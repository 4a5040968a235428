//! Logical data types and the values of one cell.

use vstd::prelude::*;

verus! {

/// The logical type of the values that one column holds.
#[derive(Clone, Copy, Debug, PartialEq, Eq, Hash, Structural)]
pub enum ConcreteDataType {
    Null,
    Boolean,
    Int8,
    Int16,
    Int32,
    Int64,
    UInt8,
    UInt16,
    UInt32,
    UInt64,
    Float32,
    Float64,
    String,
}

/// The content of one cell. A floating-point number is held as the bits of
/// its IEEE 754 encoding, so that a value is copied and compared exactly.
#[derive(Clone, Debug, PartialEq, Eq, Hash)]
pub enum Value {
    Null,
    Boolean(bool),
    Int8(i8),
    Int16(i16),
    Int32(i32),
    Int64(i64),
    UInt8(u8),
    UInt16(u16),
    UInt32(u32),
    UInt64(u64),
    Float32(u32),
    Float64(u64),
    String(String),
}

impl Value {
    /// The type that a value belongs to; `Null` belongs to the null type.
    pub open spec fn spec_data_type(&self) -> ConcreteDataType {
        match *self {
            Value::Null => ConcreteDataType::Null,
            Value::Boolean(_) => ConcreteDataType::Boolean,
            Value::Int8(_) => ConcreteDataType::Int8,
            Value::Int16(_) => ConcreteDataType::Int16,
            Value::Int32(_) => ConcreteDataType::Int32,
            Value::Int64(_) => ConcreteDataType::Int64,
            Value::UInt8(_) => ConcreteDataType::UInt8,
            Value::UInt16(_) => ConcreteDataType::UInt16,
            Value::UInt32(_) => ConcreteDataType::UInt32,
            Value::UInt64(_) => ConcreteDataType::UInt64,
            Value::Float32(_) => ConcreteDataType::Float32,
            Value::Float64(_) => ConcreteDataType::Float64,
            Value::String(_) => ConcreteDataType::String,
        }
    }

    /// Whether a column of type `data_type` may hold this value: a null fits
    /// every column, any other value only a column of its own type.
    pub open spec fn fits(self, data_type: ConcreteDataType) -> bool {
        self is Null || self.spec_data_type() == data_type
    }

    #[verifier::when_used_as_spec(spec_data_type)]
    pub fn data_type(&self) -> (ty: ConcreteDataType)
        ensures
            ty == self.spec_data_type(),
    {
        match self {
            Value::Null => ConcreteDataType::Null,
            Value::Boolean(_) => ConcreteDataType::Boolean,
            Value::Int8(_) => ConcreteDataType::Int8,
            Value::Int16(_) => ConcreteDataType::Int16,
            Value::Int32(_) => ConcreteDataType::Int32,
            Value::Int64(_) => ConcreteDataType::Int64,
            Value::UInt8(_) => ConcreteDataType::UInt8,
            Value::UInt16(_) => ConcreteDataType::UInt16,
            Value::UInt32(_) => ConcreteDataType::UInt32,
            Value::UInt64(_) => ConcreteDataType::UInt64,
            Value::Float32(_) => ConcreteDataType::Float32,
            Value::Float64(_) => ConcreteDataType::Float64,
            Value::String(_) => ConcreteDataType::String,
        }
    }

    pub fn is_null(&self) -> (b: bool)
        ensures
            b == (*self is Null),
    {
        match self {
            Value::Null => true,
            _ => false,
        }
    }

    /// A copy of this value, equal to it.
    pub fn duplicate(&self) -> (v: Value)
        ensures
            v == *self,
    {
        match self {
            Value::Null => Value::Null,
            Value::Boolean(b) => Value::Boolean(*b),
            Value::Int8(n) => Value::Int8(*n),
            Value::Int16(n) => Value::Int16(*n),
            Value::Int32(n) => Value::Int32(*n),
            Value::Int64(n) => Value::Int64(*n),
            Value::UInt8(n) => Value::UInt8(*n),
            Value::UInt16(n) => Value::UInt16(*n),
            Value::UInt32(n) => Value::UInt32(*n),
            Value::UInt64(n) => Value::UInt64(*n),
            Value::Float32(bits) => Value::Float32(*bits),
            Value::Float64(bits) => Value::Float64(*bits),
            Value::String(s) => Value::String(s.clone()),
        }
    }
}

} // verus!
