//! Marshaling of host primitives into the tagged value that crosses the
//! foreign call boundary.

use vstd::prelude::*;

verus! {

/// One argument of a foreign call: exactly one of the nine kinds of value
/// that the virtual machine takes, bit for bit as the host gave it.
///
/// The two floating-point kinds are carried as their IEEE 754 bit patterns
/// and an object reference as its address.
#[derive(Clone, Copy, Debug, PartialEq, Eq, Structural)]
pub enum TaggedValue {
    Boolean(u8),
    Byte(i8),
    Char(u16),
    Double(u64),
    Float(u32),
    Int(i32),
    Long(i64),
    Object(usize),
    Short(i16),
}

/// The kind of the active member of a [`TaggedValue`].
#[derive(Clone, Copy, Debug, PartialEq, Eq, Structural)]
pub enum ValueKind {
    Boolean,
    Byte,
    Char,
    Double,
    Float,
    Int,
    Long,
    Object,
    Short,
}

impl TaggedValue {
    /// The kind of the member that the value holds.
    pub open spec fn kind_of(self) -> ValueKind {
        match self {
            TaggedValue::Boolean(_) => ValueKind::Boolean,
            TaggedValue::Byte(_) => ValueKind::Byte,
            TaggedValue::Char(_) => ValueKind::Char,
            TaggedValue::Double(_) => ValueKind::Double,
            TaggedValue::Float(_) => ValueKind::Float,
            TaggedValue::Int(_) => ValueKind::Int,
            TaggedValue::Long(_) => ValueKind::Long,
            TaggedValue::Object(_) => ValueKind::Object,
            TaggedValue::Short(_) => ValueKind::Short,
        }
    }

    /// Tells which member the value holds.
    pub fn kind(&self) -> (k: ValueKind)
        ensures
            k == self.kind_of(),
    {
        match self {
            TaggedValue::Boolean(_) => ValueKind::Boolean,
            TaggedValue::Byte(_) => ValueKind::Byte,
            TaggedValue::Char(_) => ValueKind::Char,
            TaggedValue::Double(_) => ValueKind::Double,
            TaggedValue::Float(_) => ValueKind::Float,
            TaggedValue::Int(_) => ValueKind::Int,
            TaggedValue::Long(_) => ValueKind::Long,
            TaggedValue::Object(_) => ValueKind::Object,
            TaggedValue::Short(_) => ValueKind::Short,
        }
    }
}

/// Wraps a `jboolean`.
pub fn jvalue_from_jboolean(arg: u8) -> (value: TaggedValue)
    ensures
        value == TaggedValue::Boolean(arg),
{
    TaggedValue::Boolean(arg)
}

/// Wraps a `jbyte`.
pub fn jvalue_from_jbyte(arg: i8) -> (value: TaggedValue)
    ensures
        value == TaggedValue::Byte(arg),
{
    TaggedValue::Byte(arg)
}

/// Wraps a `jchar`.
pub fn jvalue_from_jchar(arg: u16) -> (value: TaggedValue)
    ensures
        value == TaggedValue::Char(arg),
{
    TaggedValue::Char(arg)
}

/// Wraps a `jdouble`, given as its IEEE 754 bit pattern.
pub fn jvalue_from_jdouble(arg: u64) -> (value: TaggedValue)
    ensures
        value == TaggedValue::Double(arg),
{
    TaggedValue::Double(arg)
}

/// Wraps a `jint`.
pub fn jvalue_from_jint(arg: i32) -> (value: TaggedValue)
    ensures
        value == TaggedValue::Int(arg),
{
    TaggedValue::Int(arg)
}

/// Wraps a `jfloat`, given as its IEEE 754 bit pattern.
pub fn jvalue_from_jfloat(arg: u32) -> (value: TaggedValue)
    ensures
        value == TaggedValue::Float(arg),
{
    TaggedValue::Float(arg)
}

/// Wraps a `jlong`.
pub fn jvalue_from_jlong(arg: i64) -> (value: TaggedValue)
    ensures
        value == TaggedValue::Long(arg),
{
    TaggedValue::Long(arg)
}

/// Wraps a `jobject`, given as its address.
pub fn jvalue_from_jobject(arg: usize) -> (value: TaggedValue)
    ensures
        value == TaggedValue::Object(arg),
{
    TaggedValue::Object(arg)
}

/// Wraps a `jshort`.
pub fn jvalue_from_jshort(arg: i16) -> (value: TaggedValue)
    ensures
        value == TaggedValue::Short(arg),
{
    TaggedValue::Short(arg)
}

} // verus!
