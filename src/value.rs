use vstd::prelude::*;

verus! {

/// The type tag of a value, and the declared type of a column.
#[derive(Clone, Copy, Debug, PartialEq, Eq, Structural)]
pub enum Ty {
    String,
    UInt8,
}

/// A dynamically typed primitive value.
#[derive(Debug, PartialEq, Eq)]
pub enum Value {
    String(String),
    UInt8(u8),
}

/// A typed extraction asked for one kind of value and found another.
#[derive(Clone, Copy, Debug, PartialEq, Eq, Structural)]
pub struct KindMismatch {
    pub expected: Ty,
    pub found: Ty,
}

impl Value {
    /// The tag of a value.
    pub open spec fn tag(self) -> Ty {
        match self {
            Value::String(_) => Ty::String,
            Value::UInt8(_) => Ty::UInt8,
        }
    }

    /// The type tag of this value.
    pub fn kind(&self) -> (r: Ty)
        ensures
            r == self.tag(),
    {
        match self {
            Value::String(_) => Ty::String,
            Value::UInt8(_) => Ty::UInt8,
        }
    }

    /// The string payload, or a mismatch when the value holds another kind.
    pub fn as_string(&self) -> (r: Result<&str, KindMismatch>)
        ensures
            match *self {
                Value::String(s) => r matches Ok(t) && t@ == s@,
                _ => r == Err::<&str, KindMismatch>(
                    KindMismatch { expected: Ty::String, found: self.tag() },
                ),
            },
    {
        match self {
            Value::String(s) => Ok(s.as_str()),
            Value::UInt8(_) => Err(KindMismatch { expected: Ty::String, found: Ty::UInt8 }),
        }
    }

    /// The unsigned integer payload, or a mismatch when the value holds
    /// another kind.
    pub fn as_integer(&self) -> (r: Result<u8, KindMismatch>)
        ensures
            match *self {
                Value::UInt8(n) => r == Ok::<u8, KindMismatch>(n),
                _ => r == Err::<u8, KindMismatch>(
                    KindMismatch { expected: Ty::UInt8, found: self.tag() },
                ),
            },
    {
        match self {
            Value::UInt8(n) => Ok(*n),
            Value::String(_) => Err(KindMismatch { expected: Ty::UInt8, found: Ty::String }),
        }
    }

    /// A copy of this value.
    pub fn duplicate(&self) -> (r: Value)
        ensures
            r == *self,
    {
        match self {
            Value::String(s) => Value::String(s.clone()),
            Value::UInt8(n) => Value::UInt8(*n),
        }
    }

    /// A string value holding a copy of `s`.
    pub fn string(s: &str) -> (r: Value)
        ensures
            r matches Value::String(t) && t@ == s@,
    {
        Value::String(s.to_owned())
    }

    /// An unsigned 8-bit integer value.
    pub fn uint8(n: u8) -> (r: Value)
        ensures
            r == Value::UInt8(n),
    {
        Value::UInt8(n)
    }
}

impl From<u8> for Value {
    fn from(n: u8) -> (r: Value) {
        Value::UInt8(n)
    }
}

impl vstd::std_specs::convert::FromSpecImpl<u8> for Value {
    open spec fn obeys_from_spec() -> bool {
        true
    }

    open spec fn from_spec(n: u8) -> Value {
        Value::UInt8(n)
    }
}

} // verus!
