//! MessagePack values, and how a value is described when it is not what a
//! deserializer expected.
use vstd::prelude::*;

verus! {

/// The error of converting between values and Rust data.
#[derive(Debug)]
pub enum Error {
    /// Catchall for syntax error messages.
    Syntax(String),
}

impl Error {
    /// A short description of the kind of error.
    pub fn description(&self) -> (r: &'static str)
        ensures
            r@ == "error while decoding value"@,
    {
        "error while decoding value"
    }

    /// The message that displays this error: the description, a colon, and
    /// the error's own message.
    pub fn to_string(&self) -> (r: String)
        ensures
            r@ == value_error_message(*self),
    {
        match self {
            Error::Syntax(err) => String::from_str(self.description()).concat(": ").concat(
                err.as_str(),
            ),
        }
    }

    /// The error that caused this one: there is none.
    pub fn cause(&self) -> (r: Option<&Error>)
        ensures
            r is None,
    {
        match self {
            Error::Syntax(..) => None,
        }
    }
}

/// The message that displays an error.
pub open spec fn value_error_message(e: Error) -> Seq<char> {
    match e {
        Error::Syntax(err) => "error while decoding value"@ + ": "@ + err@,
    }
}

/// The sign-tagged representation of an integer.
#[derive(Debug, Clone, Copy, PartialEq, Eq)]
pub enum IntPriv {
    /// A non-negative integer.
    PosInt(u64),
    /// A negative integer.
    NegInt(i64),
}

/// A MessagePack integer: any value of `u64` or of `i64`. Negative values
/// carry the negative tag, the others the non-negative one.
#[derive(Debug, Clone, Copy, PartialEq, Eq)]
pub struct Integer {
    n: IntPriv,
}

/// The mathematical value of an integer.
pub open spec fn integer_value(i: Integer) -> int {
    match i.repr() {
        IntPriv::PosInt(v) => v as int,
        IntPriv::NegInt(v) => v as int,
    }
}

impl Integer {
    #[verifier::type_invariant]
    spec fn sign_matches_tag(self) -> bool {
        match self.n {
            IntPriv::PosInt(_) => true,
            IntPriv::NegInt(v) => v < 0,
        }
    }

    /// The sign-tagged representation.
    pub closed spec fn repr(self) -> IntPriv {
        self.n
    }

    /// The sign-tagged representation: a negative tag only on a negative
    /// value.
    pub fn as_repr(&self) -> (r: IntPriv)
        ensures
            r == self.repr(),
            r matches IntPriv::NegInt(v) ==> v < 0,
    {
        proof {
            use_type_invariant(self);
        }
        self.n
    }

    /// The integer of an unsigned value.
    pub fn from_u64(v: u64) -> (r: Integer)
        ensures
            r.repr() == IntPriv::PosInt(v),
            integer_value(r) == v,
    {
        Integer { n: IntPriv::PosInt(v) }
    }

    /// The integer of a signed value: negative values keep their sign tag,
    /// the others are stored as unsigned.
    pub fn from_i64(v: i64) -> (r: Integer)
        ensures
            v < 0 ==> r.repr() == IntPriv::NegInt(v),
            v >= 0 ==> r.repr() == IntPriv::PosInt(v as u64),
            integer_value(r) == v,
    {
        if v < 0 {
            Integer { n: IntPriv::NegInt(v) }
        } else {
            Integer { n: IntPriv::PosInt(v as u64) }
        }
    }
}

/// A string that was read as MessagePack: valid UTF-8 text, or the bytes
/// that were not.
#[derive(Debug)]
pub struct Utf8String {
    pub s: Result<String, Vec<u8>>,
}

/// A borrowed string that was read as MessagePack: valid UTF-8 text, or the
/// bytes that were not.
#[derive(Debug)]
pub struct Utf8StringRef<'a> {
    pub s: Result<&'a str, &'a [u8]>,
}

/// An owned MessagePack value. Floats are held by their bit patterns.
#[derive(Debug)]
pub enum Value {
    Nil,
    Boolean(bool),
    Integer(Integer),
    /// A 32-bit float, by its bit pattern.
    F32(u32),
    /// A 64-bit float, by its bit pattern.
    F64(u64),
    String(Utf8String),
    Binary(Vec<u8>),
    Array(Vec<Value>),
    Mapping(Vec<(Value, Value)>),
    Ext(i8, Vec<u8>),
}

/// A MessagePack value that borrows its strings and bytes. Floats are held
/// by their bit patterns.
#[derive(Debug)]
pub enum ValueRef<'a> {
    Nil,
    Boolean(bool),
    Integer(Integer),
    /// A 32-bit float, by its bit pattern.
    F32(u32),
    /// A 64-bit float, by its bit pattern.
    F64(u64),
    String(Utf8StringRef<'a>),
    Binary(&'a [u8]),
    Array(Vec<ValueRef<'a>>),
    Mapping(Vec<(ValueRef<'a>, ValueRef<'a>)>),
    Ext(i8, &'a [u8]),
}

/// What a deserializer found instead of what it expected.
#[derive(Debug)]
pub enum Unexpected<'a> {
    Unit,
    Bool(bool),
    Unsigned(u64),
    Signed(i64),
    /// A single-precision float, by its bit pattern.
    Float32(u32),
    /// A double-precision float, by its bit pattern.
    Float(u64),
    Str(&'a str),
    Bytes(&'a [u8]),
    Sequence,
    Mapping,
}

/// `u` describes an integer.
pub open spec fn describes_integer(i: Integer, u: Unexpected) -> bool {
    match i.repr() {
        IntPriv::PosInt(v) => u == Unexpected::Unsigned(v),
        IntPriv::NegInt(v) => u == Unexpected::Signed(v),
    }
}

/// `u` describes the value `v`: nil as unit, booleans, integers and floats
/// by their value, valid strings as text and other strings and binaries as
/// bytes, arrays and extensions as sequences, maps as maps.
pub open spec fn describes(v: Value, u: Unexpected) -> bool {
    match v {
        Value::Nil => u == Unexpected::Unit,
        Value::Boolean(b) => u == Unexpected::Bool(b),
        Value::Integer(i) => describes_integer(i, u),
        Value::F32(b) => u == Unexpected::Float32(b),
        Value::F64(b) => u == Unexpected::Float(b),
        Value::String(s) => match s.s {
            Ok(t) => u matches Unexpected::Str(x) && x@ == t@,
            Err(b) => u matches Unexpected::Bytes(x) && x@ == b@,
        },
        Value::Binary(b) => u matches Unexpected::Bytes(x) && x@ == b@,
        Value::Array(..) => u == Unexpected::Sequence,
        Value::Mapping(..) => u == Unexpected::Mapping,
        Value::Ext(..) => u == Unexpected::Sequence,
    }
}

/// `u` describes the borrowed value `v`, as `describes` does an owned one.
pub open spec fn describes_ref(v: ValueRef, u: Unexpected) -> bool {
    match v {
        ValueRef::Nil => u == Unexpected::Unit,
        ValueRef::Boolean(b) => u == Unexpected::Bool(b),
        ValueRef::Integer(i) => describes_integer(i, u),
        ValueRef::F32(b) => u == Unexpected::Float32(b),
        ValueRef::F64(b) => u == Unexpected::Float(b),
        ValueRef::String(s) => match s.s {
            Ok(t) => u matches Unexpected::Str(x) && x@ == t@,
            Err(b) => u matches Unexpected::Bytes(x) && x@ == b@,
        },
        ValueRef::Binary(b) => u matches Unexpected::Bytes(x) && x@ == b@,
        ValueRef::Array(..) => u == Unexpected::Sequence,
        ValueRef::Mapping(..) => u == Unexpected::Mapping,
        ValueRef::Ext(..) => u == Unexpected::Sequence,
    }
}

fn integer_unexpected<'a>(i: Integer) -> (r: Unexpected<'a>)
    ensures
        describes_integer(i, r),
        r matches Unexpected::Signed(v) ==> v < 0,
{
    proof {
        use_type_invariant(&i);
    }
    match i.n {
        IntPriv::PosInt(v) => Unexpected::Unsigned(v),
        IntPriv::NegInt(v) => Unexpected::Signed(v),
    }
}

impl Value {
    /// How this value is described when it is not what was expected.
    pub fn unexpected(&self) -> (r: Unexpected<'_>)
        ensures
            describes(*self, r),
            r matches Unexpected::Signed(v) ==> v < 0,
    {
        match self {
            Value::Nil => Unexpected::Unit,
            Value::Boolean(v) => Unexpected::Bool(*v),
            Value::Integer(i) => integer_unexpected(*i),
            Value::F32(v) => Unexpected::Float32(*v),
            Value::F64(v) => Unexpected::Float(*v),
            Value::String(v) => match &v.s {
                Ok(t) => Unexpected::Str(t.as_str()),
                Err(b) => Unexpected::Bytes(b.as_slice()),
            },
            Value::Binary(v) => Unexpected::Bytes(v.as_slice()),
            Value::Array(..) => Unexpected::Sequence,
            Value::Mapping(..) => Unexpected::Mapping,
            Value::Ext(..) => Unexpected::Sequence,
        }
    }
}

impl<'a> ValueRef<'a> {
    /// How this value is described when it is not what was expected.
    pub fn unexpected(&self) -> (r: Unexpected<'_>)
        ensures
            describes_ref(*self, r),
            r matches Unexpected::Signed(v) ==> v < 0,
    {
        match self {
            ValueRef::Nil => Unexpected::Unit,
            ValueRef::Boolean(v) => Unexpected::Bool(*v),
            ValueRef::Integer(i) => integer_unexpected(*i),
            ValueRef::F32(v) => Unexpected::Float32(*v),
            ValueRef::F64(v) => Unexpected::Float(*v),
            ValueRef::String(v) => match v.s {
                Ok(t) => Unexpected::Str(t),
                Err(b) => Unexpected::Bytes(b),
            },
            ValueRef::Binary(v) => Unexpected::Bytes(*v),
            ValueRef::Array(..) => Unexpected::Sequence,
            ValueRef::Mapping(..) => Unexpected::Mapping,
            ValueRef::Ext(..) => Unexpected::Sequence,
        }
    }
}

/// `r` is a borrowed view of the owned value `v`: the same scalars, strings
/// and bytes with the same contents, and elements that are views of `v`'s
/// elements.
pub open spec fn borrows(v: Value, r: ValueRef) -> bool
    decreases v,
{
    match (v, r) {
        (Value::Nil, ValueRef::Nil) => true,
        (Value::Boolean(a), ValueRef::Boolean(b)) => a == b,
        (Value::Integer(a), ValueRef::Integer(b)) => a == b,
        (Value::F32(a), ValueRef::F32(b)) => a == b,
        (Value::F64(a), ValueRef::F64(b)) => a == b,
        (Value::String(a), ValueRef::String(b)) => match (a.s, b.s) {
            (Ok(x), Ok(y)) => x@ == y@,
            (Err(x), Err(y)) => x@ == y@,
            _ => false,
        },
        (Value::Binary(a), ValueRef::Binary(b)) => a@ == b@,
        (Value::Array(a), ValueRef::Array(b)) => a@.len() == b@.len() && forall|i: int|
            0 <= i < a@.len() ==> #[trigger] borrows(a@[i], b@[i]),
        (Value::Mapping(a), ValueRef::Mapping(b)) => a@.len() == b@.len() && forall|i: int|
            0 <= i < a@.len() ==> #[trigger] borrows(a@[i].0, b@[i].0) && borrows(a@[i].1, b@[i].1),
        (Value::Ext(t, a), ValueRef::Ext(u, b)) => t == u && a@ == b@,
        _ => false,
    }
}

/// An owned value and a borrowed view of it are described alike when they
/// are not what was expected.
pub proof fn law_owned_and_borrowed_describe_alike(v: Value, r: ValueRef, u: Unexpected)
    requires
        borrows(v, r),
    ensures
        describes(v, u) <==> describes_ref(r, u),
{
}

} // verus!
