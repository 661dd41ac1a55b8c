//! Serialize Rust data into MessagePack: the serializer, its layout
//! configuration, and what each of its operations writes.
use vstd::prelude::*;
use vstd::utf8::encode_utf8;
use crate::config::{
    DefaultConfig, SerializerConfig, StructMapConfig, StructTupleConfig, VariantIntegerConfig,
    VariantStringConfig,
};
use crate::pack::{
    array_len_encoding, bin_encoding, bool_encoding, map_len_encoding, nil_encoding,
    sint_encoding, str_encoding, uint_encoding, f32_encoding, f64_encoding, write_array_len,
    write_bin, write_bool, write_f32_bits, write_f64_bits, write_map_len, write_nil, write_sint,
    write_str, write_str_bytes, write_uint,
};
use crate::utf8::char_utf8;
use crate::write::{
    appended, lemma_appended_chain, lemma_appended_nothing, lemma_appended_stop,
    parts_outcome, value_write_error_description, MsgWrite, ValueWriteError,
};

verus! {

/// All the ways serializing into MessagePack can fail.
#[derive(Debug)]
pub enum Error {
    /// Failed to write a MessagePack value.
    InvalidValueWrite(ValueWriteError),
    /// Failed to serialize a struct, sequence or map, because its length is
    /// unknown.
    UnknownLength,
    /// Depth limit exceeded.
    DepthLimitExceeded,
    /// Catchall for syntax error messages.
    Syntax(String),
}

impl Error {
    /// A short description of the kind of error.
    pub fn description(&self) -> (r: &'static str)
        ensures
            r@ == error_description(*self)@,
    {
        match self {
            Error::InvalidValueWrite(..) => "invalid value write",
            Error::UnknownLength => "attempt to serialize struct, sequence or map with unknown length",
            Error::DepthLimitExceeded => "depth limit exceeded",
            Error::Syntax(..) => "syntax error",
        }
    }

    /// The message that displays this error.
    pub fn to_string(&self) -> (r: String)
        ensures
            r@ == error_message(*self),
    {
        match self {
            Error::InvalidValueWrite(err) => String::from_str("invalid value write: ").concat(
                err.description(),
            ),
            Error::UnknownLength => String::from_str(
                "attempt to serialize struct, sequence or map with unknown length",
            ),
            Error::DepthLimitExceeded => String::from_str("depth limit exceeded"),
            Error::Syntax(msg) => msg.clone(),
        }
    }

    /// The lower-level failure that caused this error, if any: the failed
    /// write of a value.
    pub fn cause(&self) -> (r: Option<&ValueWriteError>)
        ensures
            match *self {
                Error::InvalidValueWrite(e) => r == Some(&e),
                _ => r is None,
            },
    {
        match self {
            Error::InvalidValueWrite(err) => Some(err),
            Error::UnknownLength => None,
            Error::DepthLimitExceeded => None,
            Error::Syntax(..) => None,
        }
    }

    /// A syntax error carrying `msg`.
    pub fn custom(msg: String) -> (r: Error)
        ensures
            r == Error::Syntax(msg),
    {
        Error::Syntax(msg)
    }
}

/// The short description of each kind of error.
pub open spec fn error_description(e: Error) -> &'static str {
    match e {
        Error::InvalidValueWrite(..) => "invalid value write",
        Error::UnknownLength => "attempt to serialize struct, sequence or map with unknown length",
        Error::DepthLimitExceeded => "depth limit exceeded",
        Error::Syntax(..) => "syntax error",
    }
}

/// The message that displays each error: for a failed write, the
/// description of the failure after a prefix; for a syntax error, its
/// message.
pub open spec fn error_message(e: Error) -> Seq<char> {
    match e {
        Error::InvalidValueWrite(err) => "invalid value write: "@ + value_write_error_description(
            err,
        )@,
        Error::Syntax(msg) => msg@,
        _ => error_description(e)@,
    }
}

impl From<ValueWriteError> for Error {
    fn from(err: ValueWriteError) -> (r: Error) {
        Error::InvalidValueWrite(err)
    }
}

impl vstd::std_specs::convert::FromSpecImpl<ValueWriteError> for Error {
    open spec fn obeys_from_spec() -> bool {
        true
    }

    open spec fn from_spec(err: ValueWriteError) -> Error {
        Error::InvalidValueWrite(err)
    }
}

/// Access to the writer underneath a serializer.
pub trait UnderlyingWrite {
    /// The writer type.
    type Write;

    /// The writer, as the specifications see it.
    spec fn underlying(&self) -> Self::Write;

    /// Gets a reference to the underlying writer.
    fn get_ref(&self) -> (r: &Self::Write)
        ensures
            *r == self.underlying(),
    ;

    /// Gets a mutable reference to the underlying writer.
    fn get_mut(&mut self) -> (r: &mut Self::Write)
        ensures
            *r == old(self).underlying(),
            final(self).underlying() == *final(r),
    ;

    /// Unwraps this value, returning the underlying writer.
    fn into_inner(self) -> (r: Self::Write)
        ensures
            r == self.underlying(),
    ;
}

/// A MessagePack serializer writing into `wr`, laying values out as the
/// configuration `C` says.
///
/// An enum value is written as a single-entry map whose key identifies the
/// variant and whose value is a sequence containing all associated data. If
/// the variant has no associated data, the sequence is empty; a struct
/// variant's data is laid out as a struct.
#[derive(Debug)]
pub struct Serializer<W, C> {
    wr: W,
    config: C,
    depth: usize,
}

/// Part of the serialization interface: the handle through which the
/// elements of a sequence, map or struct are written.
#[derive(Debug)]
pub struct Compound<'a, W, C> {
    /// The serializer that the elements are written with; what it holds when
    /// the handle is released is what the serializer it was borrowed from
    /// holds.
    pub se: &'a mut Serializer<W, C>,
}

impl<W, C> Serializer<W, C> {
    /// The writer.
    pub closed spec fn writer(&self) -> W {
        self.wr
    }

    /// The layout configuration.
    pub closed spec fn config(&self) -> C {
        self.config
    }

    /// The maximum nesting depth.
    pub closed spec fn max_depth(&self) -> usize {
        self.depth
    }

    /// Gets a reference to the underlying writer.
    pub fn get_ref(&self) -> (r: &W)
        ensures
            *r == self.writer(),
    {
        &self.wr
    }

    /// Gets a mutable reference to the underlying writer.
    ///
    /// It is inadvisable to directly write to the underlying writer.
    pub fn get_mut(&mut self) -> (r: &mut W)
        ensures
            *r == old(self).writer(),
            final(self).writer() == *final(r),
            final(self).config() == old(self).config(),
            final(self).max_depth() == old(self).max_depth(),
    {
        &mut self.wr
    }

    /// Unwraps this `Serializer`, returning the underlying writer.
    pub fn into_inner(self) -> (r: W)
        ensures
            r == self.writer(),
    {
        self.wr
    }

    /// Changes the maximum nesting depth that is allowed.
    ///
    /// Currently unused.
    pub fn set_max_depth(&mut self, depth: usize)
        ensures
            final(self).max_depth() == depth,
            final(self).writer() == old(self).writer(),
            final(self).config() == old(self).config(),
    {
        self.depth = depth;
    }

    /// The handle through which the elements of a compound value are
    /// written with this serializer.
    pub fn compound<'a>(&'a mut self) -> (r: Result<Compound<'a, W, C>, Error>)
        ensures
            r matches Ok(c) && c.serializer() == *old(self) && *final(self) == *final(c.se),
    {
        let c = Compound { se: self };
        Ok(c)
    }

    /// Consumes this serializer, returning one that writes structs as maps
    /// from field names to values.
    pub fn with_struct_map(self) -> (r: Serializer<W, StructMapConfig<C>>)
        ensures
            r.writer() == self.writer(),
            r.max_depth() == self.max_depth(),
            r.config().0 == self.config(),
    {
        let Serializer { wr, depth, config } = self;
        Serializer { wr: wr, depth: depth, config: StructMapConfig::new(config) }
    }

    /// Consumes this serializer, returning one that writes structs as arrays
    /// of their fields, without field names.
    pub fn with_struct_tuple(self) -> (r: Serializer<W, StructTupleConfig<C>>)
        ensures
            r.writer() == self.writer(),
            r.max_depth() == self.max_depth(),
            r.config().0 == self.config(),
    {
        let Serializer { wr, depth, config } = self;
        Serializer { wr: wr, depth: depth, config: StructTupleConfig::new(config) }
    }

    /// Consumes this serializer, returning one that identifies enum variants
    /// by name.
    pub fn with_string_variants(self) -> (r: Serializer<W, VariantStringConfig<C>>)
        ensures
            r.writer() == self.writer(),
            r.max_depth() == self.max_depth(),
            r.config().0 == self.config(),
    {
        let Serializer { wr, depth, config } = self;
        Serializer { wr: wr, depth: depth, config: VariantStringConfig::new(config) }
    }

    /// Consumes this serializer, returning one that identifies enum variants
    /// by their index.
    pub fn with_integer_variants(self) -> (r: Serializer<W, VariantIntegerConfig<C>>)
        ensures
            r.writer() == self.writer(),
            r.max_depth() == self.max_depth(),
            r.config().0 == self.config(),
    {
        let Serializer { wr, depth, config } = self;
        Serializer { wr: wr, depth: depth, config: VariantIntegerConfig::new(config) }
    }
}

impl<'a, W, C> Compound<'a, W, C> {
    /// The serializer that this handle writes with.
    pub open spec fn serializer(&self) -> Serializer<W, C> {
        *self.se
    }
}

impl<W, C> UnderlyingWrite for Serializer<W, C> {
    type Write = W;

    open spec fn underlying(&self) -> W {
        self.writer()
    }

    fn get_ref(&self) -> (r: &W) {
        &self.wr
    }

    fn get_mut(&mut self) -> (r: &mut W) {
        &mut self.wr
    }

    fn into_inner(self) -> (r: W) {
        self.wr
    }
}

/// The nesting depth a new serializer allows.
pub const DEFAULT_MAX_DEPTH: usize = 1024;

impl<W> Serializer<W, DefaultConfig> {
    /// A serializer writing into `wr` with the default, most compact layout:
    /// structs as arrays, enum variants by index.
    pub fn new(wr: W) -> (r: Self)
        ensures
            r.writer() == wr,
            r.max_depth() == DEFAULT_MAX_DEPTH,
    {
        Serializer { wr: wr, depth: DEFAULT_MAX_DEPTH, config: DefaultConfig }
    }
}

impl<W> Serializer<W, StructTupleConfig<DefaultConfig>> {
    /// A serializer writing structs as arrays (the default layout).
    pub fn compact(wr: W) -> (r: Self)
        ensures
            r.writer() == wr,
            r.max_depth() == DEFAULT_MAX_DEPTH,
    {
        Serializer::new(wr).with_struct_tuple()
    }
}

impl<W> Serializer<W, StructMapConfig<DefaultConfig>> {
    /// A serializer writing structs as maps from field names to values.
    pub fn new_named(wr: W) -> (r: Self)
        ensures
            r.writer() == wr,
            r.max_depth() == DEFAULT_MAX_DEPTH,
    {
        Serializer::new(wr).with_struct_map()
    }
}

/// The result a serializer operation reports for the write outcome `o`.
pub open spec fn lift(o: Result<(), ValueWriteError>) -> Result<(), Error> {
    match o {
        Ok(_) => Ok(()),
        Err(e) => Err(Error::InvalidValueWrite(e)),
    }
}

/// The bytes that identify an enum variant: its name as a string, or its
/// index as an unsigned integer, as the configuration says.
pub open spec fn variant_ident<C: SerializerConfig>(idx: u32, variant: Seq<char>) -> Seq<u8> {
    if C::string_variants() {
        str_encoding(encode_utf8(variant))
    } else {
        uint_encoding(idx as u64)
    }
}

/// The header of a struct of `len` fields: a map header when structs are
/// written as maps, an array header otherwise; the length cut to 32 bits.
pub open spec fn struct_len_encoding<C: SerializerConfig>(len: usize) -> Seq<u8> {
    if C::struct_map() {
        map_len_encoding(len as u32)
    } else {
        array_len_encoding(len as u32)
    }
}

/// What precedes the data of an enum variant: a map header of one entry,
/// then the variant's identifier as the key.
pub open spec fn variant_header<C: SerializerConfig>(idx: u32, variant: Seq<char>) -> Seq<Seq<u8>> {
    seq![map_len_encoding(1), variant_ident::<C>(idx, variant)]
}

/// What a struct field is preceded by: its name when structs are written as
/// maps, nothing otherwise.
pub open spec fn field_key<C: SerializerConfig>(key: Seq<char>) -> Seq<Seq<u8>> {
    if C::struct_map() {
        seq![str_encoding(encode_utf8(key))]
    } else {
        Seq::empty()
    }
}

fn lift_write(o: Result<(), ValueWriteError>) -> (r: Result<(), Error>)
    ensures
        r == lift(o),
{
    match o {
        Ok(_) => Ok(()),
        Err(e) => Err(Error::InvalidValueWrite(e)),
    }
}

fn lift_marker<M>(o: Result<M, ValueWriteError>) -> (r: Result<(), Error>)
    ensures
        o is Ok ==> r == Ok::<(), Error>(()),
        o matches Err(e) ==> r == Err::<(), Error>(Error::InvalidValueWrite(e)),
{
    match o {
        Ok(_) => Ok(()),
        Err(e) => Err(Error::InvalidValueWrite(e)),
    }
}

impl<W: MsgWrite, C> Serializer<W, C> {
    /// `after` is this serializer with the values `parts` written, as far as
    /// the writer's room allowed, and its configuration and depth unchanged.
    pub open spec fn wrote(self, after: Self, parts: Seq<Seq<u8>>) -> bool {
        &&& appended(self.writer(), after.writer(), parts)
        &&& after.config() == self.config()
        &&& after.max_depth() == self.max_depth()
    }

    /// What writing `parts` with this serializer reports.
    pub open spec fn outcome(self, parts: Seq<Seq<u8>>) -> Result<(), Error> {
        lift(parts_outcome(self.writer().room(), parts))
    }
}

/// Two successive serializer steps make one.
proof fn lemma_steps<W: MsgWrite, C>(
    s0: Serializer<W, C>,
    s1: Serializer<W, C>,
    s2: Serializer<W, C>,
    first: Seq<Seq<u8>>,
    second: Seq<Seq<u8>>,
)
    requires
        s0.wrote(s1, first),
        s0.outcome(first) is Ok,
        s1.wrote(s2, second),
    ensures
        s0.wrote(s2, first + second),
        s0.outcome(first + second) == s1.outcome(second),
{
    lemma_appended_chain(s0.writer(), s1.writer(), s2.writer(), first, second);
}

/// A serializer step that failed ends the operation.
proof fn lemma_step_failed<W: MsgWrite, C>(
    s0: Serializer<W, C>,
    s1: Serializer<W, C>,
    first: Seq<Seq<u8>>,
    second: Seq<Seq<u8>>,
)
    requires
        s0.wrote(s1, first),
        s0.outcome(first) is Err,
    ensures
        s0.wrote(s1, first + second),
        s0.outcome(first + second) == s0.outcome(first),
{
    lemma_appended_stop(s0.writer(), s1.writer(), first, second);
}

impl<W: MsgWrite, C: SerializerConfig> Serializer<W, C> {
    /// Writes a boolean.
    pub fn serialize_bool(&mut self, v: bool) -> (r: Result<(), Error>)
        ensures
            old(self).wrote(*final(self), seq![bool_encoding(v)]),
            r == old(self).outcome(seq![bool_encoding(v)]),
    {
        lift_write(write_bool(&mut self.wr, v))
    }

    /// Writes an `i8`, as the `i64` of the same value.
    pub fn serialize_i8(&mut self, v: i8) -> (r: Result<(), Error>)
        ensures
            old(self).wrote(*final(self), seq![sint_encoding(v as i64)]),
            r == old(self).outcome(seq![sint_encoding(v as i64)]),
    {
        self.serialize_i64(v as i64)
    }

    /// Writes an `i16`, as the `i64` of the same value.
    pub fn serialize_i16(&mut self, v: i16) -> (r: Result<(), Error>)
        ensures
            old(self).wrote(*final(self), seq![sint_encoding(v as i64)]),
            r == old(self).outcome(seq![sint_encoding(v as i64)]),
    {
        self.serialize_i64(v as i64)
    }

    /// Writes an `i32`, as the `i64` of the same value.
    pub fn serialize_i32(&mut self, v: i32) -> (r: Result<(), Error>)
        ensures
            old(self).wrote(*final(self), seq![sint_encoding(v as i64)]),
            r == old(self).outcome(seq![sint_encoding(v as i64)]),
    {
        self.serialize_i64(v as i64)
    }

    /// Writes an `i64` in the smallest format that holds it.
    pub fn serialize_i64(&mut self, v: i64) -> (r: Result<(), Error>)
        ensures
            old(self).wrote(*final(self), seq![sint_encoding(v)]),
            r == old(self).outcome(seq![sint_encoding(v)]),
    {
        lift_marker(write_sint(&mut self.wr, v))
    }

    /// Writes a `u8`, as the `u64` of the same value.
    pub fn serialize_u8(&mut self, v: u8) -> (r: Result<(), Error>)
        ensures
            old(self).wrote(*final(self), seq![uint_encoding(v as u64)]),
            r == old(self).outcome(seq![uint_encoding(v as u64)]),
    {
        self.serialize_u64(v as u64)
    }

    /// Writes a `u16`, as the `u64` of the same value.
    pub fn serialize_u16(&mut self, v: u16) -> (r: Result<(), Error>)
        ensures
            old(self).wrote(*final(self), seq![uint_encoding(v as u64)]),
            r == old(self).outcome(seq![uint_encoding(v as u64)]),
    {
        self.serialize_u64(v as u64)
    }

    /// Writes a `u32`, as the `u64` of the same value.
    pub fn serialize_u32(&mut self, v: u32) -> (r: Result<(), Error>)
        ensures
            old(self).wrote(*final(self), seq![uint_encoding(v as u64)]),
            r == old(self).outcome(seq![uint_encoding(v as u64)]),
    {
        self.serialize_u64(v as u64)
    }

    /// Writes a `u64` in the smallest format that holds it.
    pub fn serialize_u64(&mut self, v: u64) -> (r: Result<(), Error>)
        ensures
            old(self).wrote(*final(self), seq![uint_encoding(v)]),
            r == old(self).outcome(seq![uint_encoding(v)]),
    {
        lift_marker(write_uint(&mut self.wr, v))
    }

    /// Writes a 32-bit float, given by its bit pattern.
    pub fn serialize_f32_bits(&mut self, bits: u32) -> (r: Result<(), Error>)
        ensures
            old(self).wrote(*final(self), seq![f32_encoding(bits)]),
            r == old(self).outcome(seq![f32_encoding(bits)]),
    {
        lift_write(write_f32_bits(&mut self.wr, bits))
    }

    /// Writes a 64-bit float, given by its bit pattern.
    pub fn serialize_f64_bits(&mut self, bits: u64) -> (r: Result<(), Error>)
        ensures
            old(self).wrote(*final(self), seq![f64_encoding(bits)]),
            r == old(self).outcome(seq![f64_encoding(bits)]),
    {
        lift_write(write_f64_bits(&mut self.wr, bits))
    }

    /// Writes a character, as the string that holds only it.
    pub fn serialize_char(&mut self, v: char) -> (r: Result<(), Error>)
        ensures
            old(self).wrote(*final(self), seq![str_encoding(encode_utf8(seq![v]))]),
            r == old(self).outcome(seq![str_encoding(encode_utf8(seq![v]))]),
    {
        let buf = char_utf8(v);
        lift_write(write_str_bytes(&mut self.wr, buf.as_slice()))
    }

    /// Writes a string.
    pub fn serialize_str(&mut self, v: &str) -> (r: Result<(), Error>)
        ensures
            old(self).wrote(*final(self), seq![str_encoding(encode_utf8(v@))]),
            r == old(self).outcome(seq![str_encoding(encode_utf8(v@))]),
    {
        lift_write(write_str(&mut self.wr, v))
    }

    /// Writes a byte array as binary data.
    pub fn serialize_bytes(&mut self, value: &[u8]) -> (r: Result<(), Error>)
        ensures
            old(self).wrote(*final(self), seq![bin_encoding(value@)]),
            r == old(self).outcome(seq![bin_encoding(value@)]),
    {
        lift_write(write_bin(&mut self.wr, value))
    }

    /// Writes an absent optional value, as `nil`.
    pub fn serialize_none(&mut self) -> (r: Result<(), Error>)
        ensures
            old(self).wrote(*final(self), seq![nil_encoding()]),
            r == old(self).outcome(seq![nil_encoding()]),
    {
        self.serialize_unit()
    }

    /// Writes the unit value, as `nil`.
    pub fn serialize_unit(&mut self) -> (r: Result<(), Error>)
        ensures
            old(self).wrote(*final(self), seq![nil_encoding()]),
            r == old(self).outcome(seq![nil_encoding()]),
    {
        lift_write(write_nil(&mut self.wr))
    }

    /// Writes a unit struct, as an empty array.
    pub fn serialize_unit_struct(&mut self, _name: &str) -> (r: Result<(), Error>)
        ensures
            old(self).wrote(*final(self), seq![array_len_encoding(0)]),
            r == old(self).outcome(seq![array_len_encoding(0)]),
    {
        lift_marker(write_array_len(&mut self.wr, 0))
    }

    /// Writes the identifier of an enum variant: its name or its index, as
    /// the configuration says.
    fn write_variant_ident(&mut self, idx: u32, variant: &str) -> (r: Result<(), Error>)
        ensures
            old(self).wrote(*final(self), seq![variant_ident::<C>(idx, variant@)]),
            r == old(self).outcome(seq![variant_ident::<C>(idx, variant@)]),
    {
        if C::is_string_variants() {
            self.serialize_str(variant)
        } else {
            self.serialize_u32(idx)
        }
    }

    /// Writes what precedes the data of an enum variant: a map header of one
    /// entry and the variant's identifier.
    fn write_variant_header(&mut self, idx: u32, variant: &str) -> (r: Result<(), Error>)
        ensures
            old(self).wrote(*final(self), variant_header::<C>(idx, variant@)),
            r == old(self).outcome(variant_header::<C>(idx, variant@)),
    {
        let ghost s0 = *self;
        let ghost p1 = seq![map_len_encoding(1)];
        let ghost p2 = seq![variant_ident::<C>(idx, variant@)];
        assert(p1 + p2 =~= variant_header::<C>(idx, variant@));
        let r1 = lift_marker(write_map_len(&mut self.wr, 1));
        if r1.is_err() {
            proof {
                lemma_step_failed(s0, *self, p1, p2);
            }
            return r1;
        }
        let ghost s1 = *self;
        let r2 = self.write_variant_ident(idx, variant);
        proof {
            lemma_steps(s0, s1, *self, p1, p2);
        }
        r2
    }
}

/// `r` is what opening a compound value that starts with `parts` reports:
/// on success a handle on the serializer with `parts` written, on failure
/// the error, with `after` holding as much of `parts` as was written.
pub open spec fn opened<'a, W: MsgWrite, C>(
    before: Serializer<W, C>,
    r: Result<Compound<'a, W, C>, Error>,
    after: Serializer<W, C>,
    parts: Seq<Seq<u8>>,
) -> bool {
    match r {
        Ok(c) => before.wrote(c.serializer(), parts) && before.outcome(parts) is Ok,
        Err(e) => before.wrote(after, parts) && before.outcome(parts) == Err::<(), Error>(e),
    }
}

impl<W: MsgWrite, C: SerializerConfig> Serializer<W, C> {
    /// Writes the array header of a compound value, then hands it out.
    fn open_with<'a>(&'a mut self, header: Result<(), Error>, Ghost(s0): Ghost<Self>, Ghost(parts): Ghost<Seq<Seq<u8>>>) -> (r: Result<Compound<'a, W, C>, Error>)
        requires
            s0.wrote(*old(self), parts),
            header == s0.outcome(parts),
        ensures
            opened(s0, r, *final(self), parts),
            r matches Ok(c) ==> *final(self) == *final(c.se),
    {
        match header {
            Ok(_) => self.compound(),
            Err(e) => Err(e),
        }
    }

    /// Writes a unit variant: a map of one entry from the variant's
    /// identifier to an empty sequence.
    pub fn serialize_unit_variant(&mut self, _name: &str, idx: u32, variant: &str) -> (r: Result<
        (),
        Error,
    >)
        ensures
            old(self).wrote(
                *final(self),
                variant_header::<C>(idx, variant@) + seq![array_len_encoding(0)],
            ),
            r == old(self).outcome(variant_header::<C>(idx, variant@) + seq![array_len_encoding(0)]),
    {
        let ghost s0 = *self;
        let ghost p1 = variant_header::<C>(idx, variant@);
        let ghost p2 = seq![array_len_encoding(0)];
        let r1 = self.write_variant_header(idx, variant);
        if r1.is_err() {
            proof {
                lemma_step_failed(s0, *self, p1, p2);
            }
            return r1;
        }
        let ghost s1 = *self;
        let r2 = lift_marker(write_array_len(&mut self.wr, 0));
        proof {
            lemma_steps(s0, s1, *self, p1, p2);
        }
        r2
    }

    /// Writes what precedes the value of a newtype variant: a map header of
    /// one entry, the variant's identifier, and the header of a sequence of
    /// one element. The value follows as that element.
    pub fn serialize_newtype_variant(&mut self, _name: &str, idx: u32, variant: &str) -> (r:
        Result<(), Error>)
        ensures
            old(self).wrote(
                *final(self),
                variant_header::<C>(idx, variant@) + seq![array_len_encoding(1)],
            ),
            r == old(self).outcome(variant_header::<C>(idx, variant@) + seq![array_len_encoding(1)]),
    {
        let ghost s0 = *self;
        let ghost p1 = variant_header::<C>(idx, variant@);
        let ghost p2 = seq![array_len_encoding(1)];
        let r1 = self.write_variant_header(idx, variant);
        if r1.is_err() {
            proof {
                lemma_step_failed(s0, *self, p1, p2);
            }
            return r1;
        }
        let ghost s1 = *self;
        let r2 = lift_marker(write_array_len(&mut self.wr, 1));
        proof {
            lemma_steps(s0, s1, *self, p1, p2);
        }
        r2
    }

    /// Starts a sequence of known length: writes an array header, the length
    /// cut to 32 bits. A sequence of unknown length cannot be written.
    pub fn serialize_seq(&mut self, len: Option<usize>) -> (r: Result<Compound<'_, W, C>, Error>)
        ensures
            len is None ==> (r matches Err(Error::UnknownLength) && *final(self) == *old(self)),
            len matches Some(n) ==> opened(
                *old(self),
                r,
                *final(self),
                seq![array_len_encoding(n as u32)],
            ),
            r matches Ok(c) ==> *final(self) == *final(c.se),
    {
        let n = match len {
            Some(n) => n,
            None => return Err(Error::UnknownLength),
        };
        let ghost s0 = *self;
        let ghost parts = seq![array_len_encoding(n as u32)];
        let header = lift_marker(write_array_len(&mut self.wr, #[verifier::truncate] (n as u32)));
        self.open_with(header, Ghost(s0), Ghost(parts))
    }

    /// Starts a tuple: a sequence of `len` elements.
    pub fn serialize_tuple(&mut self, len: usize) -> (r: Result<Compound<'_, W, C>, Error>)
        ensures
            opened(*old(self), r, *final(self), seq![array_len_encoding(len as u32)]),
            r matches Ok(c) ==> *final(self) == *final(c.se),
    {
        self.serialize_seq(Some(len))
    }

    /// Starts a tuple struct: a sequence of `len` elements.
    pub fn serialize_tuple_struct(&mut self, _name: &str, len: usize) -> (r: Result<
        Compound<'_, W, C>,
        Error,
    >)
        ensures
            opened(*old(self), r, *final(self), seq![array_len_encoding(len as u32)]),
            r matches Ok(c) ==> *final(self) == *final(c.se),
    {
        self.serialize_tuple(len)
    }

    /// Starts a tuple variant: a map of one entry from the variant's
    /// identifier to a sequence of `len` elements.
    pub fn serialize_tuple_variant(&mut self, _name: &str, idx: u32, variant: &str, len: usize) -> (r:
        Result<Compound<'_, W, C>, Error>)
        ensures
            opened(
                *old(self),
                r,
                *final(self),
                variant_header::<C>(idx, variant@) + seq![array_len_encoding(len as u32)],
            ),
            r matches Ok(c) ==> *final(self) == *final(c.se),
    {
        let ghost s0 = *self;
        let ghost p1 = variant_header::<C>(idx, variant@);
        let ghost p2 = seq![array_len_encoding(len as u32)];
        let r1 = self.write_variant_header(idx, variant);
        if let Err(e) = r1 {
            proof {
                lemma_step_failed(s0, *self, p1, p2);
            }
            return Err(e);
        }
        let ghost s1 = *self;
        let r2 = lift_marker(write_array_len(&mut self.wr, #[verifier::truncate] (len as u32)));
        proof {
            lemma_steps(s0, s1, *self, p1, p2);
        }
        self.open_with(r2, Ghost(s0), Ghost(p1 + p2))
    }

    /// Starts a map of known length: writes a map header, the length cut to
    /// 32 bits. A map of unknown length cannot be written.
    pub fn serialize_map(&mut self, len: Option<usize>) -> (r: Result<Compound<'_, W, C>, Error>)
        ensures
            len is None ==> (r matches Err(Error::UnknownLength) && *final(self) == *old(self)),
            len matches Some(n) ==> opened(
                *old(self),
                r,
                *final(self),
                seq![map_len_encoding(n as u32)],
            ),
            r matches Ok(c) ==> *final(self) == *final(c.se),
    {
        match len {
            Some(n) => {
                let ghost s0 = *self;
                let ghost parts = seq![map_len_encoding(n as u32)];
                let header = lift_marker(
                    write_map_len(&mut self.wr, #[verifier::truncate] (n as u32)),
                );
                self.open_with(header, Ghost(s0), Ghost(parts))
            },
            None => Err(Error::UnknownLength),
        }
    }

    /// Writes the header of a struct of `len` fields, as the configuration
    /// lays structs out.
    fn write_struct_len(&mut self, len: usize) -> (r: Result<(), Error>)
        ensures
            old(self).wrote(*final(self), seq![struct_len_encoding::<C>(len)]),
            r == old(self).outcome(seq![struct_len_encoding::<C>(len)]),
    {
        if C::is_struct_map() {
            lift_marker(write_map_len(&mut self.wr, #[verifier::truncate] (len as u32)))
        } else {
            lift_marker(write_array_len(&mut self.wr, #[verifier::truncate] (len as u32)))
        }
    }

    /// Starts a struct of `len` fields: a map header when structs are written
    /// as maps, an array header otherwise.
    pub fn serialize_struct(&mut self, _name: &str, len: usize) -> (r: Result<
        Compound<'_, W, C>,
        Error,
    >)
        ensures
            opened(*old(self), r, *final(self), seq![struct_len_encoding::<C>(len)]),
            r matches Ok(c) ==> *final(self) == *final(c.se),
    {
        let ghost s0 = *self;
        let ghost parts = seq![struct_len_encoding::<C>(len)];
        let header = self.write_struct_len(len);
        self.open_with(header, Ghost(s0), Ghost(parts))
    }

    /// Starts a struct variant: a map of one entry from the variant's
    /// identifier to a struct of `len` fields.
    pub fn serialize_struct_variant(&mut self, _name: &str, id: u32, variant: &str, len: usize) -> (r:
        Result<Compound<'_, W, C>, Error>)
        ensures
            opened(
                *old(self),
                r,
                *final(self),
                variant_header::<C>(id, variant@) + seq![struct_len_encoding::<C>(len)],
            ),
            r matches Ok(c) ==> *final(self) == *final(c.se),
    {
        let ghost s0 = *self;
        let ghost p1 = variant_header::<C>(id, variant@);
        let ghost p2 = seq![struct_len_encoding::<C>(len)];
        let r1 = self.write_variant_header(id, variant);
        if let Err(e) = r1 {
            proof {
                lemma_step_failed(s0, *self, p1, p2);
            }
            return Err(e);
        }
        let ghost s1 = *self;
        let r2 = self.write_struct_len(len);
        proof {
            lemma_steps(s0, s1, *self, p1, p2);
        }
        self.open_with(r2, Ghost(s0), Ghost(p1 + p2))
    }

    /// Writes what precedes the value of a struct field: its name when
    /// structs are written as maps, nothing otherwise.
    pub fn serialize_field_key(&mut self, key: &str) -> (r: Result<(), Error>)
        ensures
            old(self).wrote(*final(self), field_key::<C>(key@)),
            r == old(self).outcome(field_key::<C>(key@)),
    {
        if C::is_struct_map() {
            self.serialize_str(key)
        } else {
            proof {
                lemma_appended_nothing(self.writer());
            }
            Ok(())
        }
    }

    /// MessagePack is not a human-readable format.
    pub fn is_human_readable(&self) -> (r: bool)
        ensures
            !r,
    {
        false
    }
}

impl<'a, W, C> Compound<'a, W, C> {
    /// The serializer that this handle writes with.
    pub fn get_mut(&mut self) -> (r: &mut Serializer<W, C>)
        ensures
            *r == old(self).serializer(),
            final(self).serializer() == *final(r),
            *final(final(self).se) == *final(old(self).se),
    {
        &mut *self.se
    }

    /// Finishes the compound value: there is nothing left to write.
    pub fn end(self) -> (r: Result<(), Error>)
        ensures
            r matches Ok(_),
            *final(self.se) == *old(self.se),
    {
        Ok(())
    }
}

} // verus!
