//! Laws that hold of every write, of the integer formats and of the layout
//! configurations.
use vstd::prelude::*;
use vstd::utf8::{decode_utf8, encode_utf8};
use crate::config::{
    DefaultConfig, SerializerConfig, StructMapConfig, StructTupleConfig, VariantIntegerConfig,
    VariantStringConfig,
};
use crate::decode::{law_sint_roundtrip, law_str_roundtrip, law_uint_roundtrip, read_int, read_str};
use crate::encode::{field_key, struct_len_encoding, variant_ident, Error, Serializer};
use crate::pack::{
    array_len_encoding, map_len_encoding, sint_encoding, sint_marker, str_encoding,
    uint_encoding, uint_marker,
};
use crate::write::{
    accepted, appended, fits, lemma_parts_ok_iff, parts_outcome, MsgWrite,
    ValueWriteError,
};

verus! {

/// Writing only ever appends: what a writer held before is a prefix of what
/// it holds after, and at most the encoded bytes were added.
pub proof fn law_writes_only_append<W: MsgWrite>(before: W, after: W, parts: Seq<Seq<u8>>)
    requires
        appended(before, after, parts),
    ensures
        after.written().len() <= before.written().len() + parts.flatten().len(),
        after.written().take(before.written().len() as int) == before.written(),
        after.written().skip(before.written().len() as int).len() <= parts.flatten().len(),
        parts.flatten().take(
            (after.written().len() - before.written().len()) as int,
        ) == after.written().skip(before.written().len() as int),
{
    let a = before.written();
    let f = parts.flatten();
    let k = accepted(before.room(), f.len());
    assert(after.written().take(a.len() as int) =~= a);
    assert(after.written().skip(a.len() as int) =~= f.take(k as int));
}

/// A sequence of values is written in full exactly when its bytes fit into
/// the room the writer has; otherwise the writer is left full, holding a
/// proper prefix of the bytes.
pub proof fn law_success_iff_fits<W: MsgWrite>(before: W, after: W, parts: Seq<Seq<u8>>)
    requires
        appended(before, after, parts),
    ensures
        parts_outcome(before.room(), parts) is Ok <==> fits(before.room(), parts.flatten().len()),
        parts_outcome(before.room(), parts) is Ok ==> after.written() == before.written()
            + parts.flatten(),
        parts_outcome(before.room(), parts) is Err ==> after.room() == Some(0nat)
            && after.written().len() < before.written().len() + parts.flatten().len(),
{
    lemma_parts_ok_iff(before.room(), parts);
    let f = parts.flatten();
    if fits(before.room(), f.len()) {
        assert(f.take(f.len() as int) =~= f);
    }
}

/// A writer without a size limit never fails, and receives exactly the
/// encoded bytes.
pub proof fn law_unbounded_never_fails<W: MsgWrite>(before: W, after: W, parts: Seq<Seq<u8>>)
    requires
        appended(before, after, parts),
        before.room() is None,
    ensures
        parts_outcome(before.room(), parts) == Ok::<(), ValueWriteError>(()),
        after.written() == before.written() + parts.flatten(),
        after.room() is None,
{
    law_success_iff_fits(before, after, parts);
    crate::write::lemma_unit_ok(parts_outcome(before.room(), parts));
}

/// A vector receives exactly the encoded bytes of every write.
pub proof fn law_vec_receives_encoding(before: Vec<u8>, after: Vec<u8>, parts: Seq<Seq<u8>>)
    requires
        appended(before, after, parts),
    ensures
        after@ == before@ + parts.flatten(),
        parts_outcome(before.room(), parts) == Ok::<(), ValueWriteError>(()),
{
    law_unbounded_never_fails(before, after, parts);
}

/// A signed integer that is not negative is written exactly as the unsigned
/// integer of the same value, with the same marker.
pub proof fn law_sint_nonnegative_is_uint(v: i64)
    requires
        v >= 0,
    ensures
        sint_encoding(v) == uint_encoding(v as u64),
        sint_marker(v) == uint_marker(v as u64),
{
}

/// The integer formats are chosen by size: the encoding of an unsigned
/// integer takes 1, 2, 3, 5 or 9 bytes, the fewest that hold it.
pub proof fn law_uint_size(v: u64)
    ensures
        uint_encoding(v).len() == if v < 128 {
            1nat
        } else if v < 256 {
            2nat
        } else if v < 65536 {
            3nat
        } else if v < 4294967296 {
            5nat
        } else {
            9nat
        },
{
}

/// The default layout writes structs as arrays without field names and
/// identifies variants by index.
pub proof fn law_default_layout(len: usize, idx: u32, variant: Seq<char>, key: Seq<char>)
    ensures
        struct_len_encoding::<DefaultConfig>(len) == array_len_encoding(len as u32),
        field_key::<DefaultConfig>(key) == Seq::<Seq<u8>>::empty(),
        variant_ident::<DefaultConfig>(idx, variant) == uint_encoding(idx as u64),
{
}

/// The layout of `compact` is that of `new`: every layout-dependent part of
/// the output is the same.
pub proof fn law_compact_is_default(len: usize, idx: u32, variant: Seq<char>, key: Seq<char>)
    ensures
        struct_len_encoding::<StructTupleConfig<DefaultConfig>>(len) == struct_len_encoding::<
            DefaultConfig,
        >(len),
        field_key::<StructTupleConfig<DefaultConfig>>(key) == field_key::<DefaultConfig>(key),
        variant_ident::<StructTupleConfig<DefaultConfig>>(idx, variant) == variant_ident::<
            DefaultConfig,
        >(idx, variant),
{
}

/// Writing structs as maps makes structs start with a map header and their
/// fields carry their names, and changes nothing about how variants are
/// identified.
pub proof fn law_struct_map_layout<C: SerializerConfig>(
    len: usize,
    idx: u32,
    variant: Seq<char>,
    key: Seq<char>,
)
    ensures
        struct_len_encoding::<StructMapConfig<C>>(len) == map_len_encoding(len as u32),
        field_key::<StructMapConfig<C>>(key) == seq![str_encoding(encode_utf8(key))],
        variant_ident::<StructMapConfig<C>>(idx, variant) == variant_ident::<C>(idx, variant),
{
}

/// Writing structs as arrays makes structs start with an array header and
/// their fields carry no names, and changes nothing about how variants are
/// identified.
pub proof fn law_struct_tuple_layout<C: SerializerConfig>(
    len: usize,
    idx: u32,
    variant: Seq<char>,
    key: Seq<char>,
)
    ensures
        struct_len_encoding::<StructTupleConfig<C>>(len) == array_len_encoding(len as u32),
        field_key::<StructTupleConfig<C>>(key) == Seq::<Seq<u8>>::empty(),
        variant_ident::<StructTupleConfig<C>>(idx, variant) == variant_ident::<C>(idx, variant),
{
}

/// Identifying variants by name changes how variants are identified and
/// nothing about how structs are laid out.
pub proof fn law_string_variants_layout<C: SerializerConfig>(
    len: usize,
    idx: u32,
    variant: Seq<char>,
    key: Seq<char>,
)
    ensures
        variant_ident::<VariantStringConfig<C>>(idx, variant) == str_encoding(
            encode_utf8(variant),
        ),
        struct_len_encoding::<VariantStringConfig<C>>(len) == struct_len_encoding::<C>(len),
        field_key::<VariantStringConfig<C>>(key) == field_key::<C>(key),
{
}

/// Identifying variants by index changes how variants are identified and
/// nothing about how structs are laid out.
pub proof fn law_integer_variants_layout<C: SerializerConfig>(
    len: usize,
    idx: u32,
    variant: Seq<char>,
    key: Seq<char>,
)
    ensures
        variant_ident::<VariantIntegerConfig<C>>(idx, variant) == uint_encoding(idx as u64),
        struct_len_encoding::<VariantIntegerConfig<C>>(len) == struct_len_encoding::<C>(len),
        field_key::<VariantIntegerConfig<C>>(key) == field_key::<C>(key),
{
}

/// No write reports the depth error: the depth limit is never consulted, and
/// a write fails only with the failure of one of its values.
pub proof fn law_depth_never_exceeded<W: MsgWrite, C>(s: Serializer<W, C>, parts: Seq<Seq<u8>>)
    ensures
        s.outcome(parts) != Err::<(), Error>(Error::DepthLimitExceeded),
        s.outcome(parts) is Err ==> s.outcome(parts) matches Err(Error::InvalidValueWrite(_)),
{
}

/// A serializer whose writer has no size limit gains exactly the encoding of
/// the one value it was asked to write.
proof fn lemma_gained<W: MsgWrite, C>(before: Serializer<W, C>, after: Serializer<W, C>, enc: Seq<u8>)
    requires
        before.wrote(after, seq![enc]),
        before.writer().room() is None,
    ensures
        after.writer().written().skip(before.writer().written().len() as int) == enc,
{
    law_unbounded_never_fails(before.writer(), after.writer(), seq![enc]);
    crate::write::lemma_single_part(None, enc);
    assert(after.writer().written().skip(before.writer().written().len() as int) =~= enc);
}

/// An unsigned integer serialized into a writer without a size limit reads
/// back from the bytes the writer gained.
pub proof fn law_serialized_uint_reads_back<W: MsgWrite, C>(
    before: Serializer<W, C>,
    after: Serializer<W, C>,
    v: u64,
)
    requires
        before.wrote(after, seq![uint_encoding(v)]),
        before.writer().room() is None,
    ensures
        read_int(after.writer().written().skip(before.writer().written().len() as int)) == Some(
            (v as int, uint_encoding(v).len()),
        ),
{
    lemma_gained(before, after, uint_encoding(v));
    law_uint_roundtrip(v, Seq::empty());
    assert(uint_encoding(v) + Seq::<u8>::empty() =~= uint_encoding(v));
}

/// A signed integer serialized into a writer without a size limit reads
/// back from the bytes the writer gained.
pub proof fn law_serialized_sint_reads_back<W: MsgWrite, C>(
    before: Serializer<W, C>,
    after: Serializer<W, C>,
    v: i64,
)
    requires
        before.wrote(after, seq![sint_encoding(v)]),
        before.writer().room() is None,
    ensures
        read_int(after.writer().written().skip(before.writer().written().len() as int)) == Some(
            (v as int, sint_encoding(v).len()),
        ),
{
    lemma_gained(before, after, sint_encoding(v));
    law_sint_roundtrip(v, Seq::empty());
    assert(sint_encoding(v) + Seq::<u8>::empty() =~= sint_encoding(v));
}

/// A string serialized into a writer without a size limit reads back, as
/// the same characters, from the bytes the writer gained, when its UTF-8
/// encoding is shorter than 2^32 bytes.
pub proof fn law_serialized_str_reads_back<W: MsgWrite, C>(
    before: Serializer<W, C>,
    after: Serializer<W, C>,
    s: Seq<char>,
)
    requires
        before.wrote(after, seq![str_encoding(encode_utf8(s))]),
        before.writer().room() is None,
        encode_utf8(s).len() < 0x1_0000_0000,
    ensures
        read_str(after.writer().written().skip(before.writer().written().len() as int)) matches Some(
            (b, n),
        ) && decode_utf8(b) == s,
{
    let e = str_encoding(encode_utf8(s));
    lemma_gained(before, after, e);
    law_str_roundtrip(s, Seq::empty());
    assert(e + Seq::<u8>::empty() =~= e);
}

/// A failed write of one value names where it failed: a marker error
/// exactly when none of its bytes got out, a data error exactly when some
/// but not all of them did.
pub proof fn law_error_names_the_failed_byte<W: MsgWrite>(before: W, after: W, enc: Seq<u8>)
    requires
        appended(before, after, seq![enc]),
        enc.len() > 0,
    ensures
        parts_outcome(before.room(), seq![enc]) == Err::<(), ValueWriteError>(
            ValueWriteError::InvalidMarkerWrite,
        ) <==> after.written() == before.written(),
        parts_outcome(before.room(), seq![enc]) == Err::<(), ValueWriteError>(
            ValueWriteError::InvalidDataWrite,
        ) <==> before.written().len() < after.written().len() < before.written().len()
            + enc.len(),
        parts_outcome(before.room(), seq![enc]) is Ok <==> after.written() == before.written()
            + enc,
{
    crate::write::lemma_single_part(before.room(), enc);
    let k = accepted(before.room(), enc.len());
    assert(after.written().len() == before.written().len() + k);
    if after.written() == before.written() + enc {
        assert(k == enc.len());
    }
    if k == enc.len() {
        assert(enc.take(k as int) =~= enc);
    }
}

} // verus!
