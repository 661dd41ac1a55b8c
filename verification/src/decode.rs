//! How MessagePack bytes are read back, stated as specifications, and the
//! laws that reading gives back what the encoders wrote.
use vstd::prelude::*;
use vstd::utf8::{decode_utf8, encode_utf8};
use crate::marker::Marker;
use crate::config::SerializerConfig;
use crate::encode::{variant_header, variant_ident};
use crate::pack::{
    array_len_encoding, array_len_marker, be16, be32, be64, bin_encoding, bin_len_encoding,
    bool_encoding, nil_encoding,
    bin_len_marker, f32_encoding, f64_encoding, framed, map_len_encoding, map_len_marker,
    sint_encoding, sint_marker, str_encoding, str_len_encoding, str_len_marker, uint_encoding,
    uint_marker,
};

verus! {

/// The unsigned number whose big-endian bytes are `b`.
pub open spec fn be_value(b: Seq<u8>) -> nat
    decreases b.len(),
{
    if b.len() == 0 {
        0
    } else {
        be_value(b.drop_last()) * 256 + b.last() as nat
    }
}

/// The two's-complement reading of the unsigned `u`, where `half` is half
/// the range of its width.
pub open spec fn signed_of(u: nat, half: nat) -> int {
    if u >= half {
        u - 2 * half
    } else {
        u as int
    }
}

/// The `n` bytes after the marker of `b`, when there are that many.
pub open spec fn after_marker(b: Seq<u8>, n: nat) -> Option<Seq<u8>> {
    if b.len() >= 1 + n {
        Some(b.subrange(1, 1 + n as int))
    } else {
        None
    }
}

/// Reads an integer of a format of `n` data bytes whose value is `f` of them.
pub open spec fn read_fixed(b: Seq<u8>, n: nat, f: spec_fn(nat) -> int) -> Option<(int, nat)> {
    match after_marker(b, n) {
        Some(d) => Some((f(be_value(d)), 1 + n)),
        None => None,
    }
}

/// Reads a MessagePack integer from the front of `b`: its value and the
/// number of bytes it takes, or `None` when `b` does not start with one.
pub open spec fn read_int(b: Seq<u8>) -> Option<(int, nat)> {
    if b.len() == 0 {
        None
    } else {
        let m = b[0];
        if m <= 0x7f {
            Some((m as int, 1))
        } else if m >= 0xe0 {
            Some((m - 256, 1))
        } else if m == 0xcc {
            read_fixed(b, 1, |u: nat| u as int)
        } else if m == 0xcd {
            read_fixed(b, 2, |u: nat| u as int)
        } else if m == 0xce {
            read_fixed(b, 4, |u: nat| u as int)
        } else if m == 0xcf {
            read_fixed(b, 8, |u: nat| u as int)
        } else if m == 0xd0 {
            read_fixed(b, 1, |u: nat| signed_of(u, 0x80))
        } else if m == 0xd1 {
            read_fixed(b, 2, |u: nat| signed_of(u, 0x8000))
        } else if m == 0xd2 {
            read_fixed(b, 4, |u: nat| signed_of(u, 0x8000_0000))
        } else if m == 0xd3 {
            read_fixed(b, 8, |u: nat| signed_of(u, 0x8000_0000_0000_0000))
        } else {
            None
        }
    }
}

/// Reads the header of a MessagePack string from the front of `b`: the
/// length it announces and its own size.
pub open spec fn read_str_len(b: Seq<u8>) -> Option<(nat, nat)> {
    if b.len() == 0 {
        None
    } else {
        let m = b[0];
        if 0xa0 <= m <= 0xbf {
            Some(((m - 0xa0) as nat, 1))
        } else if m == 0xd9 {
            match after_marker(b, 1) {
                Some(d) => Some((be_value(d), 2)),
                None => None,
            }
        } else if m == 0xda {
            match after_marker(b, 2) {
                Some(d) => Some((be_value(d), 3)),
                None => None,
            }
        } else if m == 0xdb {
            match after_marker(b, 4) {
                Some(d) => Some((be_value(d), 5)),
                None => None,
            }
        } else {
            None
        }
    }
}

/// Reads a MessagePack string from the front of `b`: its bytes and the
/// number of bytes it takes in all.
pub open spec fn read_str(b: Seq<u8>) -> Option<(Seq<u8>, nat)> {
    match read_str_len(b) {
        Some((len, h)) => if b.len() >= h + len {
            Some((b.subrange(h as int, (h + len) as int), h + len))
        } else {
            None
        },
        None => None,
    }
}

/// Reads a length of `n` big-endian bytes after the marker of `b`, with the
/// size of the whole header.
pub open spec fn read_len_after(b: Seq<u8>, n: nat) -> Option<(nat, nat)> {
    match after_marker(b, n) {
        Some(d) => Some((be_value(d), 1 + n)),
        None => None,
    }
}

/// Reads the header of a MessagePack array from the front of `b`: the number
/// of elements it announces and its own size.
pub open spec fn read_array_len(b: Seq<u8>) -> Option<(nat, nat)> {
    if b.len() == 0 {
        None
    } else if 0x90 <= b[0] <= 0x9f {
        Some(((b[0] - 0x90) as nat, 1))
    } else if b[0] == 0xdc {
        read_len_after(b, 2)
    } else if b[0] == 0xdd {
        read_len_after(b, 4)
    } else {
        None
    }
}

/// Reads the header of a MessagePack map from the front of `b`: the number of
/// entries it announces and its own size.
pub open spec fn read_map_len(b: Seq<u8>) -> Option<(nat, nat)> {
    if b.len() == 0 {
        None
    } else if 0x80 <= b[0] <= 0x8f {
        Some(((b[0] - 0x80) as nat, 1))
    } else if b[0] == 0xde {
        read_len_after(b, 2)
    } else if b[0] == 0xdf {
        read_len_after(b, 4)
    } else {
        None
    }
}

/// Reads the header of a MessagePack binary blob from the front of `b`: the
/// number of bytes it announces and its own size.
pub open spec fn read_bin_len(b: Seq<u8>) -> Option<(nat, nat)> {
    if b.len() == 0 {
        None
    } else if b[0] == 0xc4 {
        read_len_after(b, 1)
    } else if b[0] == 0xc5 {
        read_len_after(b, 2)
    } else if b[0] == 0xc6 {
        read_len_after(b, 4)
    } else {
        None
    }
}

/// Reads a MessagePack binary blob from the front of `b`: its bytes and the
/// number of bytes it takes in all.
pub open spec fn read_bin(b: Seq<u8>) -> Option<(Seq<u8>, nat)> {
    match read_bin_len(b) {
        Some((len, h)) => if b.len() >= h + len {
            Some((b.subrange(h as int, (h + len) as int), h + len))
        } else {
            None
        },
        None => None,
    }
}

/// The size of the smallest header of a given length format: one byte when
/// the length fits in the marker (below `fix`), then a marker with 1, 2 or 4
/// length bytes.
pub open spec fn smallest_header_size(len: u32, fix: nat, has8: bool) -> nat {
    if len < fix {
        1
    } else if has8 && len < 256 {
        2
    } else if len < 65536 {
        3
    } else {
        5
    }
}

/// Reads a MessagePack `nil` or boolean from the front of `b`: `None` inside
/// for `nil`, the boolean otherwise, each one byte long.
pub open spec fn read_nil_or_bool(b: Seq<u8>) -> Option<Option<bool>> {
    if b.len() == 0 {
        None
    } else if b[0] == 0xc0 {
        Some(None)
    } else if b[0] == 0xc2 {
        Some(Some(false))
    } else if b[0] == 0xc3 {
        Some(Some(true))
    } else {
        None
    }
}

/// Reads the bit pattern of a 32-bit float from the front of `b`.
pub open spec fn read_f32_bits(b: Seq<u8>) -> Option<nat> {
    if b.len() >= 1 && b[0] == 0xca {
        match after_marker(b, 4) {
            Some(d) => Some(be_value(d)),
            None => None,
        }
    } else {
        None
    }
}

/// Reads the bit pattern of a 64-bit float from the front of `b`.
pub open spec fn read_f64_bits(b: Seq<u8>) -> Option<nat> {
    if b.len() >= 1 && b[0] == 0xcb {
        match after_marker(b, 8) {
            Some(d) => Some(be_value(d)),
            None => None,
        }
    } else {
        None
    }
}

proof fn lemma_be_value_2(b: Seq<u8>)
    requires
        b.len() == 2,
    ensures
        be_value(b) == b[0] as nat * 256 + b[1] as nat,
{
    reveal_with_fuel(be_value, 3);
    assert(b.drop_last().drop_last() =~= Seq::<u8>::empty());
}

proof fn lemma_be_value_4(b: Seq<u8>)
    requires
        b.len() == 4,
    ensures
        be_value(b) == ((b[0] as nat * 256 + b[1] as nat) * 256 + b[2] as nat) * 256 + b[3] as nat,
{
    reveal_with_fuel(be_value, 5);
    assert(b.drop_last().drop_last().drop_last().drop_last() =~= Seq::<u8>::empty());
}

proof fn lemma_be_value_8(b: Seq<u8>)
    requires
        b.len() == 8,
    ensures
        be_value(b) == (be_value(b.subrange(0, 4)) * 256 * 256) * 256 * 256 + be_value(
            b.subrange(4, 8),
        ),
{
    let hi = b.subrange(0, 4);
    let lo = b.subrange(4, 8);
    reveal_with_fuel(be_value, 5);
    lemma_be_value_4(hi);
    lemma_be_value_4(lo);
    assert(b.drop_last() =~= hi + lo.drop_last());
    assert(b.drop_last().drop_last() =~= hi + lo.drop_last().drop_last());
    assert(b.drop_last().drop_last().drop_last() =~= hi + lo.drop_last().drop_last().drop_last());
    assert(b.drop_last().drop_last().drop_last().drop_last() =~= hi);
}

/// Reading the big-endian bytes of a 16-bit value gives the value.
pub proof fn lemma_be16_value(v: u16)
    ensures
        be_value(be16(v)) == v,
{
    lemma_be_value_2(be16(v));
    assert(((v >> 8u16) as u8) as int * 256 + (v as u8) as int == v as int) by (bit_vector);
}

/// Reading the big-endian bytes of a 32-bit value gives the value.
pub proof fn lemma_be32_value(v: u32)
    ensures
        be_value(be32(v)) == v,
{
    lemma_be_value_4(be32(v));
    assert(((((v >> 24u32) as u8) as int * 256 + ((v >> 16u32) as u8) as int) * 256 + ((v
        >> 8u32) as u8) as int) * 256 + (v as u8) as int == v as int) by (bit_vector);
}

/// Reading the big-endian bytes of a 64-bit value gives the value.
pub proof fn lemma_be64_value(v: u64)
    ensures
        be_value(be64(v)) == v,
{
    let b = be64(v);
    lemma_be_value_8(b);
    let hi = (v >> 32u64) as u32;
    let lo = v as u32;
    assert(b.subrange(0, 4) =~= be32(hi)) by {
        assert((hi >> 24u32) as u8 == (v >> 56u64) as u8) by (bit_vector)
            requires
                hi == (v >> 32u64) as u32,
        ;
        assert((hi >> 16u32) as u8 == (v >> 48u64) as u8) by (bit_vector)
            requires
                hi == (v >> 32u64) as u32,
        ;
        assert((hi >> 8u32) as u8 == (v >> 40u64) as u8) by (bit_vector)
            requires
                hi == (v >> 32u64) as u32,
        ;
        assert(hi as u8 == (v >> 32u64) as u8) by (bit_vector)
            requires
                hi == (v >> 32u64) as u32,
        ;
    }
    assert(b.subrange(4, 8) =~= be32(lo)) by {
        assert((lo >> 24u32) as u8 == (v >> 24u64) as u8) by (bit_vector)
            requires
                lo == v as u32,
        ;
        assert((lo >> 16u32) as u8 == (v >> 16u64) as u8) by (bit_vector)
            requires
                lo == v as u32,
        ;
        assert((lo >> 8u32) as u8 == (v >> 8u64) as u8) by (bit_vector)
            requires
                lo == v as u32,
        ;
        assert(lo as u8 == v as u8) by (bit_vector)
            requires
                lo == v as u32,
        ;
    }
    lemma_be32_value(hi);
    lemma_be32_value(lo);
    assert(hi as int * 256 * 256 * 256 * 256 + lo as int == v as int) by (bit_vector)
        requires
            hi == (v >> 32u64) as u32,
            lo == v as u32,
    ;
}

proof fn lemma_be_value_1(b: Seq<u8>)
    requires
        b.len() == 1,
    ensures
        be_value(b) == b[0] as nat,
{
    reveal_with_fuel(be_value, 2);
    assert(b.drop_last() =~= Seq::<u8>::empty());
}

/// The bytes after the marker of a framed value followed by anything.
proof fn lemma_after_marker(m: Marker, data: Seq<u8>, rest: Seq<u8>)
    ensures
        (framed(m, data) + rest)[0] == m.byte(),
        after_marker(framed(m, data) + rest, data.len()) == Some(data),
        framed(m, data).len() == 1 + data.len(),
{
    assert((framed(m, data) + rest).subrange(1, 1 + data.len() as int) =~= data);
}

/// Every unsigned integer reads back from what `write_uint` writes for it,
/// whatever follows; the marker `write_uint` reports is the first byte.
pub proof fn law_uint_roundtrip(v: u64, rest: Seq<u8>)
    ensures
        read_int(uint_encoding(v) + rest) == Some((v as int, uint_encoding(v).len())),
        uint_encoding(v)[0] == uint_marker(v).byte(),
{
    let e = uint_encoding(v);
    if v < 128 {
        lemma_after_marker(Marker::FixPos(v as u8), seq![], rest);
    } else if v < 256 {
        lemma_after_marker(Marker::U8, seq![v as u8], rest);
        lemma_be_value_1(seq![v as u8]);
    } else if v < 65536 {
        lemma_after_marker(Marker::U16, be16(v as u16), rest);
        lemma_be16_value(v as u16);
    } else if v < 4294967296 {
        lemma_after_marker(Marker::U32, be32(v as u32), rest);
        lemma_be32_value(v as u32);
    } else {
        lemma_after_marker(Marker::U64, be64(v), rest);
        lemma_be64_value(v);
    }
}

/// Every signed integer reads back from what `write_sint` writes for it,
/// whatever follows; the marker `write_sint` reports is the first byte.
pub proof fn law_sint_roundtrip(v: i64, rest: Seq<u8>)
    ensures
        read_int(sint_encoding(v) + rest) == Some((v as int, sint_encoding(v).len())),
        sint_encoding(v)[0] == sint_marker(v).byte(),
{
    if -32 <= v < 0 {
        lemma_after_marker(Marker::FixNeg(v as i8), seq![], rest);
        assert(((v as i8) as u8) as int == v + 256) by (bit_vector)
            requires
                -32 <= v < 0,
        ;
    } else if -128 <= v < -32 {
        lemma_after_marker(Marker::I8, seq![v as u8], rest);
        lemma_be_value_1(seq![v as u8]);
        assert((v as u8) as int == v + 256) by (bit_vector)
            requires
                -128 <= v < -32,
        ;
    } else if -32768 <= v < -128 {
        lemma_after_marker(Marker::I16, be16(v as u16), rest);
        lemma_be16_value(v as u16);
        assert((v as u16) as int == v + 0x10000) by (bit_vector)
            requires
                -32768 <= v < -128,
        ;
    } else if -2147483648 <= v < -32768 {
        lemma_after_marker(Marker::I32, be32(v as u32), rest);
        lemma_be32_value(v as u32);
        assert((v as u32) as int == v + 0x1_0000_0000) by (bit_vector)
            requires
                -2147483648 <= v < -32768,
        ;
    } else if v < -2147483648 {
        lemma_after_marker(Marker::I64, be64(v as u64), rest);
        lemma_be64_value(v as u64);
        assert((v as u64) as int == v + 0x1_0000_0000_0000_0000) by (bit_vector)
            requires
                v < -2147483648,
        ;
    } else {
        law_uint_roundtrip(v as u64, rest);
    }
}

/// A string header reads back as the length it was written for.
proof fn lemma_str_len_roundtrip(len: u32, rest: Seq<u8>)
    ensures
        read_str_len(str_len_encoding(len) + rest) == Some((len as nat, str_len_encoding(len).len())),
{
    if len < 32 {
        lemma_after_marker(Marker::FixStr(len as u8), seq![], rest);
        assert(0xa0u8 | (len as u8) == 0xa0 + len) by (bit_vector)
            requires
                len < 32,
        ;
    } else if len < 256 {
        lemma_after_marker(Marker::Str8, seq![len as u8], rest);
        lemma_be_value_1(seq![len as u8]);
    } else if len < 65536 {
        lemma_after_marker(Marker::Str16, be16(len as u16), rest);
        lemma_be16_value(len as u16);
    } else {
        lemma_after_marker(Marker::Str32, be32(len), rest);
        lemma_be32_value(len);
    }
}

/// A string of fewer than 2^32 bytes reads back, as those bytes, from what
/// `write_str_bytes` writes for it, whatever follows.
pub proof fn law_str_bytes_roundtrip(bytes: Seq<u8>, rest: Seq<u8>)
    requires
        bytes.len() < 0x1_0000_0000,
    ensures
        read_str(str_encoding(bytes) + rest) == Some((bytes, str_encoding(bytes).len())),
{
    let h = str_len_encoding(bytes.len() as u32);
    let b = str_encoding(bytes) + rest;
    assert(b =~= h + (bytes + rest));
    lemma_str_len_roundtrip(bytes.len() as u32, bytes + rest);
    assert(b.subrange(h.len() as int, (h.len() + bytes.len()) as int) =~= bytes);
}

/// A string whose UTF-8 encoding is shorter than 2^32 bytes reads back, as
/// the same characters, from what `write_str` writes for it.
pub proof fn law_str_roundtrip(s: Seq<char>, rest: Seq<u8>)
    requires
        encode_utf8(s).len() < 0x1_0000_0000,
    ensures
        read_str(str_encoding(encode_utf8(s)) + rest) matches Some((b, n)) && decode_utf8(b) == s
            && n == str_encoding(encode_utf8(s)).len(),
{
    law_str_bytes_roundtrip(encode_utf8(s), rest);
    vstd::utf8::encode_utf8_decode_utf8(s);
}

/// The bit pattern of a 32-bit float reads back from its encoding.
pub proof fn law_f32_roundtrip(bits: u32, rest: Seq<u8>)
    ensures
        read_f32_bits(f32_encoding(bits) + rest) == Some(bits as nat),
{
    lemma_after_marker(Marker::F32, be32(bits), rest);
    lemma_be32_value(bits);
}

/// The bit pattern of a 64-bit float reads back from its encoding.
pub proof fn law_f64_roundtrip(bits: u64, rest: Seq<u8>)
    ensures
        read_f64_bits(f64_encoding(bits) + rest) == Some(bits as nat),
{
    lemma_after_marker(Marker::F64, be64(bits), rest);
    lemma_be64_value(bits);
}

/// Every array header reads back as announcing exactly the length it was
/// written for, whatever follows, in the smallest format that holds it; the
/// marker `write_array_len` reports is its first byte.
pub proof fn law_array_len_roundtrip(len: u32, rest: Seq<u8>)
    ensures
        read_array_len(array_len_encoding(len) + rest) == Some(
            (len as nat, smallest_header_size(len, 16, false)),
        ),
        array_len_encoding(len).len() == smallest_header_size(len, 16, false),
        array_len_encoding(len)[0] == array_len_marker(len).byte(),
{
    if len < 16 {
        lemma_after_marker(Marker::FixArray(len as u8), seq![], rest);
        assert(0x90u8 | (len as u8) == 0x90 + len) by (bit_vector)
            requires
                len < 16,
        ;
    } else if len < 65536 {
        lemma_after_marker(Marker::Array16, be16(len as u16), rest);
        lemma_be16_value(len as u16);
    } else {
        lemma_after_marker(Marker::Array32, be32(len), rest);
        lemma_be32_value(len);
    }
}

/// Every map header reads back as announcing exactly the number of entries
/// it was written for, whatever follows, in the smallest format that holds
/// it; the marker `write_map_len` reports is its first byte.
pub proof fn law_map_len_roundtrip(len: u32, rest: Seq<u8>)
    ensures
        read_map_len(map_len_encoding(len) + rest) == Some(
            (len as nat, smallest_header_size(len, 16, false)),
        ),
        map_len_encoding(len).len() == smallest_header_size(len, 16, false),
        map_len_encoding(len)[0] == map_len_marker(len).byte(),
{
    if len < 16 {
        lemma_after_marker(Marker::FixMap(len as u8), seq![], rest);
        assert(0x80u8 | (len as u8) == 0x80 + len) by (bit_vector)
            requires
                len < 16,
        ;
    } else if len < 65536 {
        lemma_after_marker(Marker::Map16, be16(len as u16), rest);
        lemma_be16_value(len as u16);
    } else {
        lemma_after_marker(Marker::Map32, be32(len), rest);
        lemma_be32_value(len);
    }
}

/// Every string header takes the smallest format that holds its length, and
/// the marker `write_str_len` reports is its first byte.
pub proof fn law_str_len_format(len: u32)
    ensures
        str_len_encoding(len).len() == smallest_header_size(len, 32, true),
        str_len_encoding(len)[0] == str_len_marker(len).byte(),
{
}

/// Every binary header reads back as announcing exactly the length it was
/// written for, whatever follows, in the smallest format that holds it; the
/// marker `write_bin_len` reports is its first byte.
pub proof fn law_bin_len_roundtrip(len: u32, rest: Seq<u8>)
    ensures
        read_bin_len(bin_len_encoding(len) + rest) == Some(
            (len as nat, smallest_header_size(len, 0, true)),
        ),
        bin_len_encoding(len).len() == smallest_header_size(len, 0, true),
        bin_len_encoding(len)[0] == bin_len_marker(len).byte(),
{
    if len < 256 {
        lemma_after_marker(Marker::Bin8, seq![len as u8], rest);
        lemma_be_value_1(seq![len as u8]);
    } else if len < 65536 {
        lemma_after_marker(Marker::Bin16, be16(len as u16), rest);
        lemma_be16_value(len as u16);
    } else {
        lemma_after_marker(Marker::Bin32, be32(len), rest);
        lemma_be32_value(len);
    }
}

/// A binary blob of fewer than 2^32 bytes reads back, as exactly those
/// bytes and taking the whole encoding, from what `write_bin` writes for it,
/// whatever follows.
pub proof fn law_bin_roundtrip(bytes: Seq<u8>, rest: Seq<u8>)
    requires
        bytes.len() < 0x1_0000_0000,
    ensures
        read_bin(bin_encoding(bytes) + rest) == Some((bytes, bin_encoding(bytes).len())),
{
    let h = bin_len_encoding(bytes.len() as u32);
    let b = bin_encoding(bytes) + rest;
    assert(b =~= h + (bytes + rest));
    law_bin_len_roundtrip(bytes.len() as u32, bytes + rest);
    assert(b.subrange(h.len() as int, (h.len() + bytes.len()) as int) =~= bytes);
}

/// What precedes an enum variant's data, under every configuration, reads
/// back as a map header of exactly one entry, one byte long, followed by the
/// variant's identifier: its index as an integer when variants are
/// identified by index, its name as a string when by name.
pub proof fn law_variant_header_reads_back<C: SerializerConfig>(
    idx: u32,
    variant: Seq<char>,
    rest: Seq<u8>,
)
    requires
        encode_utf8(variant).len() < 0x1_0000_0000,
    ensures
        ({
            let h = variant_header::<C>(idx, variant).flatten();
            let ident = variant_ident::<C>(idx, variant);
            &&& read_map_len(h + rest) == Some((1nat, 1nat))
            &&& (h + rest).skip(1) == ident + rest
            &&& !C::string_variants() ==> read_int(ident + rest) == Some(
                (idx as int, ident.len()),
            )
            &&& C::string_variants() ==> (read_str(ident + rest) matches Some((b, n)) && decode_utf8(
                b,
            ) == variant && n == ident.len())
        }),
{
    let parts = variant_header::<C>(idx, variant);
    let ident = variant_ident::<C>(idx, variant);
    reveal_with_fuel(vstd::seq::Seq::flatten, 3);
    assert(parts.flatten() =~= map_len_encoding(1) + ident);
    law_map_len_roundtrip(1, ident + rest);
    assert(map_len_encoding(1).len() == 1);
    assert(parts.flatten() + rest =~= map_len_encoding(1) + (ident + rest));
    assert((parts.flatten() + rest).skip(1) =~= ident + rest);
    if C::string_variants() {
        law_str_roundtrip(variant, rest);
    } else {
        law_uint_roundtrip(idx as u64, rest);
    }
}

/// `nil` and the booleans each read back from their one-byte encodings, and
/// no two of them are written alike.
pub proof fn law_nil_bool_roundtrip(v: bool, rest: Seq<u8>)
    ensures
        read_nil_or_bool(nil_encoding() + rest) == Some(None::<bool>),
        read_nil_or_bool(bool_encoding(v) + rest) == Some(Some(v)),
        nil_encoding().len() == 1,
        bool_encoding(v).len() == 1,
{
    lemma_after_marker(Marker::Null, seq![], rest);
    lemma_after_marker(Marker::True, seq![], rest);
    lemma_after_marker(Marker::False, seq![], rest);
}

} // verus!
