//! The MessagePack encoders of single values: nil, booleans, integers, the
//! bit patterns of floats, and the headers of strings, binaries, arrays and
//! maps. Each one writes a marker byte followed by the value's data in
//! big-endian order.
use vstd::prelude::*;
use vstd::utf8::encode_utf8;
use crate::marker::Marker;
use crate::write::{appended, lemma_unit_ok, parts_outcome, put, MsgWrite, ValueWriteError};

verus! {

/// The big-endian bytes of a 16-bit value.
pub open spec fn be16(v: u16) -> Seq<u8> {
    seq![(v >> 8u16) as u8, v as u8]
}

/// The big-endian bytes of a 32-bit value.
pub open spec fn be32(v: u32) -> Seq<u8> {
    seq![(v >> 24u32) as u8, (v >> 16u32) as u8, (v >> 8u32) as u8, v as u8]
}

/// The big-endian bytes of a 64-bit value.
pub open spec fn be64(v: u64) -> Seq<u8> {
    seq![
        (v >> 56u64) as u8,
        (v >> 48u64) as u8,
        (v >> 40u64) as u8,
        (v >> 32u64) as u8,
        (v >> 24u64) as u8,
        (v >> 16u64) as u8,
        (v >> 8u64) as u8,
        v as u8,
    ]
}

/// A value on the wire: its marker byte followed by `data`.
pub open spec fn framed(m: Marker, data: Seq<u8>) -> Seq<u8> {
    seq![m.byte()] + data
}

/// The marker `write_uint` chooses for `v`: the smallest format that holds it.
pub open spec fn uint_marker(v: u64) -> Marker {
    if v < 128 {
        Marker::FixPos(v as u8)
    } else if v < 256 {
        Marker::U8
    } else if v < 65536 {
        Marker::U16
    } else if v < 4294967296 {
        Marker::U32
    } else {
        Marker::U64
    }
}

/// The encoding of an unsigned integer in the smallest format that holds it.
pub open spec fn uint_encoding(v: u64) -> Seq<u8> {
    if v < 128 {
        framed(Marker::FixPos(v as u8), seq![])
    } else if v < 256 {
        framed(Marker::U8, seq![v as u8])
    } else if v < 65536 {
        framed(Marker::U16, be16(v as u16))
    } else if v < 4294967296 {
        framed(Marker::U32, be32(v as u32))
    } else {
        framed(Marker::U64, be64(v))
    }
}

/// The marker `write_sint` chooses for `v`: negative values take the smallest
/// signed format that holds them, the others are written as unsigned.
pub open spec fn sint_marker(v: i64) -> Marker {
    if -32 <= v < 0 {
        Marker::FixNeg(v as i8)
    } else if -128 <= v < -32 {
        Marker::I8
    } else if -32768 <= v < -128 {
        Marker::I16
    } else if -2147483648 <= v < -32768 {
        Marker::I32
    } else if v < -2147483648 {
        Marker::I64
    } else {
        uint_marker(v as u64)
    }
}

/// The encoding of a signed integer in the smallest format that holds it.
pub open spec fn sint_encoding(v: i64) -> Seq<u8> {
    if -32 <= v < 0 {
        framed(Marker::FixNeg(v as i8), seq![])
    } else if -128 <= v < -32 {
        framed(Marker::I8, seq![v as u8])
    } else if -32768 <= v < -128 {
        framed(Marker::I16, be16(v as u16))
    } else if -2147483648 <= v < -32768 {
        framed(Marker::I32, be32(v as u32))
    } else if v < -2147483648 {
        framed(Marker::I64, be64(v as u64))
    } else {
        uint_encoding(v as u64)
    }
}

/// The marker of a string header of length `len`.
pub open spec fn str_len_marker(len: u32) -> Marker {
    if len < 32 {
        Marker::FixStr(len as u8)
    } else if len < 256 {
        Marker::Str8
    } else if len < 65536 {
        Marker::Str16
    } else {
        Marker::Str32
    }
}

/// The header of a string whose UTF-8 encoding is `len` bytes long.
pub open spec fn str_len_encoding(len: u32) -> Seq<u8> {
    if len < 32 {
        framed(Marker::FixStr(len as u8), seq![])
    } else if len < 256 {
        framed(Marker::Str8, seq![len as u8])
    } else if len < 65536 {
        framed(Marker::Str16, be16(len as u16))
    } else {
        framed(Marker::Str32, be32(len))
    }
}

/// A string given by its UTF-8 `bytes`: the header, whose length is the byte
/// count cut to 32 bits, then the bytes.
pub open spec fn str_encoding(bytes: Seq<u8>) -> Seq<u8> {
    str_len_encoding(bytes.len() as u32) + bytes
}

/// The marker of a binary header of length `len`.
pub open spec fn bin_len_marker(len: u32) -> Marker {
    if len < 256 {
        Marker::Bin8
    } else if len < 65536 {
        Marker::Bin16
    } else {
        Marker::Bin32
    }
}

/// The header of a binary blob of `len` bytes.
pub open spec fn bin_len_encoding(len: u32) -> Seq<u8> {
    if len < 256 {
        framed(Marker::Bin8, seq![len as u8])
    } else if len < 65536 {
        framed(Marker::Bin16, be16(len as u16))
    } else {
        framed(Marker::Bin32, be32(len))
    }
}

/// A binary blob: the header, whose length is the byte count cut to 32 bits,
/// then the bytes.
pub open spec fn bin_encoding(bytes: Seq<u8>) -> Seq<u8> {
    bin_len_encoding(bytes.len() as u32) + bytes
}

/// The marker of an array header of length `len`.
pub open spec fn array_len_marker(len: u32) -> Marker {
    if len < 16 {
        Marker::FixArray(len as u8)
    } else if len < 65536 {
        Marker::Array16
    } else {
        Marker::Array32
    }
}

/// The header of an array of `len` elements.
pub open spec fn array_len_encoding(len: u32) -> Seq<u8> {
    if len < 16 {
        framed(Marker::FixArray(len as u8), seq![])
    } else if len < 65536 {
        framed(Marker::Array16, be16(len as u16))
    } else {
        framed(Marker::Array32, be32(len))
    }
}

/// The marker of a map header of length `len`.
pub open spec fn map_len_marker(len: u32) -> Marker {
    if len < 16 {
        Marker::FixMap(len as u8)
    } else if len < 65536 {
        Marker::Map16
    } else {
        Marker::Map32
    }
}

/// The header of a map of `len` entries.
pub open spec fn map_len_encoding(len: u32) -> Seq<u8> {
    if len < 16 {
        framed(Marker::FixMap(len as u8), seq![])
    } else if len < 65536 {
        framed(Marker::Map16, be16(len as u16))
    } else {
        framed(Marker::Map32, be32(len))
    }
}

/// The encoding of `nil`.
pub open spec fn nil_encoding() -> Seq<u8> {
    framed(Marker::Null, seq![])
}

/// The encoding of a boolean.
pub open spec fn bool_encoding(v: bool) -> Seq<u8> {
    if v {
        framed(Marker::True, seq![])
    } else {
        framed(Marker::False, seq![])
    }
}

/// The encoding of a 32-bit float given by its bit pattern.
pub open spec fn f32_encoding(bits: u32) -> Seq<u8> {
    framed(Marker::F32, be32(bits))
}

/// The encoding of a 64-bit float given by its bit pattern.
pub open spec fn f64_encoding(bits: u64) -> Seq<u8> {
    framed(Marker::F64, be64(bits))
}

/// `r` reports the outcome of a write, carrying `value` on success.
pub open spec fn reports<T>(
    r: Result<T, ValueWriteError>,
    outcome: Result<(), ValueWriteError>,
    value: T,
) -> bool {
    match outcome {
        Ok(_) => r == Ok::<T, ValueWriteError>(value),
        Err(e) => r == Err::<T, ValueWriteError>(e),
    }
}

fn be16_bytes(v: u16) -> (r: [u8; 2])
    ensures
        r@ == be16(v),
{
    let r = [(v >> 8u16) as u8, v as u8];
    assert(r@ =~= be16(v));
    r
}

fn be32_bytes(v: u32) -> (r: [u8; 4])
    ensures
        r@ == be32(v),
{
    let r = [(v >> 24u32) as u8, (v >> 16u32) as u8, (v >> 8u32) as u8, v as u8];
    assert(r@ =~= be32(v));
    r
}

fn be64_bytes(v: u64) -> (r: [u8; 8])
    ensures
        r@ == be64(v),
{
    let r = [
        (v >> 56u64) as u8,
        (v >> 48u64) as u8,
        (v >> 40u64) as u8,
        (v >> 32u64) as u8,
        (v >> 24u64) as u8,
        (v >> 16u64) as u8,
        (v >> 8u64) as u8,
        v as u8,
    ];
    assert(r@ =~= be64(v));
    r
}

/// Writes `marker` followed by `data`: one value with no payload.
fn put_framed<W: MsgWrite>(wr: &mut W, marker: Marker, data: &[u8]) -> (r: Result<
    (),
    ValueWriteError,
>)
    ensures
        appended(*old(wr), *final(wr), seq![framed(marker, data@)]),
        r == parts_outcome(old(wr).room(), seq![framed(marker, data@)]),
{
    let empty: [u8; 0] = [];
    assert(seq![marker.byte()] + data@ + empty@ =~= framed(marker, data@));
    put(wr, marker.to_u8(), data, &empty)
}

/// Writes `nil`.
pub fn write_nil<W: MsgWrite>(wr: &mut W) -> (r: Result<(), ValueWriteError>)
    ensures
        appended(*old(wr), *final(wr), seq![nil_encoding()]),
        r == parts_outcome(old(wr).room(), seq![nil_encoding()]),
{
    let empty: [u8; 0] = [];
    put_framed(wr, Marker::Null, &empty)
}

/// Writes a boolean.
pub fn write_bool<W: MsgWrite>(wr: &mut W, val: bool) -> (r: Result<(), ValueWriteError>)
    ensures
        appended(*old(wr), *final(wr), seq![bool_encoding(val)]),
        r == parts_outcome(old(wr).room(), seq![bool_encoding(val)]),
{
    let empty: [u8; 0] = [];
    if val {
        put_framed(wr, Marker::True, &empty)
    } else {
        put_framed(wr, Marker::False, &empty)
    }
}

/// Writes a positive fixint, a value below 128 that is its own marker.
pub fn write_pfix<W: MsgWrite>(wr: &mut W, val: u8) -> (r: Result<(), ValueWriteError>)
    requires
        val < 128,
    ensures
        appended(*old(wr), *final(wr), seq![framed(Marker::FixPos(val), seq![])]),
        r == parts_outcome(old(wr).room(), seq![framed(Marker::FixPos(val), seq![])]),
{
    let empty: [u8; 0] = [];
    assert(empty@ =~= Seq::<u8>::empty());
    put_framed(wr, Marker::FixPos(val), &empty)
}

/// Writes a negative fixint, a value in -32 ..= -1 that is its own marker.
pub fn write_nfix<W: MsgWrite>(wr: &mut W, val: i8) -> (r: Result<(), ValueWriteError>)
    requires
        -32 <= val < 0,
    ensures
        appended(*old(wr), *final(wr), seq![framed(Marker::FixNeg(val), seq![])]),
        r == parts_outcome(old(wr).room(), seq![framed(Marker::FixNeg(val), seq![])]),
{
    let empty: [u8; 0] = [];
    assert(empty@ =~= Seq::<u8>::empty());
    put_framed(wr, Marker::FixNeg(val), &empty)
}

/// Writes a `u8` in the u8 format, whatever its value.
pub fn write_u8<W: MsgWrite>(wr: &mut W, val: u8) -> (r: Result<(), ValueWriteError>)
    ensures
        appended(*old(wr), *final(wr), seq![framed(Marker::U8, seq![val])]),
        r == parts_outcome(old(wr).room(), seq![framed(Marker::U8, seq![val])]),
{
    let data = [val];
    assert(data@ =~= seq![val]);
    put_framed(wr, Marker::U8, &data)
}

/// Writes a `u16` in the u16 format, whatever its value.
pub fn write_u16<W: MsgWrite>(wr: &mut W, val: u16) -> (r: Result<(), ValueWriteError>)
    ensures
        appended(*old(wr), *final(wr), seq![framed(Marker::U16, be16(val))]),
        r == parts_outcome(old(wr).room(), seq![framed(Marker::U16, be16(val))]),
{
    let data = be16_bytes(val);
    put_framed(wr, Marker::U16, &data)
}

/// Writes a `u32` in the u32 format, whatever its value.
pub fn write_u32<W: MsgWrite>(wr: &mut W, val: u32) -> (r: Result<(), ValueWriteError>)
    ensures
        appended(*old(wr), *final(wr), seq![framed(Marker::U32, be32(val))]),
        r == parts_outcome(old(wr).room(), seq![framed(Marker::U32, be32(val))]),
{
    let data = be32_bytes(val);
    put_framed(wr, Marker::U32, &data)
}

/// Writes a `u64` in the u64 format, whatever its value.
pub fn write_u64<W: MsgWrite>(wr: &mut W, val: u64) -> (r: Result<(), ValueWriteError>)
    ensures
        appended(*old(wr), *final(wr), seq![framed(Marker::U64, be64(val))]),
        r == parts_outcome(old(wr).room(), seq![framed(Marker::U64, be64(val))]),
{
    let data = be64_bytes(val);
    put_framed(wr, Marker::U64, &data)
}

/// Writes an `i8` in the i8 format, whatever its value.
pub fn write_i8<W: MsgWrite>(wr: &mut W, val: i8) -> (r: Result<(), ValueWriteError>)
    ensures
        appended(*old(wr), *final(wr), seq![framed(Marker::I8, seq![val as u8])]),
        r == parts_outcome(old(wr).room(), seq![framed(Marker::I8, seq![val as u8])]),
{
    let data = [val as u8];
    assert(data@ =~= seq![val as u8]);
    put_framed(wr, Marker::I8, &data)
}

/// Writes an `i16` in the i16 format, whatever its value.
pub fn write_i16<W: MsgWrite>(wr: &mut W, val: i16) -> (r: Result<(), ValueWriteError>)
    ensures
        appended(*old(wr), *final(wr), seq![framed(Marker::I16, be16(val as u16))]),
        r == parts_outcome(old(wr).room(), seq![framed(Marker::I16, be16(val as u16))]),
{
    let data = be16_bytes(val as u16);
    put_framed(wr, Marker::I16, &data)
}

/// Writes an `i32` in the i32 format, whatever its value.
pub fn write_i32<W: MsgWrite>(wr: &mut W, val: i32) -> (r: Result<(), ValueWriteError>)
    ensures
        appended(*old(wr), *final(wr), seq![framed(Marker::I32, be32(val as u32))]),
        r == parts_outcome(old(wr).room(), seq![framed(Marker::I32, be32(val as u32))]),
{
    let data = be32_bytes(val as u32);
    put_framed(wr, Marker::I32, &data)
}

/// Writes an `i64` in the i64 format, whatever its value.
pub fn write_i64<W: MsgWrite>(wr: &mut W, val: i64) -> (r: Result<(), ValueWriteError>)
    ensures
        appended(*old(wr), *final(wr), seq![framed(Marker::I64, be64(val as u64))]),
        r == parts_outcome(old(wr).room(), seq![framed(Marker::I64, be64(val as u64))]),
{
    let data = be64_bytes(val as u64);
    put_framed(wr, Marker::I64, &data)
}

/// Writes an unsigned integer in the smallest format that holds it, and
/// returns the marker used.
pub fn write_uint<W: MsgWrite>(wr: &mut W, val: u64) -> (r: Result<Marker, ValueWriteError>)
    ensures
        appended(*old(wr), *final(wr), seq![uint_encoding(val)]),
        reports(r, parts_outcome(old(wr).room(), seq![uint_encoding(val)]), uint_marker(val)),
{
    if val < 128 {
        match write_pfix(wr, val as u8) {
            Ok(()) => Ok(Marker::FixPos(val as u8)),
            Err(e) => Err(e),
        }
    } else if val < 256 {
        match write_u8(wr, val as u8) {
            Ok(()) => Ok(Marker::U8),
            Err(e) => Err(e),
        }
    } else if val < 65536 {
        match write_u16(wr, val as u16) {
            Ok(()) => Ok(Marker::U16),
            Err(e) => Err(e),
        }
    } else if val < 4294967296 {
        match write_u32(wr, val as u32) {
            Ok(()) => Ok(Marker::U32),
            Err(e) => Err(e),
        }
    } else {
        match write_u64(wr, val) {
            Ok(()) => Ok(Marker::U64),
            Err(e) => Err(e),
        }
    }
}

/// Writes a signed integer in the smallest format that holds it, and returns
/// the marker used. Non-negative values are written as unsigned.
pub fn write_sint<W: MsgWrite>(wr: &mut W, val: i64) -> (r: Result<Marker, ValueWriteError>)
    ensures
        appended(*old(wr), *final(wr), seq![sint_encoding(val)]),
        reports(r, parts_outcome(old(wr).room(), seq![sint_encoding(val)]), sint_marker(val)),
{
    if -32 <= val && val < 0 {
        match write_nfix(wr, val as i8) {
            Ok(()) => Ok(Marker::FixNeg(val as i8)),
            Err(e) => Err(e),
        }
    } else if -128 <= val && val < -32 {
        match write_i8(wr, val as i8) {
            Ok(()) => Ok(Marker::I8),
            Err(e) => Err(e),
        }
    } else if -32768 <= val && val < -128 {
        match write_i16(wr, val as i16) {
            Ok(()) => Ok(Marker::I16),
            Err(e) => Err(e),
        }
    } else if -2147483648 <= val && val < -32768 {
        match write_i32(wr, val as i32) {
            Ok(()) => Ok(Marker::I32),
            Err(e) => Err(e),
        }
    } else if val < -2147483648 {
        match write_i64(wr, val) {
            Ok(()) => Ok(Marker::I64),
            Err(e) => Err(e),
        }
    } else {
        write_uint(wr, val as u64)
    }
}

/// Writes a 32-bit float given by its bit pattern.
pub fn write_f32_bits<W: MsgWrite>(wr: &mut W, bits: u32) -> (r: Result<(), ValueWriteError>)
    ensures
        appended(*old(wr), *final(wr), seq![f32_encoding(bits)]),
        r == parts_outcome(old(wr).room(), seq![f32_encoding(bits)]),
{
    let data = be32_bytes(bits);
    put_framed(wr, Marker::F32, &data)
}

/// Writes a 64-bit float given by its bit pattern.
pub fn write_f64_bits<W: MsgWrite>(wr: &mut W, bits: u64) -> (r: Result<(), ValueWriteError>)
    ensures
        appended(*old(wr), *final(wr), seq![f64_encoding(bits)]),
        r == parts_outcome(old(wr).room(), seq![f64_encoding(bits)]),
{
    let data = be64_bytes(bits);
    put_framed(wr, Marker::F64, &data)
}

/// Writes the header of a string of `len` bytes followed by `payload`, as one
/// value, and returns the marker used.
fn put_str<W: MsgWrite>(wr: &mut W, len: u32, payload: &[u8]) -> (r: Result<
    Marker,
    ValueWriteError,
>)
    ensures
        appended(*old(wr), *final(wr), seq![str_len_encoding(len) + payload@]),
        reports(
            r,
            parts_outcome(old(wr).room(), seq![str_len_encoding(len) + payload@]),
            str_len_marker(len),
        ),
{
    let m;
    let res;
    if len < 32 {
        m = Marker::FixStr(len as u8);
        let data: [u8; 0] = [];
        assert(seq![m.byte()] + data@ + payload@ =~= str_len_encoding(len) + payload@);
        res = put(wr, m.to_u8(), &data, payload);
    } else if len < 256 {
        m = Marker::Str8;
        let data = [len as u8];
        assert(seq![m.byte()] + data@ + payload@ =~= str_len_encoding(len) + payload@);
        res = put(wr, m.to_u8(), &data, payload);
    } else if len < 65536 {
        m = Marker::Str16;
        let data = be16_bytes(len as u16);
        assert(seq![m.byte()] + data@ + payload@ =~= str_len_encoding(len) + payload@);
        res = put(wr, m.to_u8(), &data, payload);
    } else {
        m = Marker::Str32;
        let data = be32_bytes(len);
        assert(seq![m.byte()] + data@ + payload@ =~= str_len_encoding(len) + payload@);
        res = put(wr, m.to_u8(), &data, payload);
    }
    match res {
        Ok(()) => Ok(m),
        Err(e) => Err(e),
    }
}

/// Writes the header of a string whose UTF-8 encoding is `len` bytes long,
/// and returns the marker used.
pub fn write_str_len<W: MsgWrite>(wr: &mut W, len: u32) -> (r: Result<Marker, ValueWriteError>)
    ensures
        appended(*old(wr), *final(wr), seq![str_len_encoding(len)]),
        reports(r, parts_outcome(old(wr).room(), seq![str_len_encoding(len)]), str_len_marker(len)),
{
    let empty: [u8; 0] = [];
    assert(str_len_encoding(len) + empty@ =~= str_len_encoding(len));
    put_str(wr, len, &empty)
}

/// Writes a string given by its UTF-8 bytes: the header, whose length is the
/// byte count cut to 32 bits, then the bytes.
pub fn write_str_bytes<W: MsgWrite>(wr: &mut W, bytes: &[u8]) -> (r: Result<(), ValueWriteError>)
    ensures
        appended(*old(wr), *final(wr), seq![str_encoding(bytes@)]),
        r == parts_outcome(old(wr).room(), seq![str_encoding(bytes@)]),
{
    let len = #[verifier::truncate] (bytes.len() as u32);
    assert(len == bytes@.len() as u32);
    let ghost outcome = parts_outcome(wr.room(), seq![str_len_encoding(len) + bytes@]);
    let r0 = put_str(wr, len, bytes);
    proof {
        lemma_unit_ok(outcome);
    }
    match r0 {
        Ok(_) => {
            assert(outcome == Ok::<(), ValueWriteError>(()));
            Ok(())
        },
        Err(e) => {
            assert(outcome == Err::<(), ValueWriteError>(e));
            Err(e)
        },
    }
}

/// Writes a string: the header, whose length is the UTF-8 byte count cut to
/// 32 bits, then the UTF-8 bytes.
pub fn write_str<W: MsgWrite>(wr: &mut W, data: &str) -> (r: Result<(), ValueWriteError>)
    ensures
        appended(*old(wr), *final(wr), seq![str_encoding(encode_utf8(data@))]),
        r == parts_outcome(old(wr).room(), seq![str_encoding(encode_utf8(data@))]),
{
    write_str_bytes(wr, data.as_bytes())
}

/// Writes the header of a binary blob of `len` bytes followed by `payload`,
/// as one value, and returns the marker used.
fn put_bin<W: MsgWrite>(wr: &mut W, len: u32, payload: &[u8]) -> (r: Result<
    Marker,
    ValueWriteError,
>)
    ensures
        appended(*old(wr), *final(wr), seq![bin_len_encoding(len) + payload@]),
        reports(
            r,
            parts_outcome(old(wr).room(), seq![bin_len_encoding(len) + payload@]),
            bin_len_marker(len),
        ),
{
    let m;
    let res;
    if len < 256 {
        m = Marker::Bin8;
        let data = [len as u8];
        assert(seq![m.byte()] + data@ + payload@ =~= bin_len_encoding(len) + payload@);
        res = put(wr, m.to_u8(), &data, payload);
    } else if len < 65536 {
        m = Marker::Bin16;
        let data = be16_bytes(len as u16);
        assert(seq![m.byte()] + data@ + payload@ =~= bin_len_encoding(len) + payload@);
        res = put(wr, m.to_u8(), &data, payload);
    } else {
        m = Marker::Bin32;
        let data = be32_bytes(len);
        assert(seq![m.byte()] + data@ + payload@ =~= bin_len_encoding(len) + payload@);
        res = put(wr, m.to_u8(), &data, payload);
    }
    match res {
        Ok(()) => Ok(m),
        Err(e) => Err(e),
    }
}

/// Writes the header of a binary blob of `len` bytes, and returns the marker
/// used.
pub fn write_bin_len<W: MsgWrite>(wr: &mut W, len: u32) -> (r: Result<Marker, ValueWriteError>)
    ensures
        appended(*old(wr), *final(wr), seq![bin_len_encoding(len)]),
        reports(r, parts_outcome(old(wr).room(), seq![bin_len_encoding(len)]), bin_len_marker(len)),
{
    let empty: [u8; 0] = [];
    assert(bin_len_encoding(len) + empty@ =~= bin_len_encoding(len));
    put_bin(wr, len, &empty)
}

/// Writes a binary blob: the header, whose length is the byte count cut to 32
/// bits, then the bytes.
pub fn write_bin<W: MsgWrite>(wr: &mut W, data: &[u8]) -> (r: Result<(), ValueWriteError>)
    ensures
        appended(*old(wr), *final(wr), seq![bin_encoding(data@)]),
        r == parts_outcome(old(wr).room(), seq![bin_encoding(data@)]),
{
    let len = #[verifier::truncate] (data.len() as u32);
    assert(len == data@.len() as u32);
    let ghost outcome = parts_outcome(wr.room(), seq![bin_len_encoding(len) + data@]);
    let r0 = put_bin(wr, len, data);
    proof {
        lemma_unit_ok(outcome);
    }
    match r0 {
        Ok(_) => {
            assert(outcome == Ok::<(), ValueWriteError>(()));
            Ok(())
        },
        Err(e) => {
            assert(outcome == Err::<(), ValueWriteError>(e));
            Err(e)
        },
    }
}

/// Writes the header of an array of `len` elements, and returns the marker
/// used.
pub fn write_array_len<W: MsgWrite>(wr: &mut W, len: u32) -> (r: Result<Marker, ValueWriteError>)
    ensures
        appended(*old(wr), *final(wr), seq![array_len_encoding(len)]),
        reports(
            r,
            parts_outcome(old(wr).room(), seq![array_len_encoding(len)]),
            array_len_marker(len),
        ),
{
    let m;
    let res;
    if len < 16 {
        m = Marker::FixArray(len as u8);
        let data: [u8; 0] = [];
        assert(data@ =~= Seq::<u8>::empty());
        res = put_framed(wr, m, &data);
    } else if len < 65536 {
        m = Marker::Array16;
        let data = be16_bytes(len as u16);
        res = put_framed(wr, m, &data);
    } else {
        m = Marker::Array32;
        let data = be32_bytes(len);
        res = put_framed(wr, m, &data);
    }
    match res {
        Ok(()) => Ok(m),
        Err(e) => Err(e),
    }
}

/// Writes the header of a map of `len` entries, and returns the marker used.
pub fn write_map_len<W: MsgWrite>(wr: &mut W, len: u32) -> (r: Result<Marker, ValueWriteError>)
    ensures
        appended(*old(wr), *final(wr), seq![map_len_encoding(len)]),
        reports(r, parts_outcome(old(wr).room(), seq![map_len_encoding(len)]), map_len_marker(len)),
{
    let m;
    let res;
    if len < 16 {
        m = Marker::FixMap(len as u8);
        let data: [u8; 0] = [];
        assert(data@ =~= Seq::<u8>::empty());
        res = put_framed(wr, m, &data);
    } else if len < 65536 {
        m = Marker::Map16;
        let data = be16_bytes(len as u16);
        res = put_framed(wr, m, &data);
    } else {
        m = Marker::Map32;
        let data = be32_bytes(len);
        res = put_framed(wr, m, &data);
    }
    match res {
        Ok(()) => Ok(m),
        Err(e) => Err(e),
    }
}

} // verus!
