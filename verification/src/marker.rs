//! The MessagePack format markers: the first byte of every encoded value.
use vstd::prelude::*;

verus! {

/// A MessagePack format marker.
#[derive(Debug, Clone, Copy, PartialEq, Eq)]
pub enum Marker {
    /// Positive fixint, the value itself (0 ..= 127).
    FixPos(u8),
    /// Negative fixint, the value itself (-32 ..= -1).
    FixNeg(i8),
    Null,
    True,
    False,
    U8,
    U16,
    U32,
    U64,
    I8,
    I16,
    I32,
    I64,
    F32,
    F64,
    /// Fixstr, holding the length (0 ..= 31).
    FixStr(u8),
    Str8,
    Str16,
    Str32,
    Bin8,
    Bin16,
    Bin32,
    /// Fixarray, holding the length (0 ..= 15).
    FixArray(u8),
    Array16,
    Array32,
    /// Fixmap, holding the length (0 ..= 15).
    FixMap(u8),
    Map16,
    Map32,
}

impl Marker {
    /// The byte that stands for this marker on the wire.
    pub open spec fn byte(self) -> u8 {
        match self {
            Marker::FixPos(v) => v,
            Marker::FixNeg(v) => v as u8,
            Marker::Null => 0xc0,
            Marker::False => 0xc2,
            Marker::True => 0xc3,
            Marker::Bin8 => 0xc4,
            Marker::Bin16 => 0xc5,
            Marker::Bin32 => 0xc6,
            Marker::F32 => 0xca,
            Marker::F64 => 0xcb,
            Marker::U8 => 0xcc,
            Marker::U16 => 0xcd,
            Marker::U32 => 0xce,
            Marker::U64 => 0xcf,
            Marker::I8 => 0xd0,
            Marker::I16 => 0xd1,
            Marker::I32 => 0xd2,
            Marker::I64 => 0xd3,
            Marker::Str8 => 0xd9,
            Marker::Str16 => 0xda,
            Marker::Str32 => 0xdb,
            Marker::Array16 => 0xdc,
            Marker::Array32 => 0xdd,
            Marker::Map16 => 0xde,
            Marker::Map32 => 0xdf,
            Marker::FixStr(n) => 0xa0u8 | n,
            Marker::FixArray(n) => 0x90u8 | n,
            Marker::FixMap(n) => 0x80u8 | n,
        }
    }

    /// Converts this marker into its single-byte representation.
    pub fn to_u8(&self) -> (r: u8)
        ensures
            r == self.byte(),
    {
        match *self {
            Marker::FixPos(v) => v,
            Marker::FixNeg(v) => v as u8,
            Marker::Null => 0xc0,
            Marker::False => 0xc2,
            Marker::True => 0xc3,
            Marker::Bin8 => 0xc4,
            Marker::Bin16 => 0xc5,
            Marker::Bin32 => 0xc6,
            Marker::F32 => 0xca,
            Marker::F64 => 0xcb,
            Marker::U8 => 0xcc,
            Marker::U16 => 0xcd,
            Marker::U32 => 0xce,
            Marker::U64 => 0xcf,
            Marker::I8 => 0xd0,
            Marker::I16 => 0xd1,
            Marker::I32 => 0xd2,
            Marker::I64 => 0xd3,
            Marker::Str8 => 0xd9,
            Marker::Str16 => 0xda,
            Marker::Str32 => 0xdb,
            Marker::Array16 => 0xdc,
            Marker::Array32 => 0xdd,
            Marker::Map16 => 0xde,
            Marker::Map32 => 0xdf,
            Marker::FixStr(n) => 0xa0u8 | n,
            Marker::FixArray(n) => 0x90u8 | n,
            Marker::FixMap(n) => 0x80u8 | n,
        }
    }
}

} // verus!
