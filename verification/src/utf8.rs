//! The UTF-8 encoding of a single character.
use vstd::prelude::*;
use vstd::utf8::{
    encode_utf8, last_continuation_byte, leading_byte_width_1, leading_byte_width_2,
    leading_byte_width_3, leading_byte_width_4, second_last_continuation_byte,
    third_last_continuation_byte,
};

verus! {

/// The UTF-8 bytes of `c`, one to four of them.
pub fn char_utf8(c: char) -> (r: Vec<u8>)
    ensures
        r@ == encode_utf8(seq![c]),
        1 <= r@.len() <= 4,
{
    proof {
        reveal_with_fuel(encode_utf8, 2);
        assert(seq![c].drop_first() =~= Seq::<char>::empty());
        vstd::utf8::char_is_scalar(c);
    }
    let v = c as u32;
    let r: Vec<u8> = if v <= 0x7f {
        vec![(v & 0x7f) as u8]
    } else if v <= 0x7ff {
        vec![0xC0u8 | ((v >> 6u32) & 0x1F) as u8, 0x80u8 | (v & 0x3F) as u8]
    } else if v <= 0xffff {
        vec![
            0xE0u8 | ((v >> 12u32) & 0x0F) as u8,
            0x80u8 | ((v >> 6u32) & 0x3F) as u8,
            0x80u8 | (v & 0x3F) as u8,
        ]
    } else {
        vec![
            0xF0u8 | ((v >> 18u32) & 0x7) as u8,
            0x80u8 | ((v >> 12u32) & 0x3F) as u8,
            0x80u8 | ((v >> 6u32) & 0x3F) as u8,
            0x80u8 | (v & 0x3F) as u8,
        ]
    };
    proof {
        let s = seq![c][0] as u32;
        assert(s == v);
        if v <= 0x7f {
            assert(r@ =~= seq![leading_byte_width_1(v)]);
        } else if v <= 0x7ff {
            assert(r@ =~= seq![leading_byte_width_2(v), last_continuation_byte(v)]);
        } else if v <= 0xffff {
            assert(r@ =~= seq![
                leading_byte_width_3(v),
                second_last_continuation_byte(v),
                last_continuation_byte(v),
            ]);
        } else {
            assert(r@ =~= seq![
                leading_byte_width_4(v),
                third_last_continuation_byte(v),
                second_last_continuation_byte(v),
                last_continuation_byte(v),
            ]);
        }
    }
    r
}

} // verus!
