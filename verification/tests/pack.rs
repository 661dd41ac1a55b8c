use rmp_serde::marker::Marker;
use rmp_serde::pack::{
    write_array_len, write_bin, write_bin_len, write_bool, write_f32_bits, write_f64_bits,
    write_map_len, write_nil, write_sint, write_str, write_str_bytes, write_str_len, write_uint,
};
use rmp_serde::utf8::char_utf8;
use rmp_serde::write::{FixedBuf, MsgWrite, ValueWriteError};

fn read_int(b: &[u8]) -> Option<(i128, usize)> {
    let be = |d: &[u8]| d.iter().fold(0i128, |acc, x| acc * 256 + *x as i128);
    let m = *b.first()?;
    let fixed = |n: usize| -> Option<i128> {
        if b.len() >= 1 + n {
            Some(be(&b[1..1 + n]))
        } else {
            None
        }
    };
    let signed = |u: i128, half: i128| if u >= half { u - 2 * half } else { u };
    match m {
        0x00..=0x7f => Some((m as i128, 1)),
        0xe0..=0xff => Some((m as i128 - 256, 1)),
        0xcc => fixed(1).map(|u| (u, 2)),
        0xcd => fixed(2).map(|u| (u, 3)),
        0xce => fixed(4).map(|u| (u, 5)),
        0xcf => fixed(8).map(|u| (u, 9)),
        0xd0 => fixed(1).map(|u| (signed(u, 0x80), 2)),
        0xd1 => fixed(2).map(|u| (signed(u, 0x8000), 3)),
        0xd2 => fixed(4).map(|u| (signed(u, 0x8000_0000), 5)),
        0xd3 => fixed(8).map(|u| (signed(u, 0x8000_0000_0000_0000), 9)),
        _ => None,
    }
}

#[test]
fn unsigned_integers_read_back() {
    for v in [0u64, 1, 127, 128, 255, 256, 65535, 65536, 4294967295, 4294967296, u64::MAX] {
        let mut buf = Vec::new();
        write_uint(&mut buf, v).unwrap();
        buf.push(0xaa);
        assert_eq!(Some((v as i128, buf.len() - 1)), read_int(&buf));
    }
}

#[test]
fn signed_integers_read_back() {
    for v in [
        i64::MIN,
        -2147483649,
        -2147483648,
        -32769,
        -32768,
        -129,
        -128,
        -33,
        -32,
        -1,
        0,
        1,
        127,
        128,
        32767,
        i64::MAX,
    ] {
        let mut buf = Vec::new();
        write_sint(&mut buf, v).unwrap();
        buf.push(0xaa);
        assert_eq!(Some((v as i128, buf.len() - 1)), read_int(&buf));
    }
}

#[test]
fn reported_marker_is_the_first_byte() {
    for v in [5u64, 200, 1000, 100000, 1 << 40] {
        let mut buf = Vec::new();
        let m = write_uint(&mut buf, v).unwrap();
        assert_eq!(m.to_u8(), buf[0]);
    }
    for v in [-5i64, -100, -1000, -100000, -(1 << 40), 7] {
        let mut buf = Vec::new();
        let m = write_sint(&mut buf, v).unwrap();
        assert_eq!(m.to_u8(), buf[0]);
    }
}

#[test]
fn marker_bytes() {
    assert_eq!(0xc0, Marker::Null.to_u8());
    assert_eq!(0xc3, Marker::True.to_u8());
    assert_eq!(0xc2, Marker::False.to_u8());
    assert_eq!(0x05, Marker::FixPos(5).to_u8());
    assert_eq!(0xff, Marker::FixNeg(-1).to_u8());
    assert_eq!(0xa3, Marker::FixStr(3).to_u8());
    assert_eq!(0x93, Marker::FixArray(3).to_u8());
    assert_eq!(0x83, Marker::FixMap(3).to_u8());
    assert_eq!(0xdb, Marker::Str32.to_u8());
    assert_eq!(0xc6, Marker::Bin32.to_u8());
    assert_eq!(0xdd, Marker::Array32.to_u8());
    assert_eq!(0xdf, Marker::Map32.to_u8());
}

#[test]
fn nil_bool_and_floats() {
    let mut buf = Vec::new();
    write_nil(&mut buf).unwrap();
    write_bool(&mut buf, true).unwrap();
    write_bool(&mut buf, false).unwrap();
    write_f32_bits(&mut buf, 0x3f80_0000).unwrap();
    write_f64_bits(&mut buf, 0x3ff0_0000_0000_0000).unwrap();
    assert_eq!(
        vec![
            0xc0, 0xc3, 0xc2, 0xca, 0x3f, 0x80, 0, 0, 0xcb, 0x3f, 0xf0, 0, 0, 0, 0, 0, 0
        ],
        buf
    );
}

#[test]
fn header_formats_by_length() {
    let mut buf = Vec::new();
    assert_eq!(Marker::FixStr(31), write_str_len(&mut buf, 31).unwrap());
    assert_eq!(Marker::Str8, write_str_len(&mut buf, 32).unwrap());
    assert_eq!(Marker::Str16, write_str_len(&mut buf, 256).unwrap());
    assert_eq!(Marker::Str32, write_str_len(&mut buf, 65536).unwrap());
    assert_eq!(
        vec![0xbf, 0xd9, 32, 0xda, 0x01, 0x00, 0xdb, 0x00, 0x01, 0x00, 0x00],
        buf
    );
    let mut buf = Vec::new();
    assert_eq!(Marker::Bin8, write_bin_len(&mut buf, 0).unwrap());
    assert_eq!(Marker::Bin16, write_bin_len(&mut buf, 256).unwrap());
    assert_eq!(Marker::Bin32, write_bin_len(&mut buf, 65536).unwrap());
    assert_eq!(vec![0xc4, 0, 0xc5, 1, 0, 0xc6, 0, 1, 0, 0], buf);
    let mut buf = Vec::new();
    assert_eq!(Marker::FixArray(15), write_array_len(&mut buf, 15).unwrap());
    assert_eq!(Marker::Array16, write_array_len(&mut buf, 16).unwrap());
    assert_eq!(Marker::Array32, write_array_len(&mut buf, 65536).unwrap());
    assert_eq!(Marker::FixMap(0), write_map_len(&mut buf, 0).unwrap());
    assert_eq!(Marker::Map16, write_map_len(&mut buf, 65535).unwrap());
    assert_eq!(Marker::Map32, write_map_len(&mut buf, 65536).unwrap());
    assert_eq!(
        vec![
            0x9f, 0xdc, 0, 16, 0xdd, 0, 1, 0, 0, 0x80, 0xde, 0xff, 0xff, 0xdf, 0, 1, 0, 0
        ],
        buf
    );
}

#[test]
fn strings_and_binaries_with_payload() {
    let mut buf = Vec::new();
    write_str(&mut buf, "añ").unwrap();
    write_str_bytes(&mut buf, b"ok").unwrap();
    write_bin(&mut buf, &[9, 8]).unwrap();
    assert_eq!(
        vec![0xa3, b'a', 0xc3, 0xb1, 0xa2, b'o', b'k', 0xc4, 2, 9, 8],
        buf
    );
}

#[test]
fn char_utf8_matches_std() {
    for c in ['\0', 'a', '\u{7f}', '\u{80}', 'é', '\u{7ff}', '\u{800}', '€', '\u{ffff}', '\u{10000}', '𝄞', '\u{10ffff}'] {
        let mut b = [0u8; 4];
        assert_eq!(c.encode_utf8(&mut b).as_bytes(), &char_utf8(c)[..]);
    }
}

#[test]
fn writes_only_append() {
    let mut buf = vec![1u8, 2];
    write_uint(&mut buf, 1000).unwrap();
    assert_eq!(&[1, 2], &buf[..2]);
    write_str(&mut buf, "x").unwrap();
    assert_eq!(vec![1, 2, 0xcd, 0x03, 0xe8, 0xa1, b'x'], buf);
}

#[test]
fn fixed_buffer_room() {
    let mut wr = FixedBuf::new(vec![0; 4]);
    assert!(wr.write_all(&[1, 2, 3]));
    assert_eq!(3, wr.position());
    assert!(!wr.write_all(&[4, 5]));
    assert_eq!(4, wr.position());
    assert!(wr.write_all(&[]));
    assert!(!wr.write_all(&[6]));
    assert_eq!(vec![1, 2, 3, 4], wr.into_inner());
}

#[test]
fn fixed_buffer_errors_by_position() {
    let mut wr = FixedBuf::new(vec![]);
    assert_eq!(Err(ValueWriteError::InvalidMarkerWrite), write_nil(&mut wr));
    let mut wr = FixedBuf::new(vec![0, 0, 0, 0]);
    assert_eq!(Err(ValueWriteError::InvalidDataWrite), write_uint(&mut wr, 1 << 20));
    assert_eq!(vec![0xce, 0x00, 0x10, 0x00], wr.into_inner());
    let mut wr = FixedBuf::new(vec![0, 0, 0, 0, 0]);
    assert_eq!(Ok(Marker::U32), write_uint(&mut wr, 1 << 20));
    assert_eq!(vec![0xce, 0x00, 0x10, 0x00, 0x00], wr.into_inner());
}

#[test]
fn descriptions_of_write_failures() {
    assert_eq!(
        "failed to write MessagePack marker",
        ValueWriteError::InvalidMarkerWrite.description()
    );
    assert_eq!(
        "failed to write MessagePack data",
        ValueWriteError::InvalidDataWrite.description()
    );
}

#[test]
fn bytes_past_a_write_stay_as_they_were() {
    let mut wr = FixedBuf::new(vec![9, 9, 9]);
    write_uint(&mut wr, 127).unwrap();
    assert_eq!(vec![0x7f, 9, 9], wr.into_inner());
    let mut wr = FixedBuf::new(vec![9, 9, 9, 9]);
    assert_eq!(Err(ValueWriteError::InvalidDataWrite), write_str(&mut wr, "abcd"));
    assert_eq!(vec![0xa4, b'a', b'b', b'c'], wr.into_inner());
}
