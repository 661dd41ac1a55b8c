use rmp_serde::config::{DefaultConfig, SerializerConfig};
use rmp_serde::encode::{Error, Serializer, UnderlyingWrite, DEFAULT_MAX_DEPTH};
use rmp_serde::write::{FixedBuf, ValueWriteError};

fn out<C>(s: Serializer<Vec<u8>, C>) -> Vec<u8> {
    s.into_inner()
}

#[test]
fn bool_is_its_marker() {
    let mut s = Serializer::new(Vec::new());
    s.serialize_bool(true).unwrap();
    s.serialize_bool(false).unwrap();
    assert_eq!(vec![0xc3, 0xc2], out(s));
}

#[test]
fn small_signed_widths_write_as_i64() {
    let mut a = Serializer::new(Vec::new());
    a.serialize_i8(-1).unwrap();
    a.serialize_i16(-200).unwrap();
    a.serialize_i32(-40000).unwrap();
    let mut b = Serializer::new(Vec::new());
    b.serialize_i64(-1).unwrap();
    b.serialize_i64(-200).unwrap();
    b.serialize_i64(-40000).unwrap();
    let bytes = out(a);
    assert_eq!(bytes, out(b));
    assert_eq!(vec![0xff, 0xd1, 0xff, 0x38, 0xd2, 0xff, 0xff, 0x63, 0xc0], bytes);
}

#[test]
fn small_unsigned_widths_write_as_u64() {
    let mut a = Serializer::new(Vec::new());
    a.serialize_u8(200).unwrap();
    a.serialize_u16(300).unwrap();
    a.serialize_u32(70000).unwrap();
    assert_eq!(
        vec![0xcc, 0xc8, 0xcd, 0x01, 0x2c, 0xce, 0x00, 0x01, 0x11, 0x70],
        out(a)
    );
}

#[test]
fn nonnegative_signed_is_unsigned() {
    for v in [0i64, 1, 127, 128, 255, 256, 65535, 65536, 4294967295, 4294967296, i64::MAX] {
        let mut a = Serializer::new(Vec::new());
        a.serialize_i64(v).unwrap();
        let mut b = Serializer::new(Vec::new());
        b.serialize_u64(v as u64).unwrap();
        assert_eq!(out(a), out(b));
    }
}

#[test]
fn floats_by_bit_pattern() {
    let mut s = Serializer::new(Vec::new());
    s.serialize_f32_bits(1.5f32.to_bits()).unwrap();
    s.serialize_f64_bits(1.5f64.to_bits()).unwrap();
    assert_eq!(
        vec![0xca, 0x3f, 0xc0, 0x00, 0x00, 0xcb, 0x3f, 0xf8, 0, 0, 0, 0, 0, 0],
        out(s)
    );
}

#[test]
fn strings_and_chars() {
    let mut s = Serializer::new(Vec::new());
    s.serialize_str("hi").unwrap();
    s.serialize_char('é').unwrap();
    s.serialize_char('€').unwrap();
    assert_eq!(
        vec![0xa2, b'h', b'i', 0xa2, 0xc3, 0xa9, 0xa3, 0xe2, 0x82, 0xac],
        out(s)
    );
}

#[test]
fn char_is_the_string_of_it() {
    for c in ['a', 'é', '€', '𝄞'] {
        let mut a = Serializer::new(Vec::new());
        a.serialize_char(c).unwrap();
        let mut b = Serializer::new(Vec::new());
        b.serialize_str(&c.to_string()).unwrap();
        assert_eq!(out(a), out(b));
    }
}

#[test]
fn longer_strings_take_longer_headers() {
    let s32 = "x".repeat(32);
    let mut s = Serializer::new(Vec::new());
    s.serialize_str(&s32).unwrap();
    let bytes = out(s);
    assert_eq!(&[0xd9, 32], &bytes[..2]);
    assert_eq!(34, bytes.len());

    let s300 = "y".repeat(300);
    let mut s = Serializer::new(Vec::new());
    s.serialize_str(&s300).unwrap();
    let bytes = out(s);
    assert_eq!(&[0xda, 0x01, 0x2c], &bytes[..3]);

    let s70000 = "z".repeat(70000);
    let mut s = Serializer::new(Vec::new());
    s.serialize_str(&s70000).unwrap();
    let bytes = out(s);
    assert_eq!(&[0xdb, 0x00, 0x01, 0x11, 0x70], &bytes[..5]);
    assert_eq!(70005, bytes.len());
}

#[test]
fn bytes_as_binary() {
    let mut s = Serializer::new(Vec::new());
    s.serialize_bytes(&[1, 2, 3]).unwrap();
    s.serialize_bytes(&[]).unwrap();
    assert_eq!(vec![0xc4, 3, 1, 2, 3, 0xc4, 0], out(s));

    let big = vec![7u8; 300];
    let mut s = Serializer::new(Vec::new());
    s.serialize_bytes(&big).unwrap();
    let bytes = out(s);
    assert_eq!(&[0xc5, 0x01, 0x2c], &bytes[..3]);
    assert_eq!(303, bytes.len());
}

#[test]
fn none_and_unit_are_nil() {
    let mut s = Serializer::new(Vec::new());
    s.serialize_none().unwrap();
    s.serialize_unit().unwrap();
    s.serialize_unit_struct("U").unwrap();
    assert_eq!(vec![0xc0, 0xc0, 0x90], out(s));
}

#[test]
fn unit_variant_by_index_and_by_name() {
    let mut s = Serializer::new(Vec::new());
    s.serialize_unit_variant("E", 3, "B").unwrap();
    assert_eq!(vec![0x81, 0x03, 0x90], out(s));

    let mut s = Serializer::new(Vec::new()).with_string_variants();
    s.serialize_unit_variant("E", 3, "B").unwrap();
    assert_eq!(vec![0x81, 0xa1, b'B', 0x90], out(s));

    let mut s = Serializer::new(Vec::new())
        .with_string_variants()
        .with_integer_variants();
    s.serialize_unit_variant("E", 300, "B").unwrap();
    assert_eq!(vec![0x81, 0xcd, 0x01, 0x2c, 0x90], out(s));
}

#[test]
fn newtype_variant_header() {
    let mut s = Serializer::new(Vec::new());
    s.serialize_newtype_variant("E", 1, "A").unwrap();
    s.serialize_u64(42).unwrap();
    assert_eq!(vec![0x81, 0x01, 0x91, 0x2a], out(s));

    let mut s = Serializer::new(Vec::new());
    s.serialize_newtype_variant("E", 0, "A").unwrap();
    s.serialize_u8(5).unwrap();
    assert_eq!(vec![0x81, 0x00, 0x91, 0x05], out(s));
}

#[test]
fn sequences_need_a_length() {
    let mut s = Serializer::new(Vec::new());
    assert!(matches!(s.serialize_seq(None), Err(Error::UnknownLength)));
    assert!(matches!(s.serialize_map(None), Err(Error::UnknownLength)));
    assert_eq!(Vec::<u8>::new(), out(s));
}

#[test]
fn sequence_and_map_headers() {
    let mut s = Serializer::new(Vec::new());
    s.serialize_seq(Some(3)).unwrap().end().unwrap();
    s.serialize_seq(Some(20)).unwrap().end().unwrap();
    s.serialize_tuple(2).unwrap().end().unwrap();
    s.serialize_tuple_struct("T", 70000).unwrap().end().unwrap();
    s.serialize_map(Some(1)).unwrap().end().unwrap();
    s.serialize_map(Some(16)).unwrap().end().unwrap();
    assert_eq!(
        vec![
            0x93, 0xdc, 0x00, 0x14, 0x92, 0xdd, 0x00, 0x01, 0x11, 0x70, 0x81, 0xde, 0x00, 0x10
        ],
        out(s)
    );
}

#[test]
fn compound_writes_elements_with_the_serializer() {
    let mut s = Serializer::new(Vec::new());
    {
        let mut c = s.serialize_seq(Some(2)).unwrap();
        c.get_mut().serialize_u64(1).unwrap();
        c.get_mut().serialize_bool(true).unwrap();
        c.end().unwrap();
    }
    assert_eq!(vec![0x92, 0x01, 0xc3], out(s));
}

#[test]
fn structs_as_arrays_or_maps() {
    let mut s = Serializer::new(Vec::new());
    {
        let mut c = s.serialize_struct("S", 2).unwrap();
        c.get_mut().serialize_field_key("a").unwrap();
        c.get_mut().serialize_u64(1).unwrap();
        c.get_mut().serialize_field_key("b").unwrap();
        c.get_mut().serialize_u64(2).unwrap();
        c.end().unwrap();
    }
    assert_eq!(vec![0x92, 0x01, 0x02], out(s));

    let mut s = Serializer::new_named(Vec::new());
    {
        let mut c = s.serialize_struct("S", 2).unwrap();
        c.get_mut().serialize_field_key("a").unwrap();
        c.get_mut().serialize_u64(1).unwrap();
        c.get_mut().serialize_field_key("b").unwrap();
        c.get_mut().serialize_u64(2).unwrap();
        c.end().unwrap();
    }
    assert_eq!(vec![0x82, 0xa1, b'a', 0x01, 0xa1, b'b', 0x02], out(s));

    let mut s = Serializer::compact(Vec::new());
    s.serialize_struct("S", 1).unwrap().end().unwrap();
    assert_eq!(vec![0x91], out(s));

    let mut s = Serializer::new(Vec::new()).with_struct_map().with_struct_tuple();
    s.serialize_struct("S", 1).unwrap().end().unwrap();
    assert_eq!(vec![0x91], out(s));
}

#[test]
fn tuple_and_struct_variants() {
    let mut s = Serializer::new(Vec::new());
    s.serialize_tuple_variant("E", 2, "T", 2).unwrap().end().unwrap();
    s.serialize_struct_variant("E", 4, "S", 1).unwrap().end().unwrap();
    assert_eq!(vec![0x81, 0x02, 0x92, 0x81, 0x04, 0x91], out(s));

    let mut s = Serializer::new(Vec::new()).with_struct_map().with_string_variants();
    s.serialize_struct_variant("E", 4, "S", 1).unwrap().end().unwrap();
    assert_eq!(vec![0x81, 0xa1, b'S', 0x81], out(s));
}

#[test]
fn marker_failure_on_a_full_buffer() {
    let mut s = Serializer::new(FixedBuf::new(vec![]));
    assert!(matches!(
        s.serialize_u64(300),
        Err(Error::InvalidValueWrite(ValueWriteError::InvalidMarkerWrite))
    ));
    assert!(matches!(
        s.serialize_unit(),
        Err(Error::InvalidValueWrite(ValueWriteError::InvalidMarkerWrite))
    ));
}

#[test]
fn data_failure_leaves_a_prefix() {
    let mut s = Serializer::new(FixedBuf::new(vec![0, 0]));
    assert!(matches!(
        s.serialize_u64(300),
        Err(Error::InvalidValueWrite(ValueWriteError::InvalidDataWrite))
    ));
    assert_eq!(vec![0xcd, 0x01], s.into_inner().into_inner());

    let mut s = Serializer::new(FixedBuf::new(vec![0, 0]));
    assert!(matches!(
        s.serialize_str("abc"),
        Err(Error::InvalidValueWrite(ValueWriteError::InvalidDataWrite))
    ));
    assert_eq!(vec![0xa3, b'a'], s.into_inner().into_inner());
}

#[test]
fn later_value_failure_is_reported_by_its_own_marker() {
    let mut s = Serializer::new(FixedBuf::new(vec![0]));
    assert!(matches!(
        s.serialize_unit_variant("E", 3, "B"),
        Err(Error::InvalidValueWrite(ValueWriteError::InvalidMarkerWrite))
    ));
    assert_eq!(vec![0x81], s.into_inner().into_inner());

    let mut s = Serializer::new(FixedBuf::new(vec![0, 0]));
    assert!(matches!(
        s.serialize_tuple_variant("E", 300, "T", 0),
        Err(Error::InvalidValueWrite(ValueWriteError::InvalidDataWrite))
    ));
}

#[test]
fn exact_fit_succeeds() {
    let mut s = Serializer::new(FixedBuf::new(vec![0, 0, 0]));
    s.serialize_u64(300).unwrap();
    assert_eq!(vec![0xcd, 0x01, 0x2c], s.into_inner().into_inner());
}

#[test]
fn writer_access_and_depth() {
    let mut s = Serializer::new(vec![9u8]);
    assert_eq!(DEFAULT_MAX_DEPTH, 1024);
    assert_eq!(&vec![9u8], s.get_ref());
    s.get_mut().push(8);
    s.set_max_depth(3);
    s.serialize_unit().unwrap();
    assert_eq!(&vec![9u8, 8, 0xc0], UnderlyingWrite::get_ref(&s));
    UnderlyingWrite::get_mut(&mut s).push(1);
    assert_eq!(vec![9u8, 8, 0xc0, 1], UnderlyingWrite::into_inner(s));
    let s = Serializer::new(Vec::<u8>::new());
    assert!(!s.is_human_readable());
}

#[test]
fn compound_of_a_serializer() {
    let mut s = Serializer::new(Vec::new());
    {
        let mut c = s.compound().unwrap();
        c.get_mut().serialize_bool(true).unwrap();
        c.end().unwrap();
    }
    assert_eq!(vec![0xc3], out(s));
}

#[test]
fn config_flags() {
    assert!(!DefaultConfig::is_struct_map());
    assert!(!DefaultConfig::is_string_variants());
}

#[test]
fn error_texts() {
    let e = Error::InvalidValueWrite(ValueWriteError::InvalidMarkerWrite);
    assert_eq!("invalid value write", e.description());
    assert_eq!(
        "invalid value write: failed to write MessagePack marker",
        e.to_string()
    );
    assert!(matches!(e.cause(), Some(ValueWriteError::InvalidMarkerWrite)));
    let e = Error::from(ValueWriteError::InvalidDataWrite);
    assert_eq!(
        "invalid value write: failed to write MessagePack data",
        e.to_string()
    );
    let e = Error::UnknownLength;
    assert_eq!(
        "attempt to serialize struct, sequence or map with unknown length",
        e.to_string()
    );
    assert!(e.cause().is_none());
    assert_eq!("depth limit exceeded", Error::DepthLimitExceeded.to_string());
    let e = Error::custom("boom".to_string());
    assert_eq!("syntax error", e.description());
    assert_eq!("boom", e.to_string());
}

#[test]
fn compact_writes_like_new() {
    let mut a = Serializer::compact(Vec::new());
    let mut b = Serializer::new(Vec::new());
    a.serialize_struct("S", 2).unwrap().end().unwrap();
    a.serialize_field_key("k").unwrap();
    a.serialize_unit_variant("E", 1, "B").unwrap();
    b.serialize_struct("S", 2).unwrap().end().unwrap();
    b.serialize_field_key("k").unwrap();
    b.serialize_unit_variant("E", 1, "B").unwrap();
    assert_eq!(out(a), out(b));
}

#[test]
fn handles_leave_their_bytes_in_the_serializer() {
    let mut s = Serializer::new(Vec::new()).with_struct_map();
    {
        let mut c = s.serialize_struct_variant("E", 1, "B", 1).unwrap();
        c.get_mut().serialize_field_key("a").unwrap();
        c.get_mut().serialize_u8(1).unwrap();
        c.end().unwrap();
    }
    assert_eq!(vec![0x81, 0x01, 0x81, 0xa1, b'a', 0x01], out(s));

    let mut s = Serializer::new(Vec::new()).with_string_variants();
    s.serialize_tuple_variant("E", 0, "A", 0).unwrap().end().unwrap();
    assert_eq!(vec![0x81, 0xa1, 0x41, 0x90], out(s));
}
