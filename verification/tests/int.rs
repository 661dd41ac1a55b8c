use rmp_serde::marker::Marker;
use rmp_serde::pack::{
    write_i16, write_i32, write_i64, write_i8, write_nfix, write_pfix, write_sint, write_u16, write_u32,
    write_u64, write_u8, write_uint,
};
use rmp_serde::write::FixedBuf;

#[test]
fn pass_pack_pfix() {
    let mut wr = FixedBuf::new(vec![0x00]);

    write_pfix(&mut wr, 127).ok().unwrap();

    assert_eq!(vec![0x7f], wr.into_inner());
}

#[test]
fn fail_pack_pfix_too_small_buffer() {
    let mut wr = FixedBuf::new(vec![]);

    write_pfix(&mut wr, 127).err().unwrap();
}

#[test]
fn pass_pack_u8() {
    let mut wr = FixedBuf::new(vec![0x00, 0x00]);

    write_u8(&mut wr, 255).ok().unwrap();

    assert_eq!(vec![0xcc, 0xff], wr.into_inner());
}

#[test]
fn pass_pack_u16() {
    let mut wr = FixedBuf::new(vec![0x00, 0x00, 0x00]);

    write_u16(&mut wr, 65535).ok().unwrap();

    assert_eq!(vec![0xcd, 0xff, 0xff], wr.into_inner());
}

#[test]
fn pass_pack_u32() {
    let mut wr = FixedBuf::new(vec![0x00, 0x00, 0x00, 0x00, 0x00]);

    write_u32(&mut wr, 4294967295).ok().unwrap();

    assert_eq!(vec![0xce, 0xff, 0xff, 0xff, 0xff], wr.into_inner());
}

#[test]
fn pass_pack_u64() {
    let mut wr = FixedBuf::new(vec![0x00, 0x00, 0x00, 0x00, 0x00, 0x00, 0x00, 0x00, 0x00]);

    write_u64(&mut wr, 18446744073709551615).ok().unwrap();

    assert_eq!(vec![0xcf, 0xff, 0xff, 0xff, 0xff, 0xff, 0xff, 0xff, 0xff], wr.into_inner());
}

#[test]
fn pass_pack_nfix() {
    let mut wr = FixedBuf::new(vec![0x00]);

    write_nfix(&mut wr, -32).ok().unwrap();

    assert_eq!(vec![0xe0], wr.into_inner());
}

#[test]
fn pass_pack_i8() {
    let mut wr = FixedBuf::new(vec![0x00, 0x00]);

    write_i8(&mut wr, -128).ok().unwrap();

    assert_eq!(vec![0xd0, 0x80], wr.into_inner());
}

#[test]
fn pass_pack_i16() {
    let mut wr = FixedBuf::new(vec![0x00, 0x00, 0x00]);

    write_i16(&mut wr, -32768).ok().unwrap();

    assert_eq!(vec![0xd1, 0x80, 0x00], wr.into_inner());
}

#[test]
fn pass_pack_i32() {
    let mut wr = FixedBuf::new(vec![0x00, 0x00, 0x00, 0x00, 0x00]);

    write_i32(&mut wr, -2147483648).ok().unwrap();

    assert_eq!(vec![0xd2, 0x80, 0x00, 0x00, 0x00], wr.into_inner());
}

#[test]
fn pass_pack_i64() {
    let mut wr = FixedBuf::new(vec![0x00, 0x00, 0x00, 0x00, 0x00, 0x00, 0x00, 0x00, 0x00]);

    write_i64(&mut wr, -9223372036854775808).ok().unwrap();

    assert_eq!(vec![0xd3, 0x80, 0x00, 0x00, 0x00, 0x00, 0x00, 0x00, 0x00], wr.into_inner());
}

#[test]
fn pass_pack_uint_fix() {
    let mut wr = FixedBuf::new(vec![0x00, 0x00, 0x00, 0x00, 0x00, 0x00, 0x00, 0x00, 0x00]);

    assert_eq!(
        Marker::FixPos(127),
        write_uint(&mut wr, 127).ok().unwrap()
    );

    assert_eq!(vec![0x7f, 0x00, 0x00, 0x00, 0x00, 0x00, 0x00, 0x00, 0x00], wr.into_inner());
}

#[test]
fn pass_pack_uint_u8() {
    let mut wr = FixedBuf::new(vec![0x00, 0x00, 0x00, 0x00, 0x00, 0x00, 0x00, 0x00, 0x00]);

    assert_eq!(
        Marker::U8,
        write_uint(&mut wr, 255).ok().unwrap()
    );

    assert_eq!(vec![0xcc, 0xff, 0x00, 0x00, 0x00, 0x00, 0x00, 0x00, 0x00], wr.into_inner());
}

#[test]
fn pass_pack_uint_u16() {
    let mut wr = FixedBuf::new(vec![0x00, 0x00, 0x00, 0x00, 0x00, 0x00, 0x00, 0x00, 0x00]);

    assert_eq!(
        Marker::U16,
        write_uint(&mut wr, 65535).ok().unwrap()
    );

    assert_eq!(vec![0xcd, 0xff, 0xff, 0x00, 0x00, 0x00, 0x00, 0x00, 0x00], wr.into_inner());
}

#[test]
fn pass_pack_uint_u32() {
    let mut wr = FixedBuf::new(vec![0x00, 0x00, 0x00, 0x00, 0x00, 0x00, 0x00, 0x00, 0x00]);

    assert_eq!(
        Marker::U32,
        write_uint(&mut wr, 4294967295).ok().unwrap()
    );

    assert_eq!(vec![0xce, 0xff, 0xff, 0xff, 0xff, 0x00, 0x00, 0x00, 0x00], wr.into_inner());
}

#[test]
fn pass_pack_uint_u64() {
    let mut wr = FixedBuf::new(vec![0x00, 0x00, 0x00, 0x00, 0x00, 0x00, 0x00, 0x00, 0x00]);

    assert_eq!(
        Marker::U64,
        write_uint(&mut wr, 18446744073709551615).ok().unwrap()
    );

    assert_eq!(vec![0xcf, 0xff, 0xff, 0xff, 0xff, 0xff, 0xff, 0xff, 0xff], wr.into_inner());
}

#[test]
fn pass_pack_sint_fix() {
    let mut wr = FixedBuf::new(vec![0x00, 0x00, 0x00, 0x00, 0x00, 0x00, 0x00, 0x00, 0x00]);

    assert_eq!(
        Marker::FixNeg(-32),
        write_sint(&mut wr, -32).ok().unwrap()
    );

    assert_eq!(vec![0xe0, 0x00, 0x00, 0x00, 0x00, 0x00, 0x00, 0x00, 0x00], wr.into_inner());
}

#[test]
fn pass_pack_sint_i8_min() {
    let mut wr = FixedBuf::new(vec![0x00, 0x00, 0x00, 0x00, 0x00, 0x00, 0x00, 0x00, 0x00]);

    assert_eq!(
        Marker::I8,
        write_sint(&mut wr, -128).ok().unwrap()
    );

    assert_eq!(vec![0xd0, 0x80, 0x00, 0x00, 0x00, 0x00, 0x00, 0x00, 0x00], wr.into_inner());
}

#[test]
fn pass_pack_sint_i16_min() {
    let mut wr = FixedBuf::new(vec![0x00, 0x00, 0x00, 0x00, 0x00, 0x00, 0x00, 0x00, 0x00]);

    assert_eq!(
        Marker::I16,
        write_sint(&mut wr, -32768).ok().unwrap()
    );

    assert_eq!(vec![0xd1, 0x80, 0x00, 0x00, 0x00, 0x00, 0x00, 0x00, 0x00], wr.into_inner());
}

#[test]
fn pass_pack_sint_i16_max() {
    let mut wr = FixedBuf::new(vec![0x00, 0x00, 0x00, 0x00, 0x00, 0x00, 0x00, 0x00, 0x00]);

    assert_eq!(
        Marker::U16,
        write_sint(&mut wr, 32767).ok().unwrap()
    );

    assert_eq!(vec![0xcd, 0x7f, 0xff, 0x00, 0x00, 0x00, 0x00, 0x00, 0x00], wr.into_inner());
}

#[test]
fn pass_pack_sint_i32_min() {
    let mut wr = FixedBuf::new(vec![0x00, 0x00, 0x00, 0x00, 0x00, 0x00, 0x00, 0x00, 0x00]);

    assert_eq!(
        Marker::I32,
        write_sint(&mut wr, -2147483648).ok().unwrap()
    );

    assert_eq!(vec![0xd2, 0x80, 0x00, 0x00, 0x00, 0x00, 0x00, 0x00, 0x00], wr.into_inner());
}

#[test]
fn pass_pack_sint_i32_max() {
    let mut wr = FixedBuf::new(vec![0x00, 0x00, 0x00, 0x00, 0x00, 0x00, 0x00, 0x00, 0x00]);

    assert_eq!(
        Marker::U32,
        write_sint(&mut wr, 2147483647).ok().unwrap()
    );

    assert_eq!(vec![0xce, 0x7f, 0xff, 0xff, 0xff, 0x00, 0x00, 0x00, 0x00], wr.into_inner());
}

#[test]
fn pass_pack_sint_i64_min() {
    let mut wr = FixedBuf::new(vec![0x00, 0x00, 0x00, 0x00, 0x00, 0x00, 0x00, 0x00, 0x00]);

    assert_eq!(
        Marker::I64,
        write_sint(&mut wr, -9223372036854775808).ok().unwrap()
    );

    assert_eq!(vec![0xd3, 0x80, 0x00, 0x00, 0x00, 0x00, 0x00, 0x00, 0x00], wr.into_inner());
}

#[test]
fn pass_pack_sint_i64_max() {
    let mut wr = FixedBuf::new(vec![0x00, 0x00, 0x00, 0x00, 0x00, 0x00, 0x00, 0x00, 0x00]);

    assert_eq!(
        Marker::U64,
        write_sint(&mut wr, 9223372036854775807).ok().unwrap()
    );

    assert_eq!(vec![0xcf, 0x7f, 0xff, 0xff, 0xff, 0xff, 0xff, 0xff, 0xff], wr.into_inner());
}
