use rmp_serde::ext::{Error, IntPriv, Integer, Unexpected, Utf8String, Utf8StringRef, Value, ValueRef};

#[test]
fn value_descriptions() {
    assert!(matches!(Value::Nil.unexpected(), Unexpected::Unit));
    assert!(matches!(Value::Boolean(true).unexpected(), Unexpected::Bool(true)));
    assert!(matches!(
        Value::Integer(Integer::from_u64(7)).unexpected(),
        Unexpected::Unsigned(7)
    ));
    assert!(matches!(
        Value::Integer(Integer::from_i64(-7)).unexpected(),
        Unexpected::Signed(-7)
    ));
    assert!(matches!(
        Value::Integer(Integer::from_i64(7)).unexpected(),
        Unexpected::Unsigned(7)
    ));
    let bits = 2.5f32.to_bits();
    assert!(matches!(Value::F32(bits).unexpected(), Unexpected::Float32(b) if b == bits));
    let bits = 2.5f64.to_bits();
    assert!(matches!(Value::F64(bits).unexpected(), Unexpected::Float(b) if b == bits));
    let v = Value::String(Utf8String { s: Ok("abc".to_string()) });
    assert!(matches!(v.unexpected(), Unexpected::Str("abc")));
    let v = Value::String(Utf8String { s: Err(vec![0xff, 0xfe]) });
    assert!(matches!(v.unexpected(), Unexpected::Bytes(&[0xff, 0xfe])));
    let v = Value::Binary(vec![1, 2]);
    assert!(matches!(v.unexpected(), Unexpected::Bytes(&[1, 2])));
    assert!(matches!(Value::Array(vec![Value::Nil]).unexpected(), Unexpected::Sequence));
    assert!(matches!(
        Value::Mapping(vec![(Value::Nil, Value::Nil)]).unexpected(),
        Unexpected::Mapping
    ));
    assert!(matches!(Value::Ext(1, vec![0]).unexpected(), Unexpected::Sequence));
}

#[test]
fn value_ref_descriptions() {
    assert!(matches!(ValueRef::Nil.unexpected(), Unexpected::Unit));
    assert!(matches!(ValueRef::Boolean(false).unexpected(), Unexpected::Bool(false)));
    let i = Integer::from_i64(-3);
    assert!(matches!(i.as_repr(), IntPriv::NegInt(-3)));
    assert!(matches!(ValueRef::Integer(i).unexpected(), Unexpected::Signed(-3)));
    assert!(matches!(Integer::from_i64(0).as_repr(), IntPriv::PosInt(0)));
    assert!(matches!(Integer::from_u64(9).as_repr(), IntPriv::PosInt(9)));
    let v = ValueRef::String(Utf8StringRef { s: Ok("x") });
    assert!(matches!(v.unexpected(), Unexpected::Str("x")));
    let bad = [0xc0u8];
    let v = ValueRef::String(Utf8StringRef { s: Err(&bad) });
    assert!(matches!(v.unexpected(), Unexpected::Bytes(&[0xc0])));
    assert!(matches!(ValueRef::Binary(&[5]).unexpected(), Unexpected::Bytes(&[5])));
    assert!(matches!(ValueRef::Array(vec![]).unexpected(), Unexpected::Sequence));
    assert!(matches!(ValueRef::Mapping(vec![]).unexpected(), Unexpected::Mapping));
    assert!(matches!(ValueRef::Ext(2, &[1]).unexpected(), Unexpected::Sequence));
    assert!(matches!(ValueRef::F32(0).unexpected(), Unexpected::Float32(0)));
    assert!(matches!(ValueRef::F64(1).unexpected(), Unexpected::Float(1)));
}

#[test]
fn decoding_error_texts() {
    let e = Error::Syntax("bad".to_string());
    assert_eq!("error while decoding value", e.description());
    assert_eq!("error while decoding value: bad", e.to_string());
    assert!(e.cause().is_none());
}
