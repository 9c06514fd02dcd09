use extension::error::DispatchError;
use extension::functions::{is_arma3, NativeFunction};
use extension::wire::{kinds, WireCodec, WireKind, WireValue};

#[test]
fn round_trip_each_primitive() {
    assert_eq!(u8::decode(&200u8.encode()), Some(200));
    assert_eq!(u32::decode(&4_000_000_000u32.encode()), Some(4_000_000_000));
    assert_eq!(u64::decode(&u64::MAX.encode()), Some(u64::MAX));
    assert_eq!(i32::decode(&(-7i32).encode()), Some(-7));
    assert_eq!(i64::decode(&i64::MIN.encode()), Some(i64::MIN));
    assert_eq!(bool::decode(&true.encode()), Some(true));
    assert_eq!(bool::decode(&false.encode()), Some(false));
    assert_eq!(String::decode(&"say \"hi\"".to_string().encode()), Some("say \"hi\"".to_string()));
    assert_eq!(String::decode(&String::new().encode()), Some(String::new()));
}

#[test]
fn wire_value_round_trip() {
    assert_eq!(u8::decode(&WireValue::U8(3)).unwrap().encode(), WireValue::U8(3));
    assert_eq!(i64::decode(&WireValue::I64(-1)).unwrap().encode(), WireValue::I64(-1));
    assert_eq!(
        String::decode(&WireValue::Str("x".to_string())).unwrap().encode(),
        WireValue::Str("x".to_string())
    );
}

#[test]
fn encode_tags_by_type() {
    assert_eq!(5u8.encode(), WireValue::U8(5));
    assert_eq!(5u32.encode(), WireValue::U32(5));
    assert_eq!(5u64.encode(), WireValue::U64(5));
    assert_eq!(5i32.encode(), WireValue::I32(5));
    assert_eq!(5i64.encode(), WireValue::I64(5));
}

#[test]
fn decode_refuses_other_tags() {
    assert_eq!(u8::decode(&WireValue::U32(3)), None);
    assert_eq!(u32::decode(&WireValue::U8(3)), None);
    assert_eq!(bool::decode(&WireValue::U8(1)), None);
    assert_eq!(String::decode(&WireValue::Bool(true)), None);
    assert_eq!(i32::decode(&WireValue::Array(vec![WireValue::I32(1)])), None);
}

#[test]
fn kinds_in_order() {
    let vs = vec![
        WireValue::Str("a".to_string()),
        WireValue::U8(1),
        WireValue::U32(1),
        WireValue::U64(1),
        WireValue::I32(1),
        WireValue::I64(1),
        WireValue::Bool(false),
        WireValue::Array(vec![]),
    ];
    assert_eq!(
        kinds(&vs),
        vec![
            WireKind::Str,
            WireKind::U8,
            WireKind::U32,
            WireKind::U64,
            WireKind::I32,
            WireKind::I64,
            WireKind::Bool,
            WireKind::Array,
        ]
    );
    assert_eq!(kinds(&vec![]), vec![]);
}

#[test]
fn is_arma3_only_three() {
    assert!(is_arma3(3));
    assert!(!is_arma3(4));
    assert!(!is_arma3(0));
    assert!(!is_arma3(255));
}

#[test]
fn invoke_decodes_and_encodes() {
    let f = NativeFunction::IsArma3;
    assert_eq!(f.param_kinds(), vec![WireKind::U8]);
    assert_eq!(f.invoke(&vec![WireValue::U8(3)]), Ok(WireValue::Bool(true)));
    assert_eq!(f.invoke(&vec![WireValue::U8(2)]), Ok(WireValue::Bool(false)));
    assert_eq!(
        f.invoke(&vec![WireValue::Array(vec![WireValue::U8(3)])]),
        Err(DispatchError::BadArguments { expected: vec![WireKind::U8], actual: vec![WireKind::Array] })
    );
}
