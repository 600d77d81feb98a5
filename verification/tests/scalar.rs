use iced_form::form_field::Message;
use iced_form::scalar::{FloatKind, IntKind, ScalarKind, ScalarValue};

const UNSIGNED: [IntKind; 6] = [IntKind::U8, IntKind::U16, IntKind::U32, IntKind::U64, IntKind::U128, IntKind::Usize];
const SIGNED: [IntKind; 6] = [IntKind::I8, IntKind::I16, IntKind::I32, IntKind::I64, IntKind::I128, IntKind::Isize];

#[test]
fn signedness() {
    for kind in UNSIGNED {
        assert!(!kind.is_signed());
    }
    for kind in SIGNED {
        assert!(kind.is_signed());
    }
}

#[test]
fn largest_values() {
    assert_eq!(IntKind::U8.max(), u8::MAX as u128);
    assert_eq!(IntKind::U16.max(), u16::MAX as u128);
    assert_eq!(IntKind::U32.max(), u32::MAX as u128);
    assert_eq!(IntKind::U64.max(), u64::MAX as u128);
    assert_eq!(IntKind::U128.max(), u128::MAX);
    assert_eq!(IntKind::Usize.max(), usize::MAX as u128);
    assert_eq!(IntKind::I8.max(), i8::MAX as u128);
    assert_eq!(IntKind::I16.max(), i16::MAX as u128);
    assert_eq!(IntKind::I32.max(), i32::MAX as u128);
    assert_eq!(IntKind::I64.max(), i64::MAX as u128);
    assert_eq!(IntKind::I128.max(), i128::MAX as u128);
    assert_eq!(IntKind::Isize.max(), isize::MAX as u128);
}

const SAMPLES: [&str; 44] = [
    "", "0", "5", "+5", "-5", "-0", "+0", "+", "-", "+-5", "--5", "++5", "5+", "5-", " 5", "5 ", "1_000", "0x10",
    "1e3", "1.0", "abc", "٣", "５", "007", "000000000000000000000000000000000000000000000255", "127", "128", "-128",
    "-129", "255", "256", "32767", "32768", "-32768", "-32769", "65535", "65536", "2147483647", "2147483648",
    "-2147483648", "-2147483649", "4294967295", "4294967296", "\u{0}",
];

#[test]
fn integers_parse_as_the_standard_library_reads_them() {
    for text in SAMPLES {
        let signed = |v: Option<i128>| v.map(ScalarValue::Signed);
        let unsigned = |v: Option<u128>| v.map(ScalarValue::Unsigned);
        assert_eq!(IntKind::U8.parse(text), unsigned(text.parse::<u8>().ok().map(u128::from)), "{:?}", text);
        assert_eq!(IntKind::U16.parse(text), unsigned(text.parse::<u16>().ok().map(u128::from)), "{:?}", text);
        assert_eq!(IntKind::U32.parse(text), unsigned(text.parse::<u32>().ok().map(u128::from)), "{:?}", text);
        assert_eq!(IntKind::U64.parse(text), unsigned(text.parse::<u64>().ok().map(u128::from)), "{:?}", text);
        assert_eq!(IntKind::U128.parse(text), unsigned(text.parse::<u128>().ok()), "{:?}", text);
        assert_eq!(
            IntKind::Usize.parse(text),
            unsigned(text.parse::<usize>().ok().map(|v| v as u128)),
            "{:?}",
            text
        );
        assert_eq!(IntKind::I8.parse(text), signed(text.parse::<i8>().ok().map(i128::from)), "{:?}", text);
        assert_eq!(IntKind::I16.parse(text), signed(text.parse::<i16>().ok().map(i128::from)), "{:?}", text);
        assert_eq!(IntKind::I32.parse(text), signed(text.parse::<i32>().ok().map(i128::from)), "{:?}", text);
        assert_eq!(IntKind::I64.parse(text), signed(text.parse::<i64>().ok().map(i128::from)), "{:?}", text);
        assert_eq!(IntKind::I128.parse(text), signed(text.parse::<i128>().ok()), "{:?}", text);
        assert_eq!(
            IntKind::Isize.parse(text),
            signed(text.parse::<isize>().ok().map(|v| v as i128)),
            "{:?}",
            text
        );
    }
}

#[test]
fn the_widest_integers_parse_to_their_bounds() {
    let max = u128::MAX.to_string();
    assert_eq!(IntKind::U128.parse(&max), Some(ScalarValue::Unsigned(u128::MAX)));
    assert_eq!(IntKind::U128.parse("340282366920938463463374607431768211456"), None);
    assert_eq!(IntKind::U128.parse("3402823669209384634633746074317682114550"), None);
    let max = i128::MAX.to_string();
    assert_eq!(IntKind::I128.parse(&max), Some(ScalarValue::Signed(i128::MAX)));
    assert_eq!(IntKind::I128.parse("170141183460469231731687303715884105728"), None);
    let min = i128::MIN.to_string();
    assert_eq!(IntKind::I128.parse(&min), Some(ScalarValue::Signed(i128::MIN)));
    assert_eq!(IntKind::I128.parse("-170141183460469231731687303715884105729"), None);
    assert_eq!(IntKind::I8.parse("-128"), Some(ScalarValue::Signed(-128)));
    assert_eq!(IntKind::I64.parse("-9223372036854775808"), Some(ScalarValue::Signed(i64::MIN as i128)));
    assert_eq!(IntKind::I64.parse("-9223372036854775809"), None);
}

#[test]
fn exact_values() {
    assert_eq!(IntKind::U8.parse("5"), Some(ScalarValue::Unsigned(5)));
    assert_eq!(IntKind::U8.parse("+5"), Some(ScalarValue::Unsigned(5)));
    assert_eq!(IntKind::U8.parse("-5"), None);
    assert_eq!(IntKind::I8.parse("-5"), Some(ScalarValue::Signed(-5)));
    assert_eq!(IntKind::I8.parse("-0"), Some(ScalarValue::Signed(0)));
    assert_eq!(IntKind::U8.parse("-0"), None);
    assert_eq!(IntKind::U32.parse("1234567890"), Some(ScalarValue::Unsigned(1234567890)));
    assert_eq!(IntKind::U8.parse(""), None);
    assert_eq!(IntKind::U8.parse("２"), None);
}

#[test]
fn labels() {
    assert_eq!(ScalarKind::Integer(IntKind::Usize).label(), "Integer");
    assert_eq!(ScalarKind::Float(FloatKind::Single).label(), "Float");
    assert_eq!(ScalarKind::Text.label(), "Text");
}

#[test]
fn scalar_parse_by_kind() {
    assert_eq!(ScalarKind::Integer(IntKind::I16).parse("-12", None), Some(ScalarValue::Signed(-12)));
    assert_eq!(ScalarKind::Integer(IntKind::I16).parse("-12", Some(9)), Some(ScalarValue::Signed(-12)));
    assert_eq!(ScalarKind::Integer(IntKind::I16).parse("1.5", Some(9)), None);
    assert_eq!(ScalarKind::Text.parse("-12", None), Some(ScalarValue::Text("-12".to_string())));
    assert_eq!(ScalarKind::Text.parse("", Some(1)), Some(ScalarValue::Text(String::new())));
    assert_eq!(ScalarKind::Float(FloatKind::Double).parse("1.5", None), None);
    assert_eq!(
        ScalarKind::Float(FloatKind::Double).parse("1.5", Some(1.5f64.to_bits())),
        Some(ScalarValue::Float(1.5f64.to_bits()))
    );
    assert_eq!(
        ScalarKind::Float(FloatKind::Single).parse("1.5", Some(1.5f32.to_bits() as u64)),
        Some(ScalarValue::Float(1.5f32.to_bits() as u64))
    );
}

#[test]
fn on_input_reports_value_or_complaint() {
    assert_eq!(
        ScalarKind::Integer(IntKind::U8).on_input("12".to_string(), None),
        Message::Value((ScalarValue::Unsigned(12), "12".to_string()))
    );
    assert_eq!(
        ScalarKind::Integer(IntKind::U8).on_input("x".to_string(), None),
        Message::Input { input: "x".to_string(), invalid_reason: "expected Integer".to_string() }
    );
    assert_eq!(
        ScalarKind::Float(FloatKind::Single).on_input("x".to_string(), None),
        Message::Input { input: "x".to_string(), invalid_reason: "expected Float".to_string() }
    );
    assert_eq!(
        ScalarKind::Text.on_input("x".to_string(), None),
        Message::Value((ScalarValue::Text("x".to_string()), "x".to_string()))
    );
}

#[test]
fn duplicate_copies_the_value() {
    for value in [
        ScalarValue::Unsigned(3),
        ScalarValue::Signed(-3),
        ScalarValue::Float(7),
        ScalarValue::Text("abc".to_string()),
    ] {
        assert_eq!(value.duplicate(), value);
    }
}

#[test]
fn kinds_admit_their_own_values() {
    let u8 = ScalarKind::Integer(IntKind::U8);
    let i8 = ScalarKind::Integer(IntKind::I8);
    assert!(u8.admits(&ScalarValue::Unsigned(0)));
    assert!(u8.admits(&ScalarValue::Unsigned(255)));
    assert!(!u8.admits(&ScalarValue::Unsigned(256)));
    assert!(!u8.admits(&ScalarValue::Signed(1)));
    assert!(!u8.admits(&ScalarValue::Float(1)));
    assert!(!u8.admits(&ScalarValue::Text("1".to_string())));
    assert!(i8.admits(&ScalarValue::Signed(-128)));
    assert!(i8.admits(&ScalarValue::Signed(127)));
    assert!(!i8.admits(&ScalarValue::Signed(128)));
    assert!(!i8.admits(&ScalarValue::Signed(-129)));
    assert!(!i8.admits(&ScalarValue::Unsigned(1)));
    assert!(ScalarKind::Integer(IntKind::I128).admits(&ScalarValue::Signed(i128::MIN)));
    assert!(ScalarKind::Integer(IntKind::I128).admits(&ScalarValue::Signed(i128::MAX)));
    assert!(ScalarKind::Integer(IntKind::U128).admits(&ScalarValue::Unsigned(u128::MAX)));
    assert!(ScalarKind::Float(FloatKind::Single).admits(&ScalarValue::Float(0)));
    assert!(!ScalarKind::Float(FloatKind::Single).admits(&ScalarValue::Unsigned(0)));
    assert!(ScalarKind::Text.admits(&ScalarValue::Text(String::new())));
    assert!(!ScalarKind::Text.admits(&ScalarValue::Unsigned(0)));
    assert!(IntKind::U16.admits(&ScalarValue::Unsigned(65535)));
    assert!(!IntKind::U16.admits(&ScalarValue::Unsigned(65536)));
}
