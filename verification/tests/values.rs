use std::cmp::Ordering;

use dbtype::literal::Literal;
use dbtype::value::{DataType, Value, ValueError};

#[test]
fn round_trip_boolean() {
    for v in [Value::Boolean(false), Value::Boolean(true)] {
        let bytes = v.to_bytes();
        assert_eq!(Value::from_bytes(&bytes, DataType::Boolean), Ok(v));
    }
}

#[test]
fn round_trip_tinyint() {
    for p in [0i8, 1, -1, 127, -128, 42] {
        let v = Value::TinyInt(p);
        let bytes = v.to_bytes();
        assert_eq!(Value::from_bytes(&bytes, DataType::TinyInt), Ok(v));
    }
}

#[test]
fn round_trip_smallint() {
    for p in [0i16, 127, -255, 32767, -32768, 256] {
        let v = Value::SmallInt(p);
        let bytes = v.to_bytes();
        assert_eq!(Value::from_bytes(&bytes, DataType::SmallInt), Ok(v));
    }
}

#[test]
fn round_trip_integer() {
    for p in [0i32, -2, 2147483647, -2147483648, 16909060] {
        let v = Value::Integer(p);
        let bytes = v.to_bytes();
        assert_eq!(Value::from_bytes(&bytes, DataType::Integer), Ok(v));
    }
}

#[test]
fn encode_widths_are_exact() {
    assert_eq!(Value::Boolean(true).to_bytes().len(), 1);
    assert_eq!(Value::TinyInt(-7).to_bytes().len(), 1);
    assert_eq!(Value::SmallInt(300).to_bytes().len(), 2);
    assert_eq!(Value::Integer(-70000).to_bytes().len(), 4);
}

#[test]
fn encode_exact_bytes() {
    assert_eq!(Value::TinyInt(-1).to_bytes(), vec![0xff]);
    assert_eq!(Value::TinyInt(127).to_bytes(), vec![0x7f]);
    assert_eq!(Value::SmallInt(-32768).to_bytes(), vec![0x80, 0x00]);
    assert_eq!(Value::SmallInt(127).to_bytes(), vec![0x00, 0x7f]);
    assert_eq!(Value::Integer(16909060).to_bytes(), vec![0x01, 0x02, 0x03, 0x04]);
    assert_eq!(Value::Integer(-2).to_bytes(), vec![0xff, 0xff, 0xff, 0xfe]);
}

#[test]
fn boolean_encode_is_canonical() {
    assert_eq!(Value::Boolean(true).to_bytes(), vec![0x01]);
    assert_eq!(Value::Boolean(false).to_bytes(), vec![0x00]);
    assert_eq!(Value::boolean_to_bytes(true), vec![0x01]);
    assert_eq!(Value::boolean_to_bytes(false), vec![0x00]);
}

#[test]
fn boolean_decode_is_permissive() {
    assert_eq!(
        Value::from_bytes(&[0x02], DataType::Boolean),
        Ok(Value::Boolean(true))
    );
    assert_eq!(
        Value::from_bytes(&[0xff], DataType::Boolean),
        Ok(Value::Boolean(true))
    );
    assert_eq!(
        Value::from_bytes(&[0x00], DataType::Boolean),
        Ok(Value::Boolean(false))
    );
    assert!(Value::boolean_from_bytes(&[0x02]));
    assert!(!Value::boolean_from_bytes(&[0x00]));
}

#[test]
fn decode_ignores_trailing_bytes() {
    assert_eq!(
        Value::from_bytes(&[0x00, 0x7f, 0xaa, 0xbb], DataType::SmallInt),
        Ok(Value::SmallInt(127))
    );
    assert_eq!(
        Value::from_bytes(&[0x85, 0x00], DataType::TinyInt),
        Ok(Value::TinyInt(-123))
    );
}

#[test]
fn compare_matches_native_order() {
    assert_eq!(
        Value::TinyInt(-1).compare(&Value::TinyInt(1)),
        Ok(Ordering::Less)
    );
    assert_eq!(
        Value::Boolean(false).compare(&Value::Boolean(true)),
        Ok(Ordering::Less)
    );
    assert_eq!(
        Value::SmallInt(-255).compare(&Value::SmallInt(-255)),
        Ok(Ordering::Equal)
    );
    assert_eq!(
        Value::Integer(7).compare(&Value::Integer(-70000)),
        Ok(Ordering::Greater)
    );
    assert_eq!(
        Value::Boolean(true).compare(&Value::Boolean(true)),
        Ok(Ordering::Equal)
    );
}

#[test]
fn compare_yields_exactly_one_ordering() {
    let pairs = [
        (Value::TinyInt(-3), Value::TinyInt(5)),
        (Value::SmallInt(9), Value::SmallInt(9)),
        (Value::Integer(10), Value::Integer(-10)),
        (Value::Boolean(false), Value::Boolean(false)),
    ];
    for (a, b) in pairs {
        let r = a.compare(&b).unwrap();
        let hits = [Ordering::Less, Ordering::Equal, Ordering::Greater]
            .iter()
            .filter(|o| **o == r)
            .count();
        assert_eq!(hits, 1);
    }
}

#[test]
fn compare_across_kinds_is_rejected() {
    assert_eq!(
        Value::Boolean(true).compare(&Value::TinyInt(1)),
        Err(ValueError::TypeMismatch)
    );
    assert_eq!(
        Value::SmallInt(1).compare(&Value::Integer(1)),
        Err(ValueError::TypeMismatch)
    );
}

#[test]
fn from_literal_numeric_in_range() {
    assert_eq!(
        Value::from_literal(&Literal::Number("127".to_string()), DataType::TinyInt),
        Ok(Value::TinyInt(127))
    );
    assert_eq!(
        Value::from_literal(&Literal::Number("-128".to_string()), DataType::TinyInt),
        Ok(Value::TinyInt(-128))
    );
    assert_eq!(
        Value::from_literal(&Literal::Number("+42".to_string()), DataType::Integer),
        Ok(Value::Integer(42))
    );
    assert_eq!(
        Value::from_literal(&Literal::Number("-0".to_string()), DataType::SmallInt),
        Ok(Value::SmallInt(0))
    );
    assert_eq!(
        Value::from_literal(&Literal::Number("0032".to_string()), DataType::SmallInt),
        Ok(Value::SmallInt(32))
    );
    assert_eq!(
        Value::from_literal(
            &Literal::Number("-2147483648".to_string()),
            DataType::Integer
        ),
        Ok(Value::Integer(-2147483648))
    );
    assert_eq!(
        Value::from_literal(
            &Literal::Number("2147483647".to_string()),
            DataType::Integer
        ),
        Ok(Value::Integer(2147483647))
    );
}

#[test]
fn from_literal_numeric_out_of_range() {
    assert_eq!(
        Value::from_literal(&Literal::Number("128".to_string()), DataType::TinyInt),
        Err(ValueError::LiteralParseError)
    );
    assert_eq!(
        Value::from_literal(&Literal::Number("-129".to_string()), DataType::TinyInt),
        Err(ValueError::LiteralParseError)
    );
    assert_eq!(
        Value::from_literal(&Literal::Number("32768".to_string()), DataType::SmallInt),
        Err(ValueError::LiteralParseError)
    );
    assert_eq!(
        Value::from_literal(
            &Literal::Number("2147483648".to_string()),
            DataType::Integer
        ),
        Err(ValueError::LiteralParseError)
    );
    assert_eq!(
        Value::from_literal(
            &Literal::Number("99999999999999999999999999".to_string()),
            DataType::Integer
        ),
        Err(ValueError::LiteralParseError)
    );
}

#[test]
fn from_literal_malformed_text() {
    for text in ["", "-", "+", "abc", "12x", "12.5", " 12", "1 2", "--5", "0x10"] {
        assert_eq!(
            Value::from_literal(&Literal::Number(text.to_string()), DataType::Integer),
            Err(ValueError::LiteralParseError),
            "text {:?} must not parse",
            text
        );
    }
}

#[test]
fn from_literal_boolean_ignores_data_type() {
    for dt in [
        DataType::Boolean,
        DataType::TinyInt,
        DataType::SmallInt,
        DataType::Integer,
        DataType::Varchar,
    ] {
        assert_eq!(
            Value::from_literal(&Literal::Boolean(true), dt),
            Ok(Value::Boolean(true))
        );
        assert_eq!(
            Value::from_literal(&Literal::Boolean(false), dt),
            Ok(Value::Boolean(false))
        );
    }
}

#[test]
fn from_literal_numeric_needs_integer_kind() {
    assert_eq!(
        Value::from_literal(&Literal::Number("1".to_string()), DataType::Boolean),
        Err(ValueError::UnsupportedType)
    );
    assert_eq!(
        Value::from_literal(&Literal::Number("1".to_string()), DataType::Varchar),
        Err(ValueError::UnsupportedType)
    );
}

#[test]
fn from_literal_other_kind_is_unsupported() {
    assert_eq!(
        Value::from_literal(&Literal::Other, DataType::Integer),
        Err(ValueError::UnsupportedLiteral)
    );
}

#[test]
fn decode_unsupported_type_is_rejected() {
    assert_eq!(
        Value::from_bytes(&[0x01, 0x02, 0x03, 0x04], DataType::Varchar),
        Err(ValueError::UnsupportedType)
    );
}

#[test]
fn end_to_end_decode_encode_compare() {
    let a = Value::from_bytes(&[0x00, 0x7f], DataType::SmallInt).unwrap();
    assert_eq!(a, Value::SmallInt(127));
    assert_eq!(a.to_bytes(), vec![0x00, 0x7f]);
    let b = Value::from_bytes(&[0xff, 0x01], DataType::SmallInt).unwrap();
    assert_eq!(b, Value::SmallInt(-255));
    assert_eq!(a.compare(&b), Ok(Ordering::Greater));
}

#[test]
fn from_sqlparser_number() {
    let node = sqlparser::ast::Value::Number("42".to_string(), false);
    assert_eq!(
        Value::from_sqlparser_value(&node, DataType::Integer),
        Ok(Value::Integer(42))
    );
    assert_eq!(
        Value::from_sqlparser_value(&node, DataType::TinyInt),
        Ok(Value::TinyInt(42))
    );
    let big = sqlparser::ast::Value::Number("300".to_string(), false);
    assert_eq!(
        Value::from_sqlparser_value(&big, DataType::TinyInt),
        Err(ValueError::LiteralParseError)
    );
}

#[test]
fn from_sqlparser_boolean() {
    let node = sqlparser::ast::Value::Boolean(true);
    assert_eq!(
        Value::from_sqlparser_value(&node, DataType::Boolean),
        Ok(Value::Boolean(true))
    );
    assert_eq!(
        Value::from_sqlparser_value(&node, DataType::Integer),
        Ok(Value::Boolean(true))
    );
}

#[test]
fn from_sqlparser_string_is_unsupported() {
    let node = sqlparser::ast::Value::SingleQuotedString("abc".to_string());
    assert_eq!(
        Value::from_sqlparser_value(&node, DataType::Integer),
        Err(ValueError::UnsupportedLiteral)
    );
    let null = sqlparser::ast::Value::Null;
    assert_eq!(
        Value::from_sqlparser_value(&null, DataType::Integer),
        Err(ValueError::UnsupportedLiteral)
    );
}
