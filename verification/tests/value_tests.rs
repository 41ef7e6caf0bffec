use lox_rust::obj::Obj;
use lox_rust::value::{
    number_equals, number_is_nan, number_less, number_negate, Value, ValueArray,
};

fn samples() -> Vec<f64> {
    vec![
        0.0,
        -0.0,
        1.0,
        -1.0,
        0.5,
        -0.5,
        2.5,
        1e300,
        -1e300,
        f64::MIN_POSITIVE,
        -f64::MIN_POSITIVE,
        5e-324,
        -5e-324,
        f64::MAX,
        f64::MIN,
        f64::INFINITY,
        f64::NEG_INFINITY,
        f64::NAN,
        -f64::NAN,
        f64::from_bits(0x7ff0_0000_0000_0001),
        f64::from_bits(0xfff8_0000_0000_0123),
        3.0,
        7.0,
    ]
}

#[test]
fn number_less_agrees_with_the_machine() {
    for a in samples() {
        for b in samples() {
            assert_eq!(number_less(a.to_bits(), b.to_bits()), a < b, "{} < {}", a, b);
        }
    }
}

#[test]
fn number_equals_agrees_with_the_machine() {
    for a in samples() {
        for b in samples() {
            assert_eq!(number_equals(a.to_bits(), b.to_bits()), a == b, "{} == {}", a, b);
        }
    }
}

#[test]
fn number_negate_agrees_with_the_machine() {
    for a in samples() {
        assert_eq!(number_negate(a.to_bits()), (-a).to_bits(), "-{}", a);
    }
}

#[test]
fn number_is_nan_agrees_with_the_machine() {
    for a in samples() {
        assert_eq!(number_is_nan(a.to_bits()), a.is_nan(), "{}", a);
    }
}

#[test]
fn exact_bit_patterns() {
    assert_eq!(number_negate(0x3ff0_0000_0000_0000), 0xbff0_0000_0000_0000);
    assert_eq!(number_negate(0), 0x8000_0000_0000_0000);
    assert!(number_less(0xbff0_0000_0000_0000, 0x3ff0_0000_0000_0000));
    assert!(!number_less(0x8000_0000_0000_0000, 0));
    assert!(number_equals(0x8000_0000_0000_0000, 0));
    assert!(!number_equals(0x7ff8_0000_0000_0000, 0x7ff8_0000_0000_0000));
}

#[test]
fn only_nil_and_false_are_falsy() {
    assert!(Value::Nil.is_falsey());
    assert!(Value::Boolean(false).is_falsey());
    assert!(!Value::Boolean(true).is_falsey());
    assert!(!Value::Number(0.0f64.to_bits()).is_falsey());
    assert!(!Value::Number(f64::NAN.to_bits()).is_falsey());
    assert!(!Value::string("").is_falsey());
    assert!(!Value::string("false").is_falsey());
}

#[test]
fn equality_is_reflexive() {
    let values = vec![
        Value::Nil,
        Value::Boolean(true),
        Value::Boolean(false),
        Value::Number(1.5f64.to_bits()),
        Value::Number(0.0f64.to_bits()),
        Value::Number(f64::INFINITY.to_bits()),
        Value::Number(f64::NAN.to_bits()),
        Value::Number(0xfff8_0000_0000_0123),
        Value::string(""),
        Value::string("abc"),
    ];
    for value in &values {
        assert!(value == value);
        assert!(*value == value.clone());
    }
}

#[test]
fn numbers_are_equal_when_they_are_the_same_or_numerically_equal() {
    let nan = f64::NAN.to_bits();
    assert!(Value::Number(nan) == Value::Number(nan));
    assert!(Value::Number(nan) != Value::Number(nan ^ 1));
    assert!(Value::Number(nan) != Value::Number(1.0f64.to_bits()));
    assert!(Value::Number(0.0f64.to_bits()) == Value::Number((-0.0f64).to_bits()));
    assert!(Value::Number(1.0f64.to_bits()) != Value::Number(2.0f64.to_bits()));
}

#[test]
fn equality_is_symmetric_and_false_across_variants() {
    let values = vec![
        Value::Nil,
        Value::Boolean(true),
        Value::Boolean(false),
        Value::Number(1.0f64.to_bits()),
        Value::Number(0.0f64.to_bits()),
        Value::Number((-0.0f64).to_bits()),
        Value::Number(f64::NAN.to_bits()),
        Value::string(""),
        Value::string("1"),
        Value::string("nil"),
    ];
    let variant = |v: &Value| match v {
        Value::Nil => 0,
        Value::Boolean(_) => 1,
        Value::Number(_) => 2,
        Value::Obj(_) => 3,
    };
    for a in &values {
        for b in &values {
            assert_eq!(a == b, b == a);
            if variant(a) != variant(b) {
                assert!(a != b);
            }
        }
    }
    assert!(Value::Number(0.0f64.to_bits()) == Value::Number((-0.0f64).to_bits()));
    assert!(Value::string("1") != Value::Number(1.0f64.to_bits()));
}

#[test]
fn a_clone_equals_what_it_was_cloned_from() {
    let value = Value::string("shared?");
    let copy = value.clone();
    assert_eq!(value, copy);
    let object = Obj::from("text".to_string());
    assert_eq!(object.clone().as_string(), "text");
}

#[test]
fn display_forms() {
    assert_eq!(Value::Nil.display(), Some("nil".to_string()));
    assert_eq!(Value::Boolean(true).display(), Some("true".to_string()));
    assert_eq!(Value::Boolean(false).display(), Some("false".to_string()));
    assert_eq!(Value::string("a \"b\"").display(), Some("a \"b\"".to_string()));
    assert_eq!(Value::Number(1.0f64.to_bits()).display(), None);
}

#[test]
fn a_value_array_grows_at_its_end() {
    let mut array = ValueArray::new();
    assert_eq!(array.len(), 0);
    array.add(Value::Nil);
    array.add(Value::string("x"));
    assert_eq!(array.len(), 2);
    assert_eq!(array.values[1], Value::string("x"));
}
