use async_graphql_value::Number;
use trustfall_core::input::{convert_number_to_field_value, InputValue, NumberReadings};
use trustfall_core::transparent::TransparentValue;
use trustfall_core::value::{FieldValue, FiniteF64, UtcTimestamp};

fn finite(x: f64) -> FiniteF64 {
    FiniteF64::from_bits(x.to_bits()).unwrap()
}

#[test]
fn test_field_value_into() {
    let test_data: Vec<(FieldValue, FieldValue)> = vec![
        (123i64.into(), FieldValue::Int64(123)),
        (123u64.into(), FieldValue::Uint64(123)),
        (Option::<i64>::Some(123i64).into(), FieldValue::Int64(123)),
        (Option::<u64>::Some(123u64).into(), FieldValue::Uint64(123)),
        (finite(3.15).into(), FieldValue::Float64(finite(3.15))),
        (false.into(), FieldValue::Boolean(false)),
        ("a &str".into(), FieldValue::String("a &str".to_string())),
        (
            "a String".to_string().into(),
            FieldValue::String("a String".to_string()),
        ),
        (
            (&"a &String".to_string()).into(),
            FieldValue::String("a &String".to_string()),
        ),
        (Option::<i64>::None.into(), FieldValue::Null),
        (
            vec![1, 2].into(),
            FieldValue::List(vec![FieldValue::Int64(1), FieldValue::Int64(2)]),
        ),
    ];

    for (actual_value, expected_value) in test_data {
        assert_eq!(actual_value, expected_value);
    }
}

#[test]
fn finite_bits_accept_finite_numbers() {
    assert_eq!(finite(3.15).to_bits(), 3.15f64.to_bits());
    assert_eq!(finite(-0.0).to_bits(), 0x8000_0000_0000_0000);
    assert!(FiniteF64::from_bits(f64::MAX.to_bits()).is_ok());
    assert!(FiniteF64::from_bits(f64::MIN_POSITIVE.to_bits()).is_ok());
}

#[test]
fn finite_bits_reject_infinities_and_nan() {
    let inf = f64::INFINITY.to_bits();
    assert_eq!(
        FiniteF64::from_bits(inf).unwrap_err(),
        (inf, "not a finite (non-infinite, not-NaN) value")
    );
    let neg = f64::NEG_INFINITY.to_bits();
    assert_eq!(FiniteF64::from_bits(neg).unwrap_err().0, neg);
    let nan = f64::NAN.to_bits();
    assert_eq!(FiniteF64::from_bits(nan).unwrap_err().0, nan);
    assert!(FiniteF64::from_bits(0x7ff0_0000_0000_0001).is_err());
}

#[test]
fn float_equality_is_numeric() {
    assert_eq!(FieldValue::Float64(finite(0.0)), FieldValue::Float64(finite(-0.0)));
    assert_eq!(FieldValue::Float64(finite(1.5)), FieldValue::Float64(finite(1.5)));
    assert_ne!(FieldValue::Float64(finite(1.5)), FieldValue::Float64(finite(-1.5)));
    assert!(finite(0.0).equals(&finite(-0.0)));
    assert!(!finite(0.0).equals(&finite(1.0)));
}

#[test]
fn values_of_different_variants_are_unequal() {
    assert_ne!(FieldValue::Int64(1), FieldValue::Uint64(1));
    assert_ne!(FieldValue::String("A".to_string()), FieldValue::Enum("A".to_string()));
    assert_ne!(FieldValue::Null, FieldValue::Boolean(false));
    assert_eq!(FieldValue::Null, FieldValue::Null);
    assert_ne!(FieldValue::Int64(0), FieldValue::Float64(finite(0.0)));
}

#[test]
fn lists_are_equal_item_by_item() {
    let a = FieldValue::List(vec![FieldValue::Int64(1), FieldValue::List(vec![FieldValue::Null])]);
    let b = FieldValue::List(vec![FieldValue::Int64(1), FieldValue::List(vec![FieldValue::Null])]);
    let shorter = FieldValue::List(vec![FieldValue::Int64(1)]);
    let other = FieldValue::List(vec![FieldValue::Int64(1), FieldValue::List(vec![FieldValue::Int64(0)])]);
    assert_eq!(a, b);
    assert_ne!(a, shorter);
    assert_ne!(a, other);
    assert_eq!(a.clone(), a);
}

#[test]
fn as_i64_takes_integers_that_fit() {
    assert_eq!(FieldValue::Int64(-5).as_i64(), Some(-5));
    assert_eq!(FieldValue::Uint64(5).as_i64(), Some(5));
    assert_eq!(FieldValue::Uint64(i64::MAX as u64).as_i64(), Some(i64::MAX));
    assert_eq!(FieldValue::Uint64(i64::MAX as u64 + 1).as_i64(), None);
    assert_eq!(FieldValue::Null.as_i64(), None);
    assert_eq!(FieldValue::String("5".to_string()).as_i64(), None);
    assert_eq!(FieldValue::Float64(finite(5.0)).as_i64(), None);
}

#[test]
fn as_u64_takes_integers_that_fit() {
    assert_eq!(FieldValue::Uint64(u64::MAX).as_u64(), Some(u64::MAX));
    assert_eq!(FieldValue::Int64(7).as_u64(), Some(7));
    assert_eq!(FieldValue::Int64(0).as_u64(), Some(0));
    assert_eq!(FieldValue::Int64(-1).as_u64(), None);
    assert_eq!(FieldValue::Boolean(true).as_u64(), None);
}

#[test]
fn as_usize_takes_integers_that_fit() {
    assert_eq!(FieldValue::Uint64(9).as_usize(), Some(9));
    assert_eq!(FieldValue::Int64(9).as_usize(), Some(9));
    assert_eq!(FieldValue::Int64(-9).as_usize(), None);
    assert_eq!(FieldValue::List(vec![]).as_usize(), None);
}

#[test]
fn as_str_and_as_bool_take_their_variants_only() {
    assert_eq!(FieldValue::String("abc".to_string()).as_str(), Some("abc"));
    assert_eq!(FieldValue::Enum("abc".to_string()).as_str(), None);
    assert_eq!(FieldValue::Boolean(true).as_bool(), Some(true));
    assert_eq!(FieldValue::Int64(1).as_bool(), None);
}

#[test]
fn as_vec_collects_or_gives_up_at_the_first_miss() {
    let list = FieldValue::List(vec![FieldValue::Int64(1), FieldValue::Uint64(2)]);
    assert_eq!(list.as_vec(FieldValue::as_i64), Some(vec![1, 2]));
    let mixed = FieldValue::List(vec![FieldValue::Int64(1), FieldValue::Null, FieldValue::Int64(3)]);
    assert_eq!(mixed.as_vec(FieldValue::as_i64), None);
    assert_eq!(FieldValue::List(vec![]).as_vec(FieldValue::as_str), Some(vec![]));
    assert_eq!(FieldValue::Int64(1).as_vec(FieldValue::as_i64), None);
}

#[test]
fn integers_of_every_width_convert() {
    assert_eq!(FieldValue::from(-1i8), FieldValue::Int64(-1));
    assert_eq!(FieldValue::from(-300i16), FieldValue::Int64(-300));
    assert_eq!(FieldValue::from(i32::MIN), FieldValue::Int64(i32::MIN as i64));
    assert_eq!(FieldValue::from(255u8), FieldValue::Uint64(255));
    assert_eq!(FieldValue::from(65535u16), FieldValue::Uint64(65535));
    assert_eq!(FieldValue::from(u32::MAX), FieldValue::Uint64(u32::MAX as u64));
    assert_eq!(FieldValue::from(UtcTimestamp { seconds: 10, nanoseconds: 5 }),
        FieldValue::DateTimeUtc(UtcTimestamp { seconds: 10, nanoseconds: 5 }));
    assert_eq!(FieldValue::from(vec![Some(1u8), None]),
        FieldValue::List(vec![FieldValue::Uint64(1), FieldValue::Null]));
}

#[test]
fn transparent_values_mirror_field_values() {
    let value = FieldValue::List(vec![
        FieldValue::Null,
        FieldValue::Int64(-1),
        FieldValue::Uint64(1),
        FieldValue::Float64(finite(2.5)),
        FieldValue::String("s".to_string()),
        FieldValue::Boolean(true),
        FieldValue::DateTimeUtc(UtcTimestamp { seconds: 1, nanoseconds: 2 }),
        FieldValue::Enum("E".to_string()),
        FieldValue::List(vec![FieldValue::Int64(3)]),
    ]);
    let transparent: TransparentValue = value.clone().into();
    match &transparent {
        TransparentValue::List(items) => {
            assert_eq!(items.len(), 9);
            assert!(matches!(items[0], TransparentValue::Null));
            assert!(matches!(items[1], TransparentValue::Int64(-1)));
            assert!(matches!(items[2], TransparentValue::Uint64(1)));
            assert!(matches!(items[5], TransparentValue::Boolean(true)));
        }
        _ => panic!("a list stays a list"),
    }
    let back: FieldValue = transparent.into();
    assert_eq!(back, value);
}

#[test]
fn numbers_prefer_exact_integers() {
    assert_eq!(
        convert_number_to_field_value(&Number::from(123i64)),
        Ok(FieldValue::Int64(123))
    );
    assert_eq!(
        convert_number_to_field_value(&Number::from(-7i64)),
        Ok(FieldValue::Int64(-7))
    );
    assert_eq!(
        convert_number_to_field_value(&Number::from(u64::MAX)),
        Ok(FieldValue::Uint64(u64::MAX))
    );
    assert_eq!(
        convert_number_to_field_value(&Number::from_f64(2.5).unwrap()),
        Ok(FieldValue::Float64(finite(2.5)))
    );
}

#[test]
fn number_readings_come_from_the_number() {
    let small = NumberReadings::of(&Number::from(5u64));
    assert_eq!(small.as_i64, Some(5));
    assert_eq!(small.as_u64, Some(5));
    assert_eq!(small.as_float_bits, Some(5.0f64.to_bits()));
    let negative = NumberReadings::of(&Number::from(-5i64));
    assert_eq!(negative.as_i64, Some(-5));
    assert_eq!(negative.as_u64, None);
    let float = NumberReadings::of(&Number::from_f64(0.5).unwrap());
    assert_eq!(float.as_i64, None);
    assert_eq!(float.as_u64, None);
    assert_eq!(float.as_float_bits, Some(0.5f64.to_bits()));
}

#[test]
fn number_readings_choose_in_order() {
    let all = NumberReadings { as_i64: Some(1), as_u64: Some(2), as_float_bits: Some(3.0f64.to_bits()) };
    assert_eq!(all.to_field_value(), Ok(FieldValue::Int64(1)));
    let unsigned = NumberReadings { as_i64: None, as_u64: Some(2), as_float_bits: Some(3.0f64.to_bits()) };
    assert_eq!(unsigned.to_field_value(), Ok(FieldValue::Uint64(2)));
    let float = NumberReadings { as_i64: None, as_u64: None, as_float_bits: Some(3.0f64.to_bits()) };
    assert_eq!(float.to_field_value(), Ok(FieldValue::Float64(finite(3.0))));
    let infinite = NumberReadings { as_i64: None, as_u64: None, as_float_bits: Some(f64::INFINITY.to_bits()) };
    assert_eq!(
        infinite.to_field_value(),
        Err("not a finite (non-infinite, not-NaN) value".to_string())
    );
    let nothing = NumberReadings { as_i64: None, as_u64: None, as_float_bits: None };
    assert_eq!(
        nothing.to_field_value(),
        Err("not a number of any supported type".to_string())
    );
}

#[test]
fn literals_convert_to_field_values() {
    let number = InputValue::Number(NumberReadings::of(&Number::from(4i64)));
    assert_eq!(FieldValue::try_from(InputValue::Null), Ok(FieldValue::Null));
    assert_eq!(FieldValue::try_from(number), Ok(FieldValue::Int64(4)));
    assert_eq!(
        FieldValue::try_from(InputValue::String("x".to_string())),
        Ok(FieldValue::String("x".to_string()))
    );
    assert_eq!(FieldValue::try_from(InputValue::Boolean(true)), Ok(FieldValue::Boolean(true)));
    assert_eq!(
        FieldValue::try_from(InputValue::Enum("RED".to_string())),
        Ok(FieldValue::Enum("RED".to_string()))
    );
    let list = InputValue::List(vec![
        InputValue::Null,
        InputValue::List(vec![InputValue::Boolean(false)]),
    ]);
    assert_eq!(
        FieldValue::try_from(list),
        Ok(FieldValue::List(vec![
            FieldValue::Null,
            FieldValue::List(vec![FieldValue::Boolean(false)]),
        ]))
    );
}

#[test]
fn unsupported_literals_are_rejected() {
    assert_eq!(
        FieldValue::try_from(InputValue::Binary(vec![1, 2])),
        Err("Binary values are not supported".to_string())
    );
    assert_eq!(
        FieldValue::try_from(InputValue::Variable("v".to_string())),
        Err("Cannot use a variable reference".to_string())
    );
    assert_eq!(
        FieldValue::try_from(InputValue::Object(vec![("k".to_string(), InputValue::Null)])),
        Err("Object values are not supported".to_string())
    );
}

#[test]
fn a_list_fails_with_its_first_error() {
    let list = InputValue::List(vec![
        InputValue::Boolean(true),
        InputValue::Variable("v".to_string()),
        InputValue::Binary(vec![]),
    ]);
    assert_eq!(list.to_field_value(), Err("Cannot use a variable reference".to_string()));
    let nested = InputValue::List(vec![
        InputValue::List(vec![InputValue::Object(vec![])]),
        InputValue::Variable("v".to_string()),
    ]);
    assert_eq!(nested.to_field_value(), Err("Object values are not supported".to_string()));
}

fn total<T: AsRef<FieldValue>>(items: &[T]) -> i64 {
    items.iter().filter_map(|item| item.as_ref().as_i64()).sum()
}

#[test]
fn a_value_stands_for_itself_by_reference() {
    let values = vec![FieldValue::Int64(3), FieldValue::Null, FieldValue::Uint64(4)];
    assert_eq!(total(&values), 7);
    let text = FieldValue::String("x".to_string());
    assert_eq!(AsRef::<FieldValue>::as_ref(&text), &text);
}
