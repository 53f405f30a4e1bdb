use aojia::error::BridgeError;
use aojia::value::{GenericValue, ValueTag};

#[test]
fn int_to_text_is_decimal() {
    let v = GenericValue::from_i32(42);
    assert_eq!(v.to_string(), Ok("42".to_string()));
    let n = GenericValue::from_i64(-9000000000);
    assert_eq!(n.to_string(), Ok("-9000000000".to_string()));
}

#[test]
fn int_to_bool_is_nonzero() {
    assert_eq!(GenericValue::from_i32(0).to_bool(), Ok(false));
    assert_eq!(GenericValue::from_i32(7).to_bool(), Ok(true));
    assert_eq!(GenericValue::from_i32(-1).to_bool(), Ok(true));
}

#[test]
fn same_tag_coerces_to_itself() {
    let values = vec![
        GenericValue::Empty,
        GenericValue::from_i32(-5),
        GenericValue::from_i64(1 << 40),
        GenericValue::from_bool(true),
        GenericValue::from_str("héllo"),
        GenericValue::by_ref(3),
    ];
    for v in &values {
        let c = v.coerce_to(v.tag()).unwrap();
        assert_eq!(&c, v);
    }
}

#[test]
fn bool_reads_as_minus_one_or_zero() {
    assert_eq!(GenericValue::from_bool(true).to_i32(), Ok(-1));
    assert_eq!(GenericValue::from_bool(false).to_i64(), Ok(0));
    assert_eq!(GenericValue::from_bool(true).to_string(), Ok("-1".to_string()));
}

#[test]
fn empty_reads_as_zero_and_empty_text() {
    assert_eq!(GenericValue::Empty.to_i32(), Ok(0));
    assert_eq!(GenericValue::Empty.to_bool(), Ok(false));
    assert_eq!(GenericValue::Empty.to_string(), Ok(String::new()));
}

#[test]
fn text_parses_as_signed_decimal() {
    assert_eq!(GenericValue::from_str("123").to_i32(), Ok(123));
    assert_eq!(GenericValue::from_str("-17").to_i64(), Ok(-17));
    assert_eq!(GenericValue::from_str("+8").to_i32(), Ok(8));
    assert_eq!(GenericValue::from_str("0").to_bool(), Ok(false));
    assert_eq!(GenericValue::from_str("12").to_bool(), Ok(true));
}

#[test]
fn malformed_text_fails_to_coerce() {
    let bad = ["", "-", "12a", " 5", "abc"];
    for s in bad.iter() {
        assert_eq!(
            GenericValue::from_str(s).to_i32(),
            Err(BridgeError::Coercion { from: ValueTag::Text, to: ValueTag::Int32 })
        );
    }
}

#[test]
fn narrowing_out_of_range_fails() {
    let big = GenericValue::from_i64(1 << 40);
    assert_eq!(
        big.to_i32(),
        Err(BridgeError::Coercion { from: ValueTag::Int64, to: ValueTag::Int32 })
    );
    assert_eq!(GenericValue::from_i64(-2147483648).to_i32(), Ok(i32::MIN));
    assert!(GenericValue::from_str("99999999999999999999").to_i64().is_err());
}

#[test]
fn widening_keeps_the_number() {
    assert_eq!(GenericValue::from_i32(i32::MAX).to_i64(), Ok(i32::MAX as i64));
    let w = GenericValue::from_i32(-3).coerce_to(ValueTag::Int64).unwrap();
    assert_eq!(w, GenericValue::Int64(-3));
}

#[test]
fn reference_does_not_coerce() {
    let r = GenericValue::by_ref(0);
    assert_eq!(
        r.to_string(),
        Err(BridgeError::Coercion { from: ValueTag::ByRef, to: ValueTag::Text })
    );
    assert!(r.coerce_to(ValueTag::Empty).is_err());
    assert!(GenericValue::from_i32(1).coerce_to(ValueTag::ByRef).is_err());
}

#[test]
fn anything_but_a_reference_clears_to_empty() {
    let v = GenericValue::from_str("x").coerce_to(ValueTag::Empty).unwrap();
    assert_eq!(v, GenericValue::Empty);
}
