use rs_mock_server::criteria::{
    compare_like, parse_value, validate_for_different, validate_for_equal,
    validate_for_greater_or_less_than, validate_for_like, Comparer, Criteria,
};
use rs_mock_server::json_value::{Json, JsonNumber};
use serde_json::Value;

fn to_json(v: &Value) -> Json {
    match v {
        Value::Null => Json::Null,
        Value::Bool(b) => Json::Bool(*b),
        Value::Number(n) => Json::Number(JsonNumber { text: n.to_string(), unsigned: n.as_u64() }),
        Value::String(s) => Json::Str(s.clone()),
        Value::Array(items) => Json::Array(items.iter().map(to_json).collect()),
        Value::Object(map) => Json::Object(map.iter().map(|(k, v)| (k.clone(), to_json(v))).collect()),
    }
}

fn to_value(j: &Json) -> Value {
    match j {
        Json::Null => Value::Null,
        Json::Bool(b) => Value::Bool(*b),
        Json::Number(n) => serde_json::from_str(&n.text).unwrap(),
        Json::Str(s) => Value::String(s.clone()),
        Json::Array(items) => Value::Array(items.iter().map(to_value).collect()),
        Json::Object(fields) => {
            Value::Object(fields.iter().map(|(k, v)| (k.clone(), to_value(v))).collect())
        },
    }
}

/// A JSON value written as JSON text.
fn j(text: &str) -> Json {
    to_json(&serde_json::from_str::<Value>(text).unwrap())
}

/// A serde_json value written as JSON text.
fn v(text: &str) -> Value {
    serde_json::from_str::<Value>(text).unwrap()
}

fn item(fields: &[(&str, &str)]) -> Vec<(String, Json)> {
    fields.iter().map(|(k, t)| (k.to_string(), j(t))).collect()
}

fn set(item: &mut Vec<(String, Json)>, key: &str, text: &str) {
    match item.iter().position(|(k, _)| k == key) {
        Some(i) => item[i].1 = j(text),
        None => item.push((key.to_string(), j(text))),
    }
}

#[test]
fn test_criteria_try_new_valid_equal() {
    let criteria = Criteria::try_new("name".to_string(), Comparer::Equal, Some(j(r#""John""#)));
    assert!(criteria.is_ok());
    let criteria = criteria.unwrap();
    assert_eq!(criteria.field, "name");
    assert_eq!(criteria.comparer, Comparer::Equal);
    assert_eq!(to_value(&criteria.value), v(r#""John""#));
}

#[test]
fn test_criteria_try_new_valid_different() {
    let criteria = Criteria::try_new("age".to_string(), Comparer::Different, Some(j("25")));
    assert!(criteria.is_ok());
}

#[test]
fn test_criteria_try_new_valid_numeric_comparisons() {
    let criteria = Criteria::try_new("score".to_string(), Comparer::GreaterThan, Some(j("100")));
    assert!(criteria.is_ok());
    let criteria = Criteria::try_new("score".to_string(), Comparer::LessThanOrEqual, Some(j("50.5")));
    assert!(criteria.is_ok());
}

#[test]
fn test_criteria_try_new_valid_like() {
    let criteria = Criteria::try_new("email".to_string(), Comparer::Like, Some(j(r#""%@gmail.com""#)));
    assert!(criteria.is_ok());
}

#[test]
fn test_criteria_try_new_valid_null_checks() {
    let criteria = Criteria::try_new("optional_field".to_string(), Comparer::IsNull, None);
    assert!(criteria.is_ok());
    let criteria = Criteria::try_new("required_field".to_string(), Comparer::IsNotNull, None);
    assert!(criteria.is_ok());
}

#[test]
fn test_criteria_try_new_invalid_equal_with_array() {
    let criteria = Criteria::try_new("tags".to_string(), Comparer::Equal, Some(j(r#"["tag1", "tag2"]"#)));
    assert!(criteria.is_err());
}

#[test]
fn test_criteria_try_new_invalid_greater_than_with_string() {
    let criteria = Criteria::try_new("name".to_string(), Comparer::GreaterThan, Some(j(r#""John""#)));
    assert!(criteria.is_err());
}

#[test]
fn test_criteria_try_new_invalid_like_with_number() {
    let criteria = Criteria::try_new("age".to_string(), Comparer::Like, Some(j("25")));
    assert!(criteria.is_err());
}

#[test]
fn test_criteria_try_new_invalid_null_checks_with_value() {
    let criteria = Criteria::try_new("field".to_string(), Comparer::IsNull, Some(j(r#""value""#)));
    assert!(criteria.is_err());
    let criteria = Criteria::try_new("field".to_string(), Comparer::IsNotNull, Some(j(r#""value""#)));
    assert!(criteria.is_err());
}

#[test]
fn test_criteria_compare_with_equal() {
    let criteria = Criteria::try_new("name".to_string(), Comparer::Equal, Some(j(r#""John""#))).unwrap();
    assert!(criteria.compare_with(&j(r#""John""#)));
    assert!(!criteria.compare_with(&j(r#""Jane""#)));
    assert!(!criteria.compare_with(&j("123")));
}

#[test]
fn test_criteria_compare_with_different() {
    let criteria = Criteria::try_new("name".to_string(), Comparer::Different, Some(j(r#""John""#))).unwrap();
    assert!(!criteria.compare_with(&j(r#""John""#)));
    assert!(criteria.compare_with(&j(r#""Jane""#)));
    assert!(criteria.compare_with(&j("123")));
}

#[test]
fn test_criteria_compare_with_numeric_comparisons() {
    let gt_criteria = Criteria::try_new("age".to_string(), Comparer::GreaterThan, Some(j("25"))).unwrap();
    assert!(gt_criteria.compare_with(&j("30")));
    assert!(!gt_criteria.compare_with(&j("25")));
    assert!(!gt_criteria.compare_with(&j("20")));
    assert!(!gt_criteria.compare_with(&j(r#""25""#)));

    let lte_criteria =
        Criteria::try_new("score".to_string(), Comparer::LessThanOrEqual, Some(j("100.5"))).unwrap();
    assert!(lte_criteria.compare_with(&j("100.5")));
    assert!(lte_criteria.compare_with(&j("99.9")));
    assert!(!lte_criteria.compare_with(&j("101")));
}

#[test]
fn test_criteria_compare_with_like() {
    let criteria = Criteria::try_new("email".to_string(), Comparer::Like, Some(j(r#""%@gmail.com""#))).unwrap();
    assert!(criteria.compare_with(&j(r#""john@gmail.com""#)));
    assert!(criteria.compare_with(&j(r#""user123@gmail.com""#)));
    assert!(!criteria.compare_with(&j(r#""john@yahoo.com""#)));
    assert!(!criteria.compare_with(&j("123")));

    let underscore_criteria = Criteria::try_new("code".to_string(), Comparer::Like, Some(j(r#""A_C""#))).unwrap();
    assert!(underscore_criteria.compare_with(&j(r#""ABC""#)));
    assert!(underscore_criteria.compare_with(&j(r#""A1C""#)));
    assert!(!underscore_criteria.compare_with(&j(r#""ABCC""#)));
    assert!(!underscore_criteria.compare_with(&j(r#""AC""#)));
}

#[test]
fn test_criteria_compare_with_null_checks() {
    let is_null_criteria = Criteria::try_new("optional".to_string(), Comparer::IsNull, None).unwrap();
    assert!(is_null_criteria.compare_with(&j("null")));
    assert!(!is_null_criteria.compare_with(&j(r#""value""#)));
    assert!(!is_null_criteria.compare_with(&j("0")));

    let is_not_null_criteria = Criteria::try_new("required".to_string(), Comparer::IsNotNull, None).unwrap();
    assert!(!is_not_null_criteria.compare_with(&j("null")));
    assert!(is_not_null_criteria.compare_with(&j(r#""value""#)));
    assert!(is_not_null_criteria.compare_with(&j("0")));
    assert!(is_not_null_criteria.compare_with(&j("false")));
}

#[test]
fn test_criteria_compare_item() {
    let criteria = Criteria::try_new("name".to_string(), Comparer::Equal, Some(j(r#""John""#))).unwrap();
    let mut it = item(&[("name", r#""John""#), ("age", "30")]);
    assert!(criteria.compare_item(&it));
    set(&mut it, "name", r#""Jane""#);
    assert!(!criteria.compare_item(&it));
    it.retain(|(k, _)| k != "name");
    assert!(!criteria.compare_item(&it));
}

#[test]
fn test_criteria_compare_item_with_complex_data() {
    let age_criteria =
        Criteria::try_new("age".to_string(), Comparer::GreaterThanOrEqual, Some(j("18"))).unwrap();
    let email_criteria =
        Criteria::try_new("email".to_string(), Comparer::Like, Some(j(r#""%@company.com""#))).unwrap();
    let mut user = item(&[("name", r#""Alice""#), ("age", "25"), ("email", r#""alice@company.com""#)]);
    assert!(age_criteria.compare_item(&user));
    assert!(email_criteria.compare_item(&user));
    set(&mut user, "age", "17");
    assert!(!age_criteria.compare_item(&user));
    set(&mut user, "email", r#""alice@gmail.com""#);
    assert!(!email_criteria.compare_item(&user));
}

#[test]
fn test_compare_like_helper() {
    assert!(compare_like(&j(r#""hello%""#), &j(r#""hello world""#)));
    assert!(compare_like(&j(r#""h_llo""#), &j(r#""hello""#)));
    assert!(!compare_like(&j(r#""hello""#), &j(r#""hello world""#)));
    assert!(!compare_like(&j(r#""hello%""#), &j("123")));
    assert!(!compare_like(&j("123"), &j(r#""hello""#)));

    assert!(compare_like(&j(r#""%test%""#), &j(r#""this is a test case""#)));
    assert!(compare_like(&j(r#""start_%_end""#), &j(r#""start_X_end""#)));
    assert!(compare_like(&j(r#""start_%_end""#), &j(r#""start_XX_end""#)));

    assert!(compare_like(&j(r#""a_c""#), &j(r#""abc""#)));
    assert!(compare_like(&j(r#""a_c""#), &j(r#""a1c""#)));
    assert!(!compare_like(&j(r#""a_c""#), &j(r#""ac""#)));
    assert!(!compare_like(&j(r#""a_c""#), &j(r#""abcc""#)));

    assert!(!compare_like(&j(r#""start_%_end""#), &j(r#""start_end""#)));
    assert!(!compare_like(&j(r#""start_%_end""#), &j(r#""start_en""#)));
}

#[test]
fn test_validation_functions() {
    assert!(validate_for_equal(&Some(j(r#""string""#))));
    assert!(validate_for_equal(&Some(j("123"))));
    assert!(validate_for_equal(&Some(j("true"))));
    assert!(!validate_for_equal(&Some(j("null"))));
    assert!(!validate_for_equal(&Some(j("[1, 2, 3]"))));
    assert!(!validate_for_equal(&Some(j(r#"{"key": "value"}"#))));
    assert!(!validate_for_equal(&None));

    assert!(validate_for_different(&Some(j(r#""string""#))));
    assert!(validate_for_different(&Some(j("123"))));
    assert!(validate_for_different(&Some(j("false"))));
    assert!(!validate_for_different(&Some(j("null"))));
    assert!(!validate_for_different(&Some(j("[1, 2, 3]"))));
    assert!(!validate_for_different(&None));

    assert!(validate_for_greater_or_less_than(&Some(j("123"))));
    assert!(validate_for_greater_or_less_than(&Some(j("45.6"))));
    assert!(!validate_for_greater_or_less_than(&Some(j(r#""string""#))));
    assert!(!validate_for_greater_or_less_than(&Some(j("true"))));
    assert!(!validate_for_greater_or_less_than(&Some(j("null"))));
    assert!(!validate_for_greater_or_less_than(&None));

    assert!(validate_for_like(&Some(j(r#""pattern""#))));
    assert!(!validate_for_like(&Some(j("123"))));
    assert!(!validate_for_like(&Some(j("true"))));
    assert!(!validate_for_like(&Some(j("null"))));
    assert!(!validate_for_like(&Some(j("[1, 2, 3]"))));
    assert!(!validate_for_like(&None));
}

#[test]
fn test_criteria_edge_cases() {
    let criteria = Criteria::try_new("price".to_string(), Comparer::Equal, Some(j("99.99"))).unwrap();
    assert!(criteria.compare_with(&j("99.99")));
    assert!(!criteria.compare_with(&j("99.9900001")));

    let large_num_criteria = Criteria::try_new("value".to_string(), Comparer::LessThan, Some(j("1e10"))).unwrap();
    assert!(large_num_criteria.compare_with(&j("1e9")));
    assert!(!large_num_criteria.compare_with(&j("1e11")));
}

#[test]
fn test_criteria_boolean_comparisons() {
    let criteria = Criteria::try_new("active".to_string(), Comparer::Equal, Some(j("true"))).unwrap();
    assert!(criteria.compare_with(&j("true")));
    assert!(!criteria.compare_with(&j("false")));

    let different_criteria =
        Criteria::try_new("disabled".to_string(), Comparer::Different, Some(j("false"))).unwrap();
    assert!(different_criteria.compare_with(&j("true")));
    assert!(!different_criteria.compare_with(&j("false")));
}

#[test]
fn test_criteria_try_from_simple_equal() {
    let criteria = Criteria::try_from("name = \"John\"").unwrap();
    assert_eq!(criteria.field, "name");
    assert_eq!(criteria.comparer, Comparer::Equal);
    assert_eq!(to_value(&criteria.value), v(r#""John""#));
}

#[test]
fn test_criteria_try_from_numeric_comparisons() {
    let criteria = Criteria::try_from("age > 25").unwrap();
    assert_eq!(criteria.field, "age");
    assert_eq!(criteria.comparer, Comparer::GreaterThan);
    assert_eq!(to_value(&criteria.value), v("25"));

    let criteria = Criteria::try_from("score <= 100.5").unwrap();
    assert_eq!(criteria.field, "score");
    assert_eq!(criteria.comparer, Comparer::LessThanOrEqual);
    assert_eq!(to_value(&criteria.value), v("100.5"));

    let criteria = Criteria::try_from("count >= 0").unwrap();
    assert_eq!(criteria.field, "count");
    assert_eq!(criteria.comparer, Comparer::GreaterThanOrEqual);
    assert_eq!(to_value(&criteria.value), v("0"));
}

#[test]
fn test_criteria_try_from_string_comparisons() {
    let criteria = Criteria::try_from("email LIKE \"pattern\"").unwrap();
    assert_eq!(criteria.field, "email");
    assert_eq!(criteria.comparer, Comparer::Like);
    assert_eq!(to_value(&criteria.value), v(r#""pattern""#));

    let criteria = Criteria::try_from("status != \"active\"").unwrap();
    assert_eq!(criteria.field, "status");
    assert_eq!(criteria.comparer, Comparer::Different);
    assert_eq!(to_value(&criteria.value), v(r#""active""#));

    let criteria = Criteria::try_from("category <> \"old\"").unwrap();
    assert_eq!(criteria.field, "category");
    assert_eq!(criteria.comparer, Comparer::Different);
    assert_eq!(to_value(&criteria.value), v(r#""old""#));
}

#[test]
fn test_criteria_try_from_null_checks() {
    let criteria = Criteria::try_from("phone IS NULL").unwrap();
    assert_eq!(criteria.field, "phone");
    assert_eq!(criteria.comparer, Comparer::IsNull);
    assert_eq!(to_value(&criteria.value), v("null"));

    let criteria = Criteria::try_from("email IS NOT NULL").unwrap();
    assert_eq!(criteria.field, "email");
    assert_eq!(criteria.comparer, Comparer::IsNotNull);
    assert_eq!(to_value(&criteria.value), v("null"));

    let criteria = Criteria::try_from("notes is null").unwrap();
    assert_eq!(criteria.field, "notes");
    assert_eq!(criteria.comparer, Comparer::IsNull);

    let criteria = Criteria::try_from("description is not null").unwrap();
    assert_eq!(criteria.field, "description");
    assert_eq!(criteria.comparer, Comparer::IsNotNull);
}

#[test]
fn test_criteria_try_from_two_parts_only() {
    let criteria = Criteria::try_from("field IS NULL").unwrap();
    assert_eq!(criteria.comparer, Comparer::IsNull);
    assert!(Criteria::try_from("field =").is_err());
    assert!(Criteria::try_from("field >").is_err());
}

#[test]
fn test_criteria_try_from_invalid_formats() {
    assert!(Criteria::try_from("name").is_err());
    assert!(Criteria::try_from("").is_err());

    let criteria = Criteria::try_from("name = \"value extra\"").unwrap();
    assert_eq!(to_value(&criteria.value), v(r#""value extra""#));

    assert!(Criteria::try_from("name == \"value\"").is_err());
    assert!(Criteria::try_from("age === 25").is_err());
    assert!(Criteria::try_from("field INVALID \"value\"").is_err());
}

#[test]
fn test_criteria_try_from_different_operators() {
    let criteria = Criteria::try_from("score < 50").unwrap();
    assert_eq!(criteria.comparer, Comparer::LessThan);
    assert_eq!(to_value(&criteria.value), v("50"));

    let criteria = Criteria::try_from("level >= 5").unwrap();
    assert_eq!(criteria.comparer, Comparer::GreaterThanOrEqual);
    assert_eq!(to_value(&criteria.value), v("5"));

    let criteria = Criteria::try_from("name like \"pattern\"").unwrap();
    assert_eq!(criteria.comparer, Comparer::Like);
    assert_eq!(to_value(&criteria.value), v(r#""pattern""#));
}

#[test]
fn test_criteria_try_from_case_sensitivity() {
    let criteria1 = Criteria::try_from("name LIKE pattern").unwrap();
    let criteria2 = Criteria::try_from("name like pattern").unwrap();
    assert_eq!(criteria1.comparer, criteria2.comparer);
}

#[test]
fn test_criteria_try_from_validation_failures() {
    let result = Criteria::try_from("field INVALID \"value\"");
    assert!(result.is_err());
}

#[test]
fn test_criteria_try_from_boolean_and_null_values() {
    let criteria = Criteria::try_from("active = true").unwrap();
    assert_eq!(criteria.field, "active");
    assert_eq!(criteria.comparer, Comparer::Equal);
    assert_eq!(to_value(&criteria.value), v("true"));

    let criteria = Criteria::try_from("disabled != false").unwrap();
    assert_eq!(criteria.field, "disabled");
    assert_eq!(criteria.comparer, Comparer::Different);
    assert_eq!(to_value(&criteria.value), v("false"));

    assert!(Criteria::try_from("value = null").is_err());
    assert!(Criteria::try_from("value != null").is_err());
}

#[test]
fn test_criteria_try_from_multi_word_values() {
    let criteria = Criteria::try_from("name = \"John Doe\"").unwrap();
    assert_eq!(criteria.field, "name");
    assert_eq!(criteria.comparer, Comparer::Equal);
    assert_eq!(to_value(&criteria.value), v(r#""John Doe""#));

    let criteria = Criteria::try_from("description LIKE \"hello world\"").unwrap();
    assert_eq!(criteria.field, "description");
    assert_eq!(criteria.comparer, Comparer::Like);
    assert_eq!(to_value(&criteria.value), v(r#""hello world""#));
}

#[test]
fn test_criteria_try_from_edge_cases() {
    let criteria = Criteria::try_from("x = 5").unwrap();
    assert_eq!(criteria.field, "x");
    assert_eq!(to_value(&criteria.value), v("5"));

    let criteria = Criteria::try_from("grade = \"A\"").unwrap();
    assert_eq!(to_value(&criteria.value), v(r#""A""#));

    let criteria = Criteria::try_from("temperature < -10").unwrap();
    assert_eq!(to_value(&criteria.value), v("-10"));

    let criteria = Criteria::try_from("price >= 99.99").unwrap();
    assert_eq!(to_value(&criteria.value), v("99.99"));

    let criteria = Criteria::try_from("value > 1e6").unwrap();
    assert_eq!(to_value(&criteria.value), v("1000000.0"));

    let criteria = Criteria::try_from("  name   =   \"John\"  ").unwrap();
    assert_eq!(criteria.field, "name");
    assert_eq!(to_value(&criteria.value), v(r#""John""#));
}

#[test]
fn test_parse_value_helper() {
    assert_eq!(to_value(&parse_value("true")), v("true"));
    assert_eq!(to_value(&parse_value("TRUE")), v("true"));
    assert_eq!(to_value(&parse_value("false")), v("false"));
    assert_eq!(to_value(&parse_value("FALSE")), v("false"));
    assert_eq!(to_value(&parse_value("null")), v("null"));
    assert_eq!(to_value(&parse_value("NULL")), v("null"));

    assert_eq!(to_value(&parse_value("42")), v("42"));
    assert_eq!(to_value(&parse_value("-17")), v("-17"));
    assert_eq!(to_value(&parse_value("3.18")), v("3.18"));
    assert_eq!(to_value(&parse_value("1e6")), v("1000000.0"));

    assert_eq!(to_value(&parse_value("\"hello\"")), v(r#""hello""#));
    assert_eq!(to_value(&parse_value("'world'")), v(r#""world""#));
    assert_eq!(to_value(&parse_value("\"123abc\"")), v(r#""123abc""#));
    assert_eq!(to_value(&parse_value("\"\"")), v(r#""""#));

    assert_eq!(to_value(&parse_value("hello")), v(r#""hello""#));
    assert_eq!(to_value(&parse_value("123abc")), v(r#""123abc""#));
    assert_eq!(to_value(&parse_value("")), v(r#""""#));
}

#[test]
fn float_literals_follow_rust_parsing() {
    assert_eq!(to_value(&parse_value(".5")), v("0.5"));
    assert_eq!(to_value(&parse_value("+2.5")), v("2.5"));
    assert_eq!(to_value(&parse_value("5.")), v("5.0"));
    assert_eq!(to_value(&parse_value("007.25")), v("7.25"));
    assert_eq!(to_value(&parse_value("1E2")), v("100.0"));
    assert_eq!(to_value(&parse_value("99999999999999999999")), v("1e20"));
    assert_eq!(to_value(&parse_value("inf")), v(r#""inf""#));
    assert_eq!(to_value(&parse_value("NaN")), v(r#""NaN""#));
    assert_eq!(to_value(&parse_value("1e400")), v(r#""1e400""#));
    assert_eq!(to_value(&parse_value("1.2.3")), v(r#""1.2.3""#));
    assert_eq!(to_value(&parse_value("-")), v(r#""-""#));
}

#[test]
fn refused_values_are_described_in_debug_form() {
    let err = Criteria::try_new("f".to_string(), Comparer::IsNull, Some(j(r#"{"a": [1, "x"]}"#))).unwrap_err();
    assert_eq!(
        err,
        format!(
            "The value {:?} is not allowed for the comparer IsNull",
            Some(v(r#"{"a": [1, "x"]}"#))
        )
    );
    let err = Criteria::try_new("f".to_string(), Comparer::Like, None).unwrap_err();
    assert_eq!(err, "The value None is not allowed for the comparer Like");
}

#[test]
fn operators_in_other_cases_are_refused() {
    assert_eq!(
        Criteria::try_from("a Is Null").unwrap_err(),
        "Invalid comparer operator: 'Is Null'"
    );
    assert_eq!(
        Criteria::try_from("a IS maybe").unwrap_err(),
        "Invalid operator starting with 'IS' in: 'a IS maybe'"
    );
    assert_eq!(
        Criteria::try_from("a").unwrap_err(),
        "Invalid Criteria: 'a'. Must have at least field and operator"
    );
}
