use rs_mock_server::criteria::{Comparer, Criteria as Constraint};
use rs_mock_server::json_value::{Json, JsonNumber};
use rs_mock_server::memory_db::criteria::{Criteria, Operator};
use rs_mock_server::memory_db::criteria_builder::CriteriaBuilder;
use serde_json::Value;

fn to_json(v: &Value) -> Json {
    match v {
        Value::Null => Json::Null,
        Value::Bool(b) => Json::Bool(*b),
        Value::Number(n) => Json::Number(JsonNumber { text: n.to_string(), unsigned: n.as_u64() }),
        Value::String(s) => Json::Str(s.clone()),
        Value::Array(items) => Json::Array(items.iter().map(to_json).collect()),
        Value::Object(map) => Json::Object(map.iter().map(|(k, v)| (k.clone(), to_json(v))).collect()),
    }
}

fn to_value(j: &Json) -> Value {
    match j {
        Json::Null => Value::Null,
        Json::Bool(b) => Value::Bool(*b),
        Json::Number(n) => serde_json::from_str(&n.text).unwrap(),
        Json::Str(s) => Value::String(s.clone()),
        Json::Array(items) => Value::Array(items.iter().map(to_value).collect()),
        Json::Object(fields) => {
            Value::Object(fields.iter().map(|(k, v)| (k.clone(), to_value(v))).collect())
        },
    }
}

/// A serde_json value written as JSON text.
fn v(text: &str) -> Value {
    serde_json::from_str::<Value>(text).unwrap()
}

/// The constraint `field = value`.
fn equal(field: &str, value: &str) -> Criteria {
    Criteria::Final(Constraint {
        field: field.to_string(),
        comparer: Comparer::Equal,
        value: to_json(&v(value)),
    })
}

fn join(a: Criteria, op: Operator, b: Criteria) -> Criteria {
    Criteria::LeftAndRight(Box::new(a), op, Box::new(b))
}

fn item(fields: &[(&str, &str)]) -> Vec<(String, Json)> {
    fields.iter().map(|(k, t)| (k.to_string(), to_json(&v(t)))).collect()
}

/// The constraint of a leaf, or a panic.
fn leaf(c: &Criteria) -> &Constraint {
    match c {
        Criteria::Final(k) => k,
        _ => panic!("Expected Final criteria, got {:?}", c),
    }
}

fn check_leaf(c: &Criteria, field: &str, comparer: Comparer, value: &str) {
    let k = leaf(c);
    assert_eq!(k.field, field);
    assert_eq!(k.comparer, comparer);
    assert_eq!(to_value(&k.value), v(value));
}

#[test]
fn test_criteria_compare_item_and_parentheses_or() {
    // WHERE A = 1 AND (B = 2 OR B = 3)
    let or_b = join(equal("B", "2"), Operator::Or, equal("B", "3"));
    let paren_or_b = Criteria::Parentheses(Box::new(or_b));
    let and_criteria = join(equal("A", "1"), Operator::And, paren_or_b);

    assert!(and_criteria.compare_item(&item(&[("A", "1"), ("B", "2")])));
    assert!(and_criteria.compare_item(&item(&[("A", "1"), ("B", "3")])));
    assert!(!and_criteria.compare_item(&item(&[("A", "1"), ("B", "4")])));
    assert!(!and_criteria.compare_item(&item(&[("A", "2"), ("B", "2")])));
    assert!(!and_criteria.compare_item(&item(&[("A", "2"), ("B", "3")])));
}

#[test]
fn test_criteria_compare_item_final() {
    let criteria = equal("age", "30");
    assert!(criteria.compare_item(&item(&[("age", "30")])));
    assert!(!criteria.compare_item(&item(&[("age", "25")])));
}

#[test]
fn test_criteria_compare_item_left_and_right() {
    let and_criteria = join(equal("a", "1"), Operator::And, equal("b", "2"));
    let or_criteria = join(equal("a", "1"), Operator::Or, equal("b", "2"));

    let it = item(&[("a", "1"), ("b", "2")]);
    assert!(and_criteria.compare_item(&it));
    assert!(or_criteria.compare_item(&it));

    let it = item(&[("a", "1"), ("b", "3")]);
    assert!(!and_criteria.compare_item(&it));
    assert!(or_criteria.compare_item(&it));

    let it = item(&[("a", "0"), ("b", "2")]);
    assert!(!and_criteria.compare_item(&it));
    assert!(or_criteria.compare_item(&it));

    let it = item(&[("a", "0"), ("b", "3")]);
    assert!(!and_criteria.compare_item(&it));
    assert!(!or_criteria.compare_item(&it));
}

#[test]
fn test_criteria_compare_item_parentheses() {
    let paren_criteria = Criteria::Parentheses(Box::new(equal("x", "42")));
    assert!(paren_criteria.compare_item(&item(&[("x", "42")])));
    assert!(!paren_criteria.compare_item(&item(&[("x", "0")])));
}

#[test]
fn test_criteria_compare_item_nested_and_or() {
    // ((a = 1 AND b = 2) OR (c = 3 AND d = 4))
    let and1 = join(equal("a", "1"), Operator::And, equal("b", "2"));
    let and2 = join(equal("c", "3"), Operator::And, equal("d", "4"));
    let or_nested = join(and1, Operator::Or, and2);

    assert!(or_nested.compare_item(&item(&[("a", "1"), ("b", "2"), ("c", "0"), ("d", "0")])));
    assert!(or_nested.compare_item(&item(&[("a", "0"), ("b", "0"), ("c", "3"), ("d", "4")])));
    assert!(or_nested.compare_item(&item(&[("a", "1"), ("b", "0"), ("c", "3"), ("d", "4")])));
    assert!(or_nested.compare_item(&item(&[("a", "1"), ("b", "2"), ("c", "3"), ("d", "0")])));
    assert!(!or_nested.compare_item(&item(&[("a", "0"), ("b", "0"), ("c", "0"), ("d", "0")])));
}

#[test]
fn test_criteria_compare_item_deep_parentheses() {
    // (((a = 1 AND b = 2) OR c = 3) AND (d = 4 OR e = 5))
    let and_ab = join(equal("a", "1"), Operator::And, equal("b", "2"));
    let or_ab_c = join(and_ab, Operator::Or, equal("c", "3"));
    let or_de = join(equal("d", "4"), Operator::Or, equal("e", "5"));
    let top = join(or_ab_c, Operator::And, or_de);

    let row = |a: &str, b: &str, c: &str, d: &str, e: &str| {
        item(&[("a", a), ("b", b), ("c", c), ("d", d), ("e", e)])
    };
    assert!(top.compare_item(&row("1", "2", "0", "4", "0")));
    assert!(top.compare_item(&row("0", "0", "3", "0", "5")));
    assert!(top.compare_item(&row("1", "2", "0", "0", "5")));
    assert!(top.compare_item(&row("0", "0", "3", "4", "0")));
    assert!(!top.compare_item(&row("0", "0", "0", "0", "0")));
}

#[test]
fn missing_fields_fail_their_constraint() {
    let criteria = join(equal("a", "1"), Operator::Or, equal("b", "2"));
    assert!(!criteria.compare_item(&item(&[("c", "1")])));
    assert!(criteria.compare_item(&item(&[("b", "2")])));
}

#[test]
fn test_start_simple_where_clause() {
    let criteria = CriteriaBuilder::start("WHERE a = 1").unwrap();
    check_leaf(&criteria, "a", Comparer::Equal, "1");
}

#[test]
fn test_start_where_clause_with_string() {
    let criteria = CriteriaBuilder::start("WHERE name = \"John\"").unwrap();
    check_leaf(&criteria, "name", Comparer::Equal, "\"John\"");
}

#[test]
fn test_start_where_clause_with_and() {
    let criteria = CriteriaBuilder::start("WHERE a = 1 AND b = 2").unwrap();
    match criteria.as_ref() {
        Criteria::LeftAndRight(left, op, right) => {
            assert_eq!(*op, Operator::And);
            check_leaf(left, "a", Comparer::Equal, "1");
            check_leaf(right, "b", Comparer::Equal, "2");
        },
        _ => panic!("Expected LeftAndRight criteria, got {:?}", criteria),
    }
}

#[test]
fn test_start_where_clause_with_or() {
    let criteria = CriteriaBuilder::start("WHERE a = 1 OR b = 2").unwrap();
    match criteria.as_ref() {
        Criteria::LeftAndRight(left, op, right) => {
            assert_eq!(*op, Operator::Or);
            check_leaf(left, "a", Comparer::Equal, "1");
            check_leaf(right, "b", Comparer::Equal, "2");
        },
        _ => panic!("Expected LeftAndRight criteria, got {:?}", criteria),
    }
}

#[test]
fn test_start_where_clause_with_parentheses() {
    let criteria = CriteriaBuilder::start("WHERE a = 1 AND (b = 2 OR c = 3)").unwrap();
    match criteria.as_ref() {
        Criteria::LeftAndRight(left, op, right) => {
            assert_eq!(*op, Operator::And);
            check_leaf(left, "a", Comparer::Equal, "1");
            match right.as_ref() {
                Criteria::Parentheses(inner) => match inner.as_ref() {
                    Criteria::LeftAndRight(inner_left, inner_op, inner_right) => {
                        assert_eq!(*inner_op, Operator::Or);
                        check_leaf(inner_left, "b", Comparer::Equal, "2");
                        check_leaf(inner_right, "c", Comparer::Equal, "3");
                    },
                    _ => panic!("Expected LeftAndRight criteria inside parentheses, got {:?}", inner),
                },
                _ => panic!("Expected Parentheses criteria on right, got {:?}", right),
            }
        },
        _ => panic!("Expected LeftAndRight criteria, got {:?}", criteria),
    }
}

#[test]
fn test_start_invalid_where_clause() {
    let result = CriteriaBuilder::start("WHERE");
    assert!(result.is_err());
    let result = CriteriaBuilder::start("WHERE invalid");
    assert!(result.is_err());
}

#[test]
fn short_clauses_are_refused_with_a_message() {
    assert_eq!(
        CriteriaBuilder::start("WHERE ").unwrap_err(),
        "Invalid WHERE clause: too short"
    );
}

#[test]
fn test_build_simple_constraint() {
    let criteria = CriteriaBuilder::build("age > 25").unwrap();
    check_leaf(&criteria, "age", Comparer::GreaterThan, "25");
}

#[test]
fn test_build_with_different_operators() {
    let criteria = CriteriaBuilder::build("score <= 100").unwrap();
    check_leaf(&criteria, "score", Comparer::LessThanOrEqual, "100");

    let criteria = CriteriaBuilder::build("email LIKE \"%@gmail.com\"").unwrap();
    check_leaf(&criteria, "email", Comparer::Like, "\"%@gmail.com\"");
}

#[test]
fn test_build_with_null_checks() {
    let criteria = CriteriaBuilder::build("optional IS NULL").unwrap();
    check_leaf(&criteria, "optional", Comparer::IsNull, "null");

    let criteria = CriteriaBuilder::build("required IS NOT NULL").unwrap();
    check_leaf(&criteria, "required", Comparer::IsNotNull, "null");
}

#[test]
fn test_build_with_case_insensitive_operators() {
    let criteria = CriteriaBuilder::build("a = 1 and b = 2").unwrap();
    match criteria.as_ref() {
        Criteria::LeftAndRight(_, op, _) => assert_eq!(*op, Operator::And),
        _ => panic!("Expected LeftAndRight criteria, got {:?}", criteria),
    }

    let criteria = CriteriaBuilder::build("a = 1 Or b = 2").unwrap();
    match criteria.as_ref() {
        Criteria::LeftAndRight(_, op, _) => assert_eq!(*op, Operator::Or),
        _ => panic!("Expected LeftAndRight criteria, got {:?}", criteria),
    }
}

#[test]
fn test_build_complex_nested_criteria() {
    // ((a = 1 AND b = 2) OR c = 3): the rightmost operator splits first.
    let criteria = CriteriaBuilder::build("a = 1 AND b = 2 OR c = 3").unwrap();
    match criteria.as_ref() {
        Criteria::LeftAndRight(left, op, right) => {
            assert_eq!(*op, Operator::Or);
            match left.as_ref() {
                Criteria::LeftAndRight(inner_left, inner_op, inner_right) => {
                    assert_eq!(*inner_op, Operator::And);
                    check_leaf(inner_left, "a", Comparer::Equal, "1");
                    check_leaf(inner_right, "b", Comparer::Equal, "2");
                },
                _ => panic!("Expected LeftAndRight criteria on left, got {:?}", left),
            }
            check_leaf(right, "c", Comparer::Equal, "3");
        },
        _ => panic!("Expected LeftAndRight criteria, got {:?}", criteria),
    }
}

#[test]
fn test_build_with_boolean_values() {
    let criteria = CriteriaBuilder::build("active = true").unwrap();
    check_leaf(&criteria, "active", Comparer::Equal, "true");

    let criteria = CriteriaBuilder::build("disabled != false").unwrap();
    check_leaf(&criteria, "disabled", Comparer::Different, "false");
}

#[test]
fn test_build_with_numeric_values() {
    let criteria = CriteriaBuilder::build("count = 42").unwrap();
    check_leaf(&criteria, "count", Comparer::Equal, "42");

    let criteria = CriteriaBuilder::build("price >= 99.99").unwrap();
    check_leaf(&criteria, "price", Comparer::GreaterThanOrEqual, "99.99");
    assert_eq!(to_value(&leaf(&criteria).value), Value::from(99.99));

    let criteria = CriteriaBuilder::build("temperature < -10").unwrap();
    check_leaf(&criteria, "temperature", Comparer::LessThan, "-10");
}

#[test]
fn test_build_invalid_constraints() {
    assert!(CriteriaBuilder::build("invalid").is_err());
    assert!(CriteriaBuilder::build("field == value").is_err());
    assert!(CriteriaBuilder::build("a = 1 INVALID b = 2").is_err());
}

#[test]
fn invalid_keyword_message_quotes_the_trimmed_clause() {
    assert_eq!(
        CriteriaBuilder::build("  a = 1 INVALID b = 2 ").unwrap_err(),
        "Invalid operator 'INVALID' found in: 'a = 1 INVALID b = 2'"
    );
}

#[test]
fn test_start_removes_where_prefix() {
    let criteria1 = CriteriaBuilder::start("WHERE name = \"test\"").unwrap();
    let criteria2 = CriteriaBuilder::build("name = \"test\"").unwrap();
    assert_eq!(format!("{:?}", criteria1), format!("{:?}", criteria2));
}

#[test]
fn test_build_with_quoted_multi_word_values() {
    let criteria = CriteriaBuilder::build("name = \"John Doe\"").unwrap();
    check_leaf(&criteria, "name", Comparer::Equal, "\"John Doe\"");

    let criteria = CriteriaBuilder::build("description LIKE \"hello world\"").unwrap();
    check_leaf(&criteria, "description", Comparer::Like, "\"hello world\"");
}

#[test]
fn outer_parentheses_are_kept_as_a_group() {
    let criteria = CriteriaBuilder::build(" (a = 1) ").unwrap();
    match criteria.as_ref() {
        Criteria::Parentheses(inner) => check_leaf(inner, "a", Comparer::Equal, "1"),
        _ => panic!("Expected Parentheses criteria, got {:?}", criteria),
    }
}

#[test]
fn checked_readers_answer_like_the_plain_ones() {
    let a = CriteriaBuilder::build_checked("a = 1 AND b = 2").unwrap().unwrap();
    let b = CriteriaBuilder::build("a = 1 AND b = 2").unwrap();
    assert_eq!(format!("{:?}", a), format!("{:?}", b));
    let c = CriteriaBuilder::start_checked("WHERE a = 1").unwrap().unwrap();
    check_leaf(&c, "a", Comparer::Equal, "1");
    assert!(CriteriaBuilder::start_checked("WHERE").unwrap().is_err());
}

#[test]
fn built_criteria_filter_items() {
    let criteria = CriteriaBuilder::start("WHERE a = 1 AND (b = 2 OR b = 3)").unwrap();
    assert!(criteria.compare_item(&item(&[("a", "1"), ("b", "3")])));
    assert!(!criteria.compare_item(&item(&[("a", "1"), ("b", "4")])));
}

#[test]
fn start_reads_what_build_reads_after_six_bytes() {
    for clause in ["WHERE name = 'test'", "xxxxx a = 1 AND b = 2", "WHERE (a = 1)", "WHERE é = 1"] {
        let started = CriteriaBuilder::start_checked(clause);
        let built = CriteriaBuilder::build_checked(&clause[6..]);
        assert_eq!(format!("{:?}", started), format!("{:?}", built), "{}", clause);
    }
    assert_eq!(
        CriteriaBuilder::start_checked("WHERE").unwrap().unwrap_err(),
        "Invalid WHERE clause: too short"
    );
    // The sixth byte falls inside a character.
    assert!(CriteriaBuilder::start_checked("WHEREé a = 1").is_none());
}
