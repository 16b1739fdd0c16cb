use rs_mock_server::memory_db::collection_config::CollectionConfig;
use rs_mock_server::memory_db::criteria::Operator;
use rs_mock_server::memory_db::criteria_builder::CriteriaBuilder;
use rs_mock_server::memory_db::string_pointer::StringPointer;
use rs_mock_server::id_manager::IdType;

#[test]
fn test_operator_try_from_valid() {
    assert_eq!(Operator::try_from("AND"), Ok(Operator::And));
    assert_eq!(Operator::try_from("and"), Ok(Operator::And));
    assert_eq!(Operator::try_from("Or"), Ok(Operator::Or));
    assert_eq!(Operator::try_from("OR"), Ok(Operator::Or));
}

#[test]
fn test_operator_try_from_invalid() {
    assert!(Operator::try_from("XOR").is_err());
    assert!(Operator::try_from("").is_err());
    assert!(Operator::try_from("ANDOR").is_err());
}

#[test]
fn operator_error_quotes_the_word() {
    assert_eq!(Operator::try_from("xor"), Err("Invalid operator: 'xor'".to_string()));
}

#[test]
fn test_criteria_builder_new() {
    let _builder = CriteriaBuilder::new();
}

#[test]
fn operator_search_finds_the_rightmost_top_level_operator() {
    assert_eq!(CriteriaBuilder::find_operator_not_in_parentheses("a = 1"), None);
    assert_eq!(
        CriteriaBuilder::find_operator_not_in_parentheses("a = 1 AND b = 2"),
        Some((6, 9))
    );
    assert_eq!(
        CriteriaBuilder::find_operator_not_in_parentheses("a = 1 AND b = 2 OR c = 3"),
        Some((16, 18))
    );
    assert_eq!(
        CriteriaBuilder::find_operator_not_in_parentheses("a = 1 AND (b = 2 OR c = 3)"),
        Some((6, 9))
    );
    assert_eq!(
        CriteriaBuilder::find_operator_not_in_parentheses("a = 1 or b = 2"),
        Some((6, 8))
    );
    assert_eq!(CriteriaBuilder::find_operator_not_in_parentheses("brand = 1"), None);
    assert_eq!(CriteriaBuilder::find_operator_not_in_parentheses("(a = 1 AND b = 2)"), None);
}

#[test]
fn collection_config_constructors_set_id_strategy() {
    let config = CollectionConfig::new();
    assert_eq!(config.id_type, IdType::Uuid);
    assert_eq!(config.id_key, "id");
    assert_eq!(config.name, "{unknown}");
    let config = CollectionConfig::integer("_id", "users");
    assert_eq!(config.id_type, IdType::Int);
    assert_eq!(config.id_key, "_id");
    assert_eq!(config.name, "users");
    assert_eq!(CollectionConfig::uuid("id", "a").id_type, IdType::Uuid);
    assert_eq!(CollectionConfig::none("id", "a").id_type, IdType::NoId);
    assert_eq!(CollectionConfig::from(IdType::Int, "k", "n").id_key, "k");
}

#[test]
fn test_string_pointer_new() {
    let pointer = StringPointer::new('(', ')');
    assert_eq!(pointer.start_char, '(');
    assert_eq!(pointer.end_char, ')');
    assert_eq!(pointer.current_position, 0);
    assert_eq!(pointer.start_position, 0);
    assert_eq!(pointer.end_position, 0);
}

#[test]
fn test_next_with_no_special_chars() {
    let mut pointer = StringPointer::new('(', ')');
    let result = pointer.next("hello world");
    assert!(result);
    assert_eq!(pointer.start_position, 0);
    assert_eq!(pointer.end_position, 11);
    assert_eq!(pointer.current_position, 11);
}

#[test]
fn test_next_with_start_char() {
    let mut pointer = StringPointer::new('(', ')');
    let result = pointer.next("hello(world");
    assert!(result);
    assert_eq!(pointer.start_position, 0);
    assert_eq!(pointer.end_position, 5);
    assert_eq!(pointer.current_position, 5);
}

#[test]
fn test_next_with_end_char() {
    let mut pointer = StringPointer::new('(', ')');
    let result = pointer.next("hello)world");
    assert!(result);
    assert_eq!(pointer.start_position, 0);
    assert_eq!(pointer.end_position, 5);
    assert_eq!(pointer.current_position, 5);
}

#[test]
fn test_next_with_both_chars() {
    let mut pointer = StringPointer::new('(', ')');
    let result = pointer.next("hello(world)test");
    assert!(result);
    assert_eq!(pointer.start_position, 0);
    assert_eq!(pointer.end_position, 5);
    assert_eq!(pointer.current_position, 5);
}

#[test]
fn test_next_starting_with_special_char() {
    let mut pointer = StringPointer::new('(', ')');
    let result = pointer.next("(hello world)");
    assert!(result);
    assert_eq!(pointer.start_position, 0);
    assert_eq!(pointer.end_position, 0);
    assert_eq!(pointer.current_position, 0);
}

#[test]
fn test_next_empty_string() {
    let mut pointer = StringPointer::new('(', ')');
    let result = pointer.next("");
    assert!(!result);
    assert_eq!(pointer.start_position, 0);
    assert_eq!(pointer.end_position, 0);
    assert_eq!(pointer.current_position, 0);
}

#[test]
fn test_multiple_next_calls() {
    let mut pointer = StringPointer::new('(', ')');
    let text = "a(b)c(d)e";
    let result1 = pointer.next(text);
    assert!(result1);
    assert_eq!(pointer.start_position, 0);
    assert_eq!(pointer.end_position, 1);
    assert_eq!(pointer.current_position, 1);
    pointer.current_position += 1;
    let result2 = pointer.next(text);
    assert!(result2);
    assert_eq!(pointer.start_position, 2);
    assert_eq!(pointer.end_position, 3);
    assert_eq!(pointer.current_position, 3);
}

#[test]
fn test_next_beyond_string_length() {
    let mut pointer = StringPointer::new('(', ')');
    let text = "hello";
    let result1 = pointer.next(text);
    assert!(result1);
    assert_eq!(pointer.current_position, 5);
    let result2 = pointer.next(text);
    assert!(!result2);
}

#[test]
fn test_next_with_different_chars() {
    let mut pointer = StringPointer::new('[', ']');
    let result = pointer.next("hello[world]test");
    assert!(result);
    assert_eq!(pointer.start_position, 0);
    assert_eq!(pointer.end_position, 5);
    assert_eq!(pointer.current_position, 5);
}

#[test]
fn test_string_pointer_for_criteria_parsing() {
    let mut pointer = StringPointer::new('(', ')');
    let text = "a = 1 AND (b = 2 OR c = 3)";
    let result = pointer.next(text);
    assert!(result);
    assert_eq!(pointer.start_position, 0);
    assert_eq!(pointer.end_position, 10);
    assert_eq!(pointer.current_position, 10);
    let before_paren = &text[pointer.start_position..pointer.end_position];
    assert_eq!(before_paren, "a = 1 AND ");
}

#[test]
fn test_consecutive_special_chars() {
    let mut pointer = StringPointer::new('(', ')');
    let result = pointer.next("()");
    assert!(result);
    assert_eq!(pointer.start_position, 0);
    assert_eq!(pointer.end_position, 0);
    assert_eq!(pointer.current_position, 0);
}
