use userlib::CustomError;
use userlib::calculate_sum;
use userlib::count_words;
use userlib::describe_number;
use userlib::process_data;
use userlib::reverse_string;
use userlib::validate_email;

#[test]
fn test_reverse_string() {
    assert_eq!(reverse_string("hello"), "olleh");
}

#[test]
fn test_count_words() {
    assert_eq!(count_words("hello world rust"), 3);
}

#[test]
fn reverse_string_edge_cases() {
    assert_eq!(reverse_string(""), "");
    assert_eq!(reverse_string("a"), "a");
    assert_eq!(reverse_string("héllo"), "olléh");
}

#[test]
fn count_words_ignores_extra_whitespace() {
    assert_eq!(count_words("hello   world  rust"), 3);
    assert_eq!(count_words("  leading and trailing  "), 3);
    assert_eq!(count_words("tabs\tand\nnewlines"), 3);
    assert_eq!(count_words(""), 0);
    assert_eq!(count_words("   \t \n "), 0);
    assert_eq!(count_words("one"), 1);
}

#[test]
fn calculate_sum_adds() {
    assert_eq!(calculate_sum(10, 20), 30);
    assert_eq!(calculate_sum(-5, 5), 0);
    assert_eq!(calculate_sum(i32::MAX, i32::MIN), -1);
}

#[test]
fn validate_email_requires_at_and_dot() {
    assert!(validate_email("test@example.com"));
    assert!(!validate_email("test.example.com"));
    assert!(!validate_email("test@example"));
    assert!(!validate_email(""));
}

#[test]
fn describe_number_partitions_the_integers() {
    assert_eq!(describe_number(0), "Zero");
    assert_eq!(describe_number(5), "Small positive");
    assert_eq!(describe_number(1), "Small positive");
    assert_eq!(describe_number(10), "Small positive");
    assert_eq!(describe_number(50), "Medium positive");
    assert_eq!(describe_number(11), "Medium positive");
    assert_eq!(describe_number(100), "Medium positive");
    assert_eq!(describe_number(500), "Large positive");
    assert_eq!(describe_number(101), "Large positive");
    assert_eq!(describe_number(-1), "Negative");
    assert_eq!(describe_number(i32::MIN), "Negative");
}

#[test]
fn process_data_prefixes_each_item() {
    let data = vec!["item1".to_string(), "item2".to_string(), "item3".to_string()];
    let processed = process_data(&data).expect("non-empty input");
    assert_eq!(
        processed,
        vec![
            "Processed: item1".to_string(),
            "Processed: item2".to_string(),
            "Processed: item3".to_string(),
        ]
    );
}

#[test]
fn error_messages_name_the_kind() {
    assert_eq!(CustomError::NotFound.message(), "User not found");
    assert_eq!(CustomError::InvalidInput.message(), "Invalid input");
}

#[test]
fn process_data_rejects_an_empty_batch() {
    let data: Vec<String> = Vec::new();
    assert!(matches!(process_data(&data), Err(CustomError::InvalidInput)));
}
