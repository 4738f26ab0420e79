use userlib::LowerCaseProcessor;
use userlib::StringProcessor;
use userlib::UpperCaseProcessor;
use userlib::process_with;

#[test]
fn test_uppercase_processor() {
    let processor = UpperCaseProcessor;
    let result = processor.process("hello world");
    assert_eq!(result, "HELLO WORLD");
}

#[test]
fn test_lowercase_processor() {
    let processor = LowerCaseProcessor;
    let result = processor.process("HELLO WORLD");
    assert_eq!(result, "hello world");
}

#[test]
fn test_generic_processing() {
    let upper_processor = UpperCaseProcessor;
    let result = process_with(&upper_processor, "test");
    assert_eq!(result, "TEST");
}

#[test]
fn process_with_lowercase() {
    let processor = LowerCaseProcessor;
    let result = process_with(&processor, "HELLO WORLD");
    assert_eq!(result, "hello world");
}

#[test]
fn process_with_matches_direct_call() {
    let upper = UpperCaseProcessor;
    assert_eq!(process_with(&upper, "MiXeD Case 42"), upper.process("MiXeD Case 42"));
    let lower = LowerCaseProcessor;
    assert_eq!(process_with(&lower, "MiXeD Case 42"), lower.process("MiXeD Case 42"));
}

#[test]
fn processors_on_empty_input() {
    assert_eq!(UpperCaseProcessor.process(""), "");
    assert_eq!(LowerCaseProcessor.process(""), "");
}
