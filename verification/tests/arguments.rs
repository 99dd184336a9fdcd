use mean_sum::args::Command;
use mean_sum::args::Operation;
use mean_sum::args::interpret_args;
use mean_sum::args::parse_operation;

#[test]
fn test_insufficient_arguments() {
    // Simulate command-line arguments with only the program name.
    let args = vec!["program_name".to_string()];

    // Fewer than 3 tokens means operation and/or file path are missing.
    assert!(args.len() < 3);

    // Test with only the operation provided.
    let args = vec!["program_name".to_string(), "mean".to_string()];
    assert!(args.len() < 3);
}

#[test]
fn usage_when_no_arguments_follow_the_program_name() {
    let args = vec!["program_name".to_string()];
    assert_eq!(interpret_args(&args), Command::Usage);
}

#[test]
fn usage_when_the_file_path_is_missing() {
    // The missing path is detected by the argument count alone, before any
    // file-system access could be attempted.
    let args = vec!["program_name".to_string(), "mean".to_string()];
    assert_eq!(interpret_args(&args), Command::Usage);
}

#[test]
fn invalid_operation_never_reaches_the_file() {
    // An unrecognised token yields the invalid-operation command; only a
    // Run command instructs the caller to open the file.
    let args = vec![
        "program_name".to_string(),
        "median".to_string(),
        "numbers.txt".to_string(),
    ];
    assert_eq!(interpret_args(&args), Command::InvalidOperation);
}

#[test]
fn run_carries_the_operation_and_the_path() {
    let args = vec![
        "program_name".to_string(),
        "MEAN".to_string(),
        "numbers.txt".to_string(),
    ];
    match interpret_args(&args) {
        Command::Run(op, path) => {
            assert_eq!(op, Operation::Mean);
            assert_eq!(path, "numbers.txt");
        }
        other => panic!("expected a run command, got {:?}", other),
    }

    let args = vec![
        "program_name".to_string(),
        "Sum".to_string(),
        "data".to_string(),
    ];
    match interpret_args(&args) {
        Command::Run(op, path) => {
            assert_eq!(op, Operation::Sum);
            assert_eq!(path, "data");
        }
        other => panic!("expected a run command, got {:?}", other),
    }
}

#[test]
fn operation_tokens_match_case_insensitively() {
    assert_eq!(parse_operation("mean"), Some(Operation::Mean));
    assert_eq!(parse_operation("MEAN"), Some(Operation::Mean));
    assert_eq!(parse_operation("MeAn"), Some(Operation::Mean));
    assert_eq!(parse_operation("sum"), Some(Operation::Sum));
    assert_eq!(parse_operation("SUM"), Some(Operation::Sum));
    assert_eq!(parse_operation("sUm"), Some(Operation::Sum));
}

#[test]
fn other_tokens_select_no_operation() {
    assert_eq!(parse_operation("median"), None);
    assert_eq!(parse_operation(""), None);
    assert_eq!(parse_operation("meant"), None);
    assert_eq!(parse_operation("su"), None);
    assert_eq!(parse_operation("mean "), None);
    assert_eq!(parse_operation("summ"), None);
}
