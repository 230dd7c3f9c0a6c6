use mcproc::validation::{validate_process_name, validate_project_name};

#[test]
fn test_validate_project_name() {
    // Valid names
    assert!(validate_project_name("my-project").is_ok());
    assert!(validate_project_name("project_123").is_ok());
    assert!(validate_project_name("MyProject").is_ok());
    assert!(validate_project_name("a").is_ok());

    // Invalid names - empty
    assert!(validate_project_name("").is_err());

    // Invalid names - dots
    assert!(validate_project_name(".").is_err());
    assert!(validate_project_name("..").is_err());

    // Invalid names - path separators
    assert!(validate_project_name("my/project").is_err());
    assert!(validate_project_name("my\\project").is_err());

    // Invalid names - special characters
    assert!(validate_project_name("my:project").is_err());
    assert!(validate_project_name("my*project").is_err());
    assert!(validate_project_name("my?project").is_err());
    assert!(validate_project_name("my\"project").is_err());
    assert!(validate_project_name("my<project").is_err());
    assert!(validate_project_name("my>project").is_err());
    assert!(validate_project_name("my|project").is_err());

    // Invalid names - whitespace
    assert!(validate_project_name(" project").is_err());
    assert!(validate_project_name("project ").is_err());
    assert!(validate_project_name(" project ").is_err());

    // Invalid names - Windows reserved
    assert!(validate_project_name("CON").is_err());
    assert!(validate_project_name("con").is_err());
    assert!(validate_project_name("PRN").is_err());
    assert!(validate_project_name("AUX").is_err());
    assert!(validate_project_name("NUL").is_err());
    assert!(validate_project_name("COM1").is_err());
    assert!(validate_project_name("LPT1").is_err());

    // Invalid names - control characters
    assert!(validate_project_name("my\nproject").is_err());
    assert!(validate_project_name("my\tproject").is_err());
    assert!(validate_project_name("my\0project").is_err());

    // Invalid names - too long
    let long_name = "a".repeat(256);
    assert!(validate_project_name(&long_name).is_err());
    let max_name = "a".repeat(255);
    assert!(validate_project_name(&max_name).is_ok());
}

#[test]
fn test_validate_process_name() {
    // Valid names
    assert!(validate_process_name("frontend").is_ok());
    assert!(validate_process_name("backend-api").is_ok());
    assert!(validate_process_name("worker_123").is_ok());
    assert!(validate_process_name("MyService").is_ok());
    assert!(validate_process_name("a").is_ok());

    // Invalid names - empty
    assert!(validate_process_name("").is_err());

    // Invalid names - dots
    assert!(validate_process_name(".").is_err());
    assert!(validate_process_name("..").is_err());

    // Invalid names - path separators
    assert!(validate_process_name("my/process").is_err());
    assert!(validate_process_name("my\\process").is_err());

    // Invalid names - special characters
    assert!(validate_process_name("my:process").is_err());
    assert!(validate_process_name("my*process").is_err());
    assert!(validate_process_name("my?process").is_err());
    assert!(validate_process_name("my\"process").is_err());
    assert!(validate_process_name("my<process").is_err());
    assert!(validate_process_name("my>process").is_err());
    assert!(validate_process_name("my|process").is_err());

    // Invalid names - whitespace
    assert!(validate_process_name(" process").is_err());
    assert!(validate_process_name("process ").is_err());
    assert!(validate_process_name(" process ").is_err());

    // Invalid names - control characters
    assert!(validate_process_name("my\nprocess").is_err());
    assert!(validate_process_name("my\tprocess").is_err());
    assert!(validate_process_name("my\0process").is_err());

    // Invalid names - too long (process names have lower limit than project names)
    let long_name = "a".repeat(101);
    assert!(validate_process_name(&long_name).is_err());
    let max_name = "a".repeat(100);
    assert!(validate_process_name(&max_name).is_ok());
}

#[test]
fn validation_messages_name_the_broken_rule() {
    assert_eq!(validate_project_name("").unwrap_err(), "Project name cannot be empty");
    assert_eq!(
        validate_process_name("..").unwrap_err(),
        "Process name cannot be '.' or '..'"
    );
    assert_eq!(
        validate_project_name("a/b").unwrap_err(),
        "Project name cannot contain path separators (/ or \\)"
    );
    assert_eq!(
        validate_process_name("a:b").unwrap_err(),
        "Process name cannot contain ':'"
    );
    assert_eq!(
        validate_project_name(" x").unwrap_err(),
        "Project name cannot have leading or trailing whitespace"
    );
    assert_eq!(
        validate_process_name("a\u{1}b").unwrap_err(),
        "Process name cannot contain control characters"
    );
    assert_eq!(
        validate_process_name(&"a".repeat(101)).unwrap_err(),
        "Process name cannot exceed 100 characters"
    );
    assert_eq!(
        validate_project_name("com3").unwrap_err(),
        "'com3' is a reserved name on Windows"
    );
    // Process names have no reserved-name rule.
    assert!(validate_process_name("CON").is_ok());
}

#[test]
fn byte_length_counts_toward_the_limit() {
    // 34 three-byte characters: 102 bytes, over the process limit.
    let wide = "日".repeat(34);
    assert!(validate_process_name(&wide).is_err());
    let fits = "日".repeat(33);
    assert!(validate_process_name(&fits).is_ok());
}
