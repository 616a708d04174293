use skills_cowork::error::AppError;
use skills_cowork::paths::{
    contains_illegal_chars, is_within_workspace, path_to_normalized_string, sanitize_filename,
    validate_path,
};

const WORKSPACE: &str = "/home/user/cto-skills/workspace";

#[test]
fn test_validate_safe_path() {
    let result = validate_path("src/main.rs", WORKSPACE);
    assert!(result.is_ok());
}

#[test]
fn test_validate_path_traversal() {
    let result = validate_path("../config.json", WORKSPACE);
    assert!(result.is_err());
}

#[test]
fn test_sanitize_filename() {
    let result = sanitize_filename("file<>name.txt");
    assert!(result.is_ok());
    assert_eq!(result.unwrap(), "filename.txt");
}

#[test]
fn validate_path_joins_relative_paths_under_workspace() {
    let result = validate_path("src/main.rs", WORKSPACE).unwrap();
    assert_eq!(result, "/home/user/cto-skills/workspace/src/main.rs");
}

#[test]
fn validate_path_keeps_absolute_paths() {
    let result = validate_path("/etc/motd", WORKSPACE).unwrap();
    assert_eq!(result, "/etc/motd");
}

#[test]
fn validate_path_rejects_empty_path() {
    match validate_path("", WORKSPACE) {
        Err(AppError::PathValidation(m)) => assert_eq!(m, "Path cannot be empty"),
        _ => panic!("an empty path must be rejected"),
    }
}

#[test]
fn validate_path_rejects_traversal_with_its_message() {
    match validate_path("a/../b", WORKSPACE) {
        Err(AppError::PathValidation(m)) => assert_eq!(m, "Path traversal detected"),
        _ => panic!("a traversal must be rejected"),
    }
}

#[test]
fn validate_path_rejects_illegal_characters() {
    match validate_path("notes|draft.txt", WORKSPACE) {
        Err(AppError::PathValidation(m)) => assert_eq!(m, "Path contains illegal characters"),
        _ => panic!("an illegal character must be rejected"),
    }
}

#[test]
fn normalization_folds_backslashes() {
    assert_eq!(path_to_normalized_string("a\\b\\c"), "a/b/c");
    assert_eq!(path_to_normalized_string("a/b"), "a/b");
}

#[test]
fn illegal_character_scan() {
    assert!(contains_illegal_chars("a?b"));
    assert!(contains_illegal_chars("a*b"));
    assert!(!contains_illegal_chars("plain/path.txt"));
}

#[test]
fn workspace_prefix_respects_component_boundaries() {
    assert!(is_within_workspace("/ws/project/file.rs", "/ws/project"));
    assert!(is_within_workspace("/ws/project", "/ws/project"));
    assert!(!is_within_workspace("/ws/project2/file.rs", "/ws/project"));
    assert!(!is_within_workspace("/elsewhere/file.rs", "/ws/project"));
    assert!(is_within_workspace("/x/y", "/"));
}

#[test]
fn sanitize_filename_rejects_blank_and_empty_results() {
    assert!(sanitize_filename("   ").is_err());
    assert!(sanitize_filename("").is_err());
    match sanitize_filename("///") {
        Err(AppError::InvalidArgument(m)) => {
            assert_eq!(m, "Invalid filename after sanitization")
        },
        _ => panic!("a name of only separators must be rejected"),
    }
}

#[test]
fn sanitize_filename_rejects_unicode_whitespace() {
    assert!(sanitize_filename("\u{a0}\u{2003}").is_err());
    assert!(sanitize_filename(" \u{3000} ").is_err());
}

#[test]
fn sanitize_filename_drops_every_illegal_character() {
    assert_eq!(sanitize_filename("a/b\\c:d\"e|f?g*h<i>j").unwrap(), "abcdefghij");
}
