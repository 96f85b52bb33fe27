use traderd::paths::{
    extract_path_part, normalize_windows_style_sqlite_path, sqlite_parent_dir,
    validate_sqlite_path,
};

#[test]
fn normalizes_windows_style_paths_from_urls() {
    let cases = [
        ("sqlite://C:/foo", "C:foo"),
        ("sqlite:///C:/foo", "C:foo"),
        ("sqlite://D:\\bar", "D:bar"),
    ];

    for (input, expected) in cases {
        let path_part = extract_path_part(input);
        let normalized = normalize_windows_style_sqlite_path(&path_part);
        assert_eq!(normalized, expected, "input `{input}` should normalize");
    }
}

#[test]
fn normalizes_drive_letter_with_leading_slash() {
    let normalized = normalize_windows_style_sqlite_path("/C:/poly/data/bot.db");
    assert_eq!(normalized, "C:poly/data/bot.db");
}

#[test]
fn validates_memory_and_file_urls() {
    validate_sqlite_path("sqlite::memory:?cache=shared").expect("memory dsn should validate");
    validate_sqlite_path("sqlite://bot.db").expect("relative file url should validate");
    validate_sqlite_path("sqlite:///C:/poly/data/bot.db")
        .expect("absolute windows file url should validate");
}

#[test]
fn rejects_missing_or_invalid_urls() {
    let err = validate_sqlite_path("bot.db").expect_err("should reject plain filename");
    assert!(err
        .message()
        .contains("must start with `sqlite://` or use `sqlite::memory:`"));

    let err = validate_sqlite_path("sqlite://").expect_err("should reject empty path");
    assert!(err
        .message()
        .contains("missing a filesystem component after `sqlite://`"));
}

#[test]
fn extracts_path_part_before_query() {
    assert_eq!(extract_path_part("sqlite://bot.db?cache=shared"), "bot.db");
    assert_eq!(extract_path_part("sqlite://bot.db"), "bot.db");
    assert_eq!(extract_path_part("sqlite://sqlite://x"), "x");
    assert_eq!(extract_path_part("sqlite:///var/db/x.db"), "/var/db/x.db");
}

#[test]
fn computes_parent_directories_for_sqlite_urls() {
    assert_eq!(sqlite_parent_dir("sqlite::memory:"), None);
    assert_eq!(sqlite_parent_dir("sqlite::memory:?cache=shared"), None);
    assert_eq!(sqlite_parent_dir("sqlite://bot.db"), None);
    assert_eq!(sqlite_parent_dir("not-a-url"), None);
    assert_eq!(
        sqlite_parent_dir("sqlite://C:/foo/db.sqlite"),
        Some("C:foo".to_string())
    );
    assert_eq!(
        sqlite_parent_dir("sqlite:///C:/foo/db.sqlite"),
        Some("C:foo".to_string())
    );
    assert_eq!(
        sqlite_parent_dir("sqlite:///var/db/x.db?mode=rwc"),
        Some("/var/db".to_string())
    );
    assert_eq!(sqlite_parent_dir("sqlite:///x.db"), Some("/".to_string()));
}
