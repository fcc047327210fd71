use clippy_control::config::Config;
use clippy_control::error::Error;
use clippy_control::error::ValidationReason;
use clippy_control::parse::parse_config;
use clippy_control::parse::scan_document;
use clippy_control::setting::LintSetting;
use clippy_control::value::ConfigValue;

fn parse_ok(text: &str) -> Config {
    match parse_config(text) {
        Ok(c) => c,
        Err(e) => panic!("expected success, got: {}", e.message()),
    }
}

fn parse_err(text: &str) -> Error {
    match parse_config(text) {
        Ok(_) => panic!("expected an error"),
        Err(e) => e,
    }
}

#[test]
fn empty_document_gives_empty_config() {
    let config = parse_ok("");
    assert_eq!(config.settings.len(), 0);
}

#[test]
fn blank_lines_and_comments_are_skipped() {
    let config = parse_ok("\n   \n# a comment\n  # indented comment\n\n");
    assert_eq!(config.settings.len(), 0);
}

#[test]
fn single_entry_each_severity() {
    let config = parse_ok("foo = \"warn\"");
    assert_eq!(config.settings[0].0, "foo");
    assert_eq!(config.settings[0].1, LintSetting::Warn);
    let config = parse_ok("foo = \"allow\"");
    assert_eq!(config.settings[0].1, LintSetting::Allow);
    let config = parse_ok("foo = \"deny\"");
    assert_eq!(config.settings[0].1, LintSetting::Deny);
    let config = parse_ok("foo = \"forbid\"");
    assert_eq!(config.settings[0].1, LintSetting::Forbid);
}

#[test]
fn several_entries_keep_document_order() {
    let text = "alpha = \"warn\"\nbeta = \"deny\"\ngamma = \"allow\"\n";
    let config = parse_ok(text);
    assert_eq!(config.settings.len(), 3);
    assert_eq!(config.settings[0].0, "alpha");
    assert_eq!(config.settings[1].0, "beta");
    assert_eq!(config.settings[2].0, "gamma");
}

#[test]
fn whitespace_and_trailing_comments_are_tolerated() {
    let config = parse_ok("  foo   =   \"deny\"   # tighten this one\n");
    assert_eq!(config.settings.len(), 1);
    assert_eq!(config.settings[0].0, "foo");
    assert_eq!(config.settings[0].1, LintSetting::Deny);
}

#[test]
fn crlf_line_endings_are_tolerated() {
    let config = parse_ok("foo = \"warn\"\r\nbar = \"deny\"\r\n");
    assert_eq!(config.settings.len(), 2);
}

#[test]
fn keys_may_hold_digits_underscore_and_dash() {
    let config = parse_ok("too_many_arguments-2 = \"allow\"");
    assert_eq!(config.settings[0].0, "too_many_arguments-2");
}

#[test]
fn nonstring_value_is_a_validation_error_naming_the_key() {
    let err = parse_err("a = \"warn\"\nb = 42\nc = \"deny\"\n");
    match err {
        Error::Validation { key, value, reason } => {
            assert_eq!(key, "b");
            assert_eq!(value, "42");
            assert_eq!(reason, ValidationReason::NotAString);
        }
        other => panic!("wrong error: {}", other.message()),
    }
}

#[test]
fn nonstring_value_never_partially_succeeds() {
    // every entry but the last is valid; the document still yields no
    // configuration at all
    assert!(parse_config("a = \"warn\"\nb = \"deny\"\nc = true\n").is_err());
}

#[test]
fn boolean_value_is_not_a_string() {
    let err = parse_err("threshold = true");
    match err {
        Error::Validation { key, value, reason } => {
            assert_eq!(key, "threshold");
            assert_eq!(value, "true");
            assert_eq!(reason, ValidationReason::NotAString);
        }
        other => panic!("wrong error: {}", other.message()),
    }
}

#[test]
fn signed_integer_value_is_not_a_string() {
    let err = parse_err("depth = -3");
    match err {
        Error::Validation { key, value, reason } => {
            assert_eq!(key, "depth");
            assert_eq!(value, "-3");
            assert_eq!(reason, ValidationReason::NotAString);
        }
        other => panic!("wrong error: {}", other.message()),
    }
}

#[test]
fn unrecognized_severity_names_key_and_value() {
    let err = parse_err("bar = \"maybe\"");
    match err {
        Error::Validation { key, value, reason } => {
            assert_eq!(key, "bar");
            assert_eq!(value, "maybe");
            assert_eq!(reason, ValidationReason::UnknownSeverity);
        }
        other => panic!("wrong error: {}", other.message()),
    }
    let message = parse_err("bar = \"maybe\"").message();
    assert!(message.contains("bar"));
    assert!(message.contains("maybe"));
}

#[test]
fn severity_matching_is_case_sensitive() {
    let err = parse_err("foo = \"Warn\"");
    assert!(matches!(err, Error::Validation { reason: ValidationReason::UnknownSeverity, .. }));
}

#[test]
fn first_invalid_entry_wins() {
    let err = parse_err("a = \"maybe\"\nb = 42\n");
    match err {
        Error::Validation { key, reason, .. } => {
            assert_eq!(key, "a");
            assert_eq!(reason, ValidationReason::UnknownSeverity);
        }
        other => panic!("wrong error: {}", other.message()),
    }
}

#[test]
fn missing_equals_is_a_parse_error() {
    let err = parse_err("foo\n");
    assert!(matches!(err, Error::Parse { line: 1 }));
}

#[test]
fn missing_value_is_a_parse_error() {
    let err = parse_err("foo =\n");
    assert!(matches!(err, Error::Parse { line: 1 }));
}

#[test]
fn unterminated_string_is_a_parse_error() {
    let err = parse_err("foo = \"warn\n");
    assert!(matches!(err, Error::Parse { line: 1 }));
}

#[test]
fn bare_word_value_is_a_parse_error() {
    let err = parse_err("foo = maybe\n");
    assert!(matches!(err, Error::Parse { line: 1 }));
}

#[test]
fn trailing_junk_after_value_is_a_parse_error() {
    let err = parse_err("foo = \"warn\" extra\n");
    assert!(matches!(err, Error::Parse { line: 1 }));
}

#[test]
fn parse_error_reports_the_offending_line() {
    let err = parse_err("a = \"warn\"\n# fine so far\nb = ?\n");
    assert!(matches!(err, Error::Parse { line: 3 }));
    assert!(err.message().contains('3'));
}

#[test]
fn parse_error_line_number_renders_all_digits() {
    let mut text = String::new();
    for n in 0..11 {
        text.push_str(&format!("lint{n} = \"warn\"\n"));
    }
    text.push_str("oops\n");
    let err = parse_err(&text);
    assert!(matches!(err, Error::Parse { line: 12 }));
    assert!(err.message().contains("12"));
}

#[test]
fn repeated_key_is_a_parse_error() {
    let err = parse_err("foo = \"warn\"\nfoo = \"deny\"\n");
    assert!(matches!(err, Error::Parse { line: 2 }));
}

#[test]
fn quoted_value_may_hold_arbitrary_characters() {
    let err = parse_err("foo = \"wa#rn maybe\"");
    match err {
        Error::Validation { key, value, reason } => {
            assert_eq!(key, "foo");
            assert_eq!(value, "wa#rn maybe");
            assert_eq!(reason, ValidationReason::UnknownSeverity);
        }
        other => panic!("wrong error: {}", other.message()),
    }
}

#[test]
fn scan_document_collects_raw_entries_in_order() {
    let entries = scan_document("a = \"warn\"\nb = 42\n").unwrap();
    assert_eq!(entries.len(), 2);
    assert_eq!(entries[0].key, "a");
    match &entries[0].value {
        ConfigValue::Str(s) => assert_eq!(s, "warn"),
        other => panic!("expected a string value, got {other:?}"),
    }
    assert_eq!(entries[1].key, "b");
    match &entries[1].value {
        ConfigValue::Other(t) => assert_eq!(t, "42"),
        other => panic!("expected a non-string value, got {other:?}"),
    }
}

#[test]
fn scan_document_reports_the_first_bad_line() {
    assert_eq!(scan_document("a = \"warn\"\n?\n").unwrap_err(), 2);
}

#[test]
fn io_error_message_mentions_the_path() {
    let err = Error::Io {
        path: String::from("missing/clippy-control.toml"),
        detail: String::from("No such file or directory"),
    };
    let message = err.message();
    assert!(message.contains("missing/clippy-control.toml"));
    assert!(message.contains("unable to read config file"));
}
