use clippy_control::error::Error;
use clippy_control::error::ValidationReason;
use clippy_control::flags::clippy_invocation;
use clippy_control::flags::interpret_exit;
use clippy_control::flags::synthesize_flags;
use clippy_control::parse::parse_config;
use clippy_control::setting::LintSetting;
use clippy_control::value::ConfigValue;

#[test]
fn parsing_then_synthesizing_yields_each_severity_prefix() {
    let cases = [
        ("warn", "-Wclippy::some_lint"),
        ("allow", "-Aclippy::some_lint"),
        ("deny", "-Dclippy::some_lint"),
        ("forbid", "-Fclippy::some_lint"),
    ];
    for (keyword, expected) in cases {
        let text = format!("some_lint = \"{}\"", keyword);
        let config = parse_config(&text).unwrap();
        let flags = synthesize_flags(&config);
        assert_eq!(flags, vec![expected.to_string()]);
    }
}

#[test]
fn flag_sequence_has_one_flag_per_entry() {
    let config = parse_config("a = \"warn\"\nb = \"deny\"\nc = \"allow\"\nd = \"forbid\"\n")
        .unwrap();
    assert_eq!(config.settings.len(), 4);
    let flags = synthesize_flags(&config);
    assert_eq!(flags.len(), 4);
    let empty = parse_config("").unwrap();
    assert_eq!(synthesize_flags(&empty).len(), 0);
}

#[test]
fn deny_foo_and_allow_bar_examples() {
    let config = parse_config("foo = \"deny\"").unwrap();
    assert_eq!(synthesize_flags(&config), vec!["-Dclippy::foo".to_string()]);
    let config = parse_config("bar = \"allow\"").unwrap();
    assert_eq!(synthesize_flags(&config), vec!["-Aclippy::bar".to_string()]);
}

#[test]
fn clippy_arg_formats_prefix_namespace_and_name() {
    assert_eq!(LintSetting::Warn.clippy_arg("foo"), "-Wclippy::foo");
    assert_eq!(LintSetting::Allow.clippy_arg("foo"), "-Aclippy::foo");
    assert_eq!(LintSetting::Deny.clippy_arg("foo"), "-Dclippy::foo");
    assert_eq!(LintSetting::Forbid.clippy_arg("foo"), "-Fclippy::foo");
}

#[test]
fn from_keyword_recognizes_exactly_the_four_keywords() {
    assert_eq!(LintSetting::from_keyword("warn"), Some(LintSetting::Warn));
    assert_eq!(LintSetting::from_keyword("allow"), Some(LintSetting::Allow));
    assert_eq!(LintSetting::from_keyword("deny"), Some(LintSetting::Deny));
    assert_eq!(LintSetting::from_keyword("forbid"), Some(LintSetting::Forbid));
    assert_eq!(LintSetting::from_keyword("maybe"), None);
    assert_eq!(LintSetting::from_keyword("Deny"), None);
    assert_eq!(LintSetting::from_keyword(""), None);
    assert_eq!(LintSetting::from_keyword("warn "), None);
}

#[test]
fn invocation_without_fix() {
    let config = parse_config("foo = \"warn\"").unwrap();
    let args = clippy_invocation(&config, false);
    assert_eq!(args, vec![
        "clippy".to_string(),
        "--".to_string(),
        "-Wclippy::foo".to_string(),
    ]);
}

#[test]
fn fix_flag_comes_before_every_severity_flag() {
    let config = parse_config("foo = \"warn\"\nbar = \"deny\"\n").unwrap();
    let args = clippy_invocation(&config, true);
    assert_eq!(args, vec![
        "clippy".to_string(),
        "--fix".to_string(),
        "--".to_string(),
        "-Wclippy::foo".to_string(),
        "-Dclippy::bar".to_string(),
    ]);
    let fix_at = args.iter().position(|a| a == "--fix").unwrap();
    for (idx, arg) in args.iter().enumerate() {
        if arg.starts_with("-W") || arg.starts_with("-D") {
            assert!(fix_at < idx);
        }
    }
}

#[test]
fn invocation_of_empty_config_has_no_severity_flags() {
    let config = parse_config("").unwrap();
    let args = clippy_invocation(&config, false);
    assert_eq!(args, vec!["clippy".to_string(), "--".to_string()]);
}

#[test]
fn from_value_accepts_keyword_strings_only() {
    let value = ConfigValue::Str("forbid".to_string());
    assert_eq!(LintSetting::from_value(&value), Ok(LintSetting::Forbid));
    let value = ConfigValue::Str("maybe".to_string());
    assert_eq!(LintSetting::from_value(&value), Err(ValidationReason::UnknownSeverity));
    let value = ConfigValue::Other("42".to_string());
    assert_eq!(LintSetting::from_value(&value), Err(ValidationReason::NotAString));
}

#[test]
fn reported_exit_code_is_forwarded_exactly() {
    assert_eq!(interpret_exit(Some(0)).unwrap(), 0);
    assert_eq!(interpret_exit(Some(1)).unwrap(), 1);
    assert_eq!(interpret_exit(Some(101)).unwrap(), 101);
    assert_eq!(interpret_exit(Some(-7)).unwrap(), -7);
}

#[test]
fn missing_exit_code_is_a_runtime_error() {
    let err = interpret_exit(None).unwrap_err();
    assert!(matches!(err, Error::Runtime));
    assert_eq!(err.message(), "cargo-clippy terminated without exit code");
}
