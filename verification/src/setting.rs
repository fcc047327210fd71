//! Lint severities and the flag each one synthesizes.

use vstd::prelude::*;
use vstd::string::StringExecFns;
use crate::error::ValidationReason;
use crate::text::str_eq;
use crate::value::ConfigValue;

verus! {

/// The action level applied to a lint's findings.
#[derive(Clone, Copy, Debug, PartialEq, Eq, Structural)]
pub enum LintSetting {
    Warn,
    Allow,
    Deny,
    Forbid,
}

/// The severity, if any, that a configuration value string denotes.
/// Only the four exact keywords are recognized; matching is case-sensitive.
pub open spec fn keyword_of(s: Seq<char>) -> Option<LintSetting> {
    if s == "warn"@ {
        Some(LintSetting::Warn)
    } else if s == "allow"@ {
        Some(LintSetting::Allow)
    } else if s == "deny"@ {
        Some(LintSetting::Deny)
    } else if s == "forbid"@ {
        Some(LintSetting::Forbid)
    } else {
        None
    }
}

/// The flag synthesized for one configuration entry: the severity prefix,
/// the tool's fixed namespace, and the lint name verbatim.
pub open spec fn spec_clippy_arg(setting: LintSetting, lint_name: Seq<char>) -> Seq<char> {
    match setting {
        LintSetting::Warn => "-Wclippy::"@ + lint_name,
        LintSetting::Allow => "-Aclippy::"@ + lint_name,
        LintSetting::Deny => "-Dclippy::"@ + lint_name,
        LintSetting::Forbid => "-Fclippy::"@ + lint_name,
    }
}

impl LintSetting {
    /// Parses a severity keyword, returning `None` for any other string.
    pub fn from_keyword(s: &str) -> (r: Option<LintSetting>)
        ensures
            r == keyword_of(s@),
    {
        if str_eq(s, "warn") {
            Some(LintSetting::Warn)
        } else if str_eq(s, "allow") {
            Some(LintSetting::Allow)
        } else if str_eq(s, "deny") {
            Some(LintSetting::Deny)
        } else if str_eq(s, "forbid") {
            Some(LintSetting::Forbid)
        } else {
            None
        }
    }

    /// Validates one raw configuration value: a string holding a severity
    /// keyword denotes that severity; any other string and any non-string
    /// value is rejected with the reason.
    pub fn from_value(value: &ConfigValue) -> (r: Result<LintSetting, ValidationReason>)
        ensures
            ({
                match value {
                    ConfigValue::Str(s) => match keyword_of(s@) {
                        Some(setting) => r == Ok::<LintSetting, ValidationReason>(setting),
                        None => r == Err::<LintSetting, ValidationReason>(
                            ValidationReason::UnknownSeverity,
                        ),
                    },
                    ConfigValue::Other(_) => r == Err::<LintSetting, ValidationReason>(
                        ValidationReason::NotAString,
                    ),
                }
            }),
    {
        match value {
            ConfigValue::Str(s) => match LintSetting::from_keyword(s.as_str()) {
                Some(setting) => Ok(setting),
                None => Err(ValidationReason::UnknownSeverity),
            },
            ConfigValue::Other(_) => Err(ValidationReason::NotAString),
        }
    }

    /// Synthesizes the flag for one lint under this severity.
    pub fn clippy_arg(&self, lint_name: &str) -> (r: String)
        ensures
            r@ == spec_clippy_arg(*self, lint_name@),
    {
        let mut s = match self {
            LintSetting::Warn => String::from_str("-Wclippy::"),
            LintSetting::Allow => String::from_str("-Aclippy::"),
            LintSetting::Deny => String::from_str("-Dclippy::"),
            LintSetting::Forbid => String::from_str("-Fclippy::"),
        };
        s.append(lint_name);
        s
    }
}

/// Parsing a valid severity keyword and synthesizing its flag yields the
/// severity prefix letter that corresponds to that keyword: `warn` gives
/// `-W`, `allow` gives `-A`, `deny` gives `-D` and `forbid` gives `-F`,
/// each followed by the tool namespace and the lint name.
pub proof fn lemma_keyword_flag_prefix(s: Seq<char>, lint_name: Seq<char>)
    requires
        keyword_of(s) is Some,
    ensures
        ({
            let flag = spec_clippy_arg(keyword_of(s)->Some_0, lint_name);
            &&& flag.len() == 10 + lint_name.len()
            &&& flag[0] == '-'
            &&& (s == "warn"@ ==> flag[1] == 'W')
            &&& (s == "allow"@ ==> flag[1] == 'A')
            &&& (s == "deny"@ ==> flag[1] == 'D')
            &&& (s == "forbid"@ ==> flag[1] == 'F')
            &&& flag.subrange(2, 10) == "clippy::"@
            &&& flag.subrange(10, flag.len() as int) == lint_name
        }),
{
    reveal_strlit("warn");
    reveal_strlit("allow");
    reveal_strlit("deny");
    reveal_strlit("forbid");
    reveal_strlit("-Wclippy::");
    reveal_strlit("-Aclippy::");
    reveal_strlit("-Dclippy::");
    reveal_strlit("-Fclippy::");
    reveal_strlit("clippy::");
    assert("warn"@.len() == 4 && "allow"@.len() == 5 && "deny"@.len() == 4 && "forbid"@.len()
        == 6);
    assert("warn"@[0] == 'w' && "deny"@[0] == 'd');
    let flag = spec_clippy_arg(keyword_of(s)->Some_0, lint_name);
    assert(flag.subrange(2, 10) =~= "clippy::"@);
    assert(flag.subrange(10, flag.len() as int) =~= lint_name);
}

} // verus!
