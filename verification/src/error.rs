//! The error taxonomy: I/O failures, malformed documents, rejected values,
//! and a child process that terminated without an exit code.

use vstd::prelude::*;
use vstd::string::StringExecFns;

verus! {

/// Why a configuration value was rejected during validation.
#[derive(Clone, Copy, Debug, PartialEq, Eq, Structural)]
pub enum ValidationReason {
    /// The value is well formed but is not a string.
    NotAString,
    /// The value is a string outside the set of severity keywords.
    UnknownSeverity,
}

/// Everything that can go wrong between reading the configuration file and
/// the external tool exiting.
#[derive(Debug, Clone)]
pub enum Error {
    /// The configuration file could not be read, or the tool could not be
    /// spawned. `detail` carries the operating-system diagnostic.
    Io { path: String, detail: String },
    /// The configuration document is malformed at the given 1-based line.
    Parse { line: usize },
    /// A well-formed entry was rejected; `key` names the offending lint and
    /// `value` the offending value.
    Validation { key: String, value: String, reason: ValidationReason },
    /// The child process terminated without a reportable exit code.
    Runtime,
}

/// The character for one decimal digit.
pub open spec fn digit_char(d: nat) -> char {
    if d == 0 {
        '0'
    } else if d == 1 {
        '1'
    } else if d == 2 {
        '2'
    } else if d == 3 {
        '3'
    } else if d == 4 {
        '4'
    } else if d == 5 {
        '5'
    } else if d == 6 {
        '6'
    } else if d == 7 {
        '7'
    } else if d == 8 {
        '8'
    } else {
        '9'
    }
}

/// The decimal digits of `n`, most significant first, with no sign and no
/// leading zeros (except for `n == 0` itself).
pub open spec fn spec_decimal(n: nat) -> Seq<char>
    decreases n,
{
    if n < 10 {
        seq![digit_char(n)]
    } else {
        spec_decimal(n / 10).push(digit_char(n % 10))
    }
}

/// Relies on `u64`'s `Display` implementation, which formats the value as
/// its decimal digits, most significant first, without sign or padding.
#[verifier::external_body]
fn decimal_string(n: u64) -> (r: String)
    ensures
        r@ == spec_decimal(n as nat),
{
    n.to_string()
}

/// The diagnostic text for each error: it names the failing file for I/O
/// errors, the line for parse errors, and the offending lint key (and
/// value) for validation errors.
pub open spec fn spec_message(e: Error) -> Seq<char> {
    match e {
        Error::Io { path, detail } => "unable to read config file "@ + path@ + ": "@ + detail@,
        Error::Parse { line } => "config file is not valid at line "@ + spec_decimal(line as nat),
        Error::Validation { key, value, reason } => match reason {
            ValidationReason::NotAString => "parsing lint '"@ + key@ + "': value '"@ + value@
                + "' is not a string"@,
            ValidationReason::UnknownSeverity => "parsing lint '"@ + key@ + "': unrecognized value '"@
                + value@ + "'"@,
        },
        Error::Runtime => "cargo-clippy terminated without exit code"@,
    }
}

impl Error {
    /// Renders this error's diagnostic message.
    pub fn message(&self) -> (r: String)
        ensures
            r@ == spec_message(*self),
    {
        match self {
            Error::Io { path, detail } => {
                let mut s = String::from_str("unable to read config file ");
                s.append(path.as_str());
                s.append(": ");
                s.append(detail.as_str());
                s
            },
            Error::Parse { line } => {
                let mut s = String::from_str("config file is not valid at line ");
                let digits = decimal_string(*line as u64);
                s.append(digits.as_str());
                s
            },
            Error::Validation { key, value, reason } => {
                let mut s = String::from_str("parsing lint '");
                s.append(key.as_str());
                match reason {
                    ValidationReason::NotAString => {
                        s.append("': value '");
                        s.append(value.as_str());
                        s.append("' is not a string");
                    },
                    ValidationReason::UnknownSeverity => {
                        s.append("': unrecognized value '");
                        s.append(value.as_str());
                        s.append("'");
                    },
                }
                s
            },
            Error::Runtime => String::from_str("cargo-clippy terminated without exit code"),
        }
    }
}

} // verus!
