//! Flag synthesis and assembly of the external tool's argument list.

use vstd::prelude::*;
use vstd::string::StringExecFns;
use crate::config::Config;
use crate::error::Error;
use crate::setting::LintSetting;
use crate::setting::spec_clippy_arg;

verus! {

/// The flags a configuration synthesizes: one per entry, in order.
pub open spec fn spec_flags(m: Seq<(Seq<char>, LintSetting)>) -> Seq<Seq<char>> {
    m.map_values(|p: (Seq<char>, LintSetting)| spec_clippy_arg(p.1, p.0))
}

/// Synthesizes one flag per configuration entry, in configuration order:
/// the flag sequence has exactly as many elements as the configuration.
pub fn synthesize_flags(config: &Config) -> (r: Vec<String>)
    ensures
        r.deep_view() == spec_flags(config.model()),
        r@.len() == config.model().len(),
{
    let n = config.settings.len();
    let mut flags: Vec<String> = Vec::new();
    let mut k: usize = 0;
    while k < n
        invariant
            n == config.settings@.len(),
            k <= n,
            flags@.len() == k,
            forall|j: int| 0 <= j < k ==> flags@[j]@ == spec_flags(config.model())[j],
        decreases n - k,
    {
        let pair = &config.settings[k];
        let flag = pair.1.clippy_arg(pair.0.as_str());
        flags.push(flag);
        k = k + 1;
    }
    proof {
        assert(flags.deep_view() =~= spec_flags(config.model()));
    }
    flags
}

/// The full argument list for the external tool: the fixed subcommand,
/// then the fix-mode flag if requested (before every severity flag), then
/// the separator, then the severity flags in configuration order.
pub open spec fn spec_invocation(m: Seq<(Seq<char>, LintSetting)>, fix: bool) -> Seq<Seq<char>> {
    (if fix {
        seq!["clippy"@, "--fix"@]
    } else {
        seq!["clippy"@]
    }) + seq!["--"@] + spec_flags(m)
}

/// Assembles the external tool's argument list for this configuration.
pub fn clippy_invocation(config: &Config, fix: bool) -> (r: Vec<String>)
    ensures
        r.deep_view() == spec_invocation(config.model(), fix),
{
    let ghost m = config.model();
    let mut args: Vec<String> = Vec::new();
    args.push(String::from_str("clippy"));
    if fix {
        args.push(String::from_str("--fix"));
    }
    args.push(String::from_str("--"));
    let ghost head = (if fix {
        seq!["clippy"@, "--fix"@]
    } else {
        seq!["clippy"@]
    }) + seq!["--"@];
    proof {
        assert(args.deep_view() =~= head + spec_flags(m).subrange(0, 0));
    }
    let flags = synthesize_flags(config);
    let n = flags.len();
    let mut k: usize = 0;
    while k < n
        invariant
            n == flags@.len(),
            k <= n,
            flags.deep_view() == spec_flags(m),
            args.deep_view() == head + spec_flags(m).subrange(0, k as int),
        decreases n - k,
    {
        let flag = flags[k].clone();
        proof {
            assert(flags.deep_view()[k as int] == spec_flags(m)[k as int]);
            assert(flag@ == spec_flags(m)[k as int]);
        }
        let ghost prev = args.deep_view();
        args.push(flag);
        proof {
            assert(args.deep_view().len() == prev.len() + 1);
            assert forall|j: int| 0 <= j < prev.len() implies args.deep_view()[j] == prev[j] by {
                assert(args@[j] == args@.subrange(0, prev.len() as int)[j]);
            }
            assert(args.deep_view()[prev.len() as int] == spec_flags(m)[k as int]);
            let target = head + spec_flags(m).subrange(0, k as int + 1);
            assert forall|j: int| 0 <= j < args.deep_view().len() implies args.deep_view()[j]
                == target[j] by {
                if j < prev.len() {
                    assert(args.deep_view()[j] == prev[j]);
                    assert(prev[j] == (head + spec_flags(m).subrange(0, k as int))[j]);
                } else {
                    assert(j == prev.len());
                }
            }
            assert(args.deep_view() =~= target);
        }
        k = k + 1;
    }
    proof {
        assert(spec_flags(m).subrange(0, spec_flags(m).len() as int) =~= spec_flags(m));
    }
    args
}

/// Interprets the external tool's exit status: a reported exit code
/// becomes the final exit code exactly as it is; termination without one
/// (for example, by a signal) is a runtime error.
pub fn interpret_exit(code: Option<i32>) -> (r: Result<i32, Error>)
    ensures
        code matches Some(c) ==> (r matches Ok(rc) && rc == c),
        code is None ==> (r matches Err(e) && e is Runtime),
{
    match code {
        Some(c) => Ok(c),
        None => Err(Error::Runtime),
    }
}

} // verus!
