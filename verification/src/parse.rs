//! The configuration-document parser and validator.
//!
//! A document is a sequence of lines. A line is blank (only whitespace,
//! optionally followed by a `#` comment) or an entry `key = value` with an
//! optional trailing comment. A key is one or more ASCII letters, digits,
//! `_` or `-` characters, and may appear at most once in the document. A
//! value is either a basic string in double quotes (any characters other
//! than `"`, up to the closing quote) or a bare non-string token: `true`,
//! `false`, or an integer of an optional sign and decimal digits.
//!
//! Parsing rejects malformed documents with the offending line; validation
//! then rejects the first entry (in document order) whose value is not a
//! string or is a string outside the set of severity keywords.

use vstd::prelude::*;
use vstd::string::StrSliceExecFns;
use vstd::string::StringExecFns;
use crate::config::Config;
use crate::error::Error;
use crate::error::ValidationReason;
use crate::setting::LintSetting;
use crate::setting::keyword_of;
use crate::text::str_eq;
use crate::value::ConfigValue;
use crate::value::RawEntry;
use crate::value::SpecEntry;
use crate::value::has_key;
use crate::value::models;

verus! {

/// Whitespace within a line.
pub open spec fn is_ws_char(c: char) -> bool {
    c == ' ' || c == '\t' || c == '\r'
}

/// The characters a key may consist of.
pub open spec fn is_key_char(c: char) -> bool {
    ('a' <= c && c <= 'z') || ('A' <= c && c <= 'Z') || ('0' <= c && c <= '9') || c == '_' || c
        == '-'
}

/// A decimal digit.
pub open spec fn is_digit_char(c: char) -> bool {
    '0' <= c && c <= '9'
}

/// The classes of characters the scanner can run over.
#[derive(Clone, Copy, Debug, PartialEq, Eq, Structural)]
pub enum CharClass {
    /// Whitespace within a line.
    Ws,
    /// Key characters.
    Key,
    /// Characters of a bare value token: anything but whitespace and `#`.
    Plain,
    /// Anything but a double quote.
    NonQuote,
    /// Anything but a line break.
    NonNewline,
}

/// Whether a character belongs to a class.
pub open spec fn class_holds(cl: CharClass, c: char) -> bool {
    match cl {
        CharClass::Ws => is_ws_char(c),
        CharClass::Key => is_key_char(c),
        CharClass::Plain => !is_ws_char(c) && c != '#',
        CharClass::NonQuote => c != '"',
        CharClass::NonNewline => c != '\n',
    }
}

/// The first position at or after `i` whose character leaves the class
/// `cl`, or the end of `s` if there is none.
pub open spec fn scan_while(s: Seq<char>, i: int, cl: CharClass) -> int
    decreases s.len() - i,
{
    if i < 0 || i >= s.len() {
        s.len() as int
    } else if class_holds(cl, s[i]) {
        scan_while(s, i + 1, cl)
    } else {
        i
    }
}

/// `scan_while` lands between `i` and the end of `s`, the class holds on
/// everything before the landing point, and fails at it.
proof fn lemma_scan_while(s: Seq<char>, i: int, cl: CharClass)
    requires
        0 <= i <= s.len(),
    ensures
        i <= scan_while(s, i, cl) <= s.len(),
        forall|j: int| i <= j < scan_while(s, i, cl) ==> class_holds(cl, s[j]),
        scan_while(s, i, cl) < s.len() ==> !class_holds(cl, s[scan_while(s, i, cl)]),
    decreases s.len() - i,
{
    if i < s.len() && class_holds(cl, s[i]) {
        lemma_scan_while(s, i + 1, cl);
    }
}

/// A position with the class holding everywhere before it and failing at
/// it is exactly where `scan_while` lands.
proof fn lemma_scan_fixed(s: Seq<char>, i: int, e: int, cl: CharClass)
    requires
        0 <= i <= e <= s.len(),
        forall|j: int| i <= j < e ==> class_holds(cl, s[j]),
        e < s.len() ==> !class_holds(cl, s[e]),
    ensures
        scan_while(s, i, cl) == e,
    decreases e - i,
{
    if i < e {
        lemma_scan_fixed(s, i + 1, e, cl);
    }
}

/// Decides membership of a character in a class.
fn class_check(cl: CharClass, c: char) -> (r: bool)
    ensures
        r == class_holds(cl, c),
{
    match cl {
        CharClass::Ws => c == ' ' || c == '\t' || c == '\r',
        CharClass::Key => ('a' <= c && c <= 'z') || ('A' <= c && c <= 'Z') || ('0' <= c && c
            <= '9') || c == '_' || c == '-',
        CharClass::Plain => !(c == ' ' || c == '\t' || c == '\r') && c != '#',
        CharClass::NonQuote => c != '"',
        CharClass::NonNewline => c != '\n',
    }
}

/// Scans `s` from `from` while characters stay in the class `cl`.
fn scan_from(s: &str, from: usize, cl: CharClass) -> (r: usize)
    requires
        from <= s@.len(),
    ensures
        r as int == scan_while(s@, from as int, cl),
        from <= r <= s@.len(),
        forall|j: int| from <= j < r ==> class_holds(cl, s@[j]),
        r < s@.len() ==> !class_holds(cl, s@[r as int]),
{
    let n = s.unicode_len();
    let mut i: usize = from;
    while i < n && class_check(cl, s.get_char(i))
        invariant
            s@.len() == n as nat,
            from <= i <= n,
            forall|j: int| from <= j < i ==> class_holds(cl, s@[j]),
        decreases n - i,
    {
        i = i + 1;
    }
    proof {
        lemma_scan_fixed(s@, from as int, i as int, cl);
    }
    i
}

/// What one line of the document denotes.
#[verifier::ext_equal]
pub enum LineParse {
    /// Nothing but whitespace and an optional comment.
    Blank,
    /// One entry: its key, whether its value is a string, and the value.
    Entry { key: Seq<char>, is_str: bool, value: Seq<char> },
    /// A malformed line.
    Bad,
}

/// Whether a bare token is a boolean literal.
pub open spec fn is_bool_token(t: Seq<char>) -> bool {
    t == "true"@ || t == "false"@
}

/// Whether a bare token is an integer: an optional sign followed by at
/// least one decimal digit.
pub open spec fn is_int_token(t: Seq<char>) -> bool {
    let d: int = if t.len() > 0 && (t[0] == '+' || t[0] == '-') {
        1
    } else {
        0
    };
    t.len() > d && (forall|j: int| d <= j < t.len() ==> is_digit_char(t[j]))
}

/// Whether a bare token is a recognized non-string value.
pub open spec fn is_nonstring_token(t: Seq<char>) -> bool {
    is_bool_token(t) || is_int_token(t)
}

/// The parse of one line (the line contains no line break): skip leading
/// whitespace; a line that ends there or starts a comment is blank;
/// otherwise it must hold a key, `=`, and a quoted string or a recognized
/// bare token, followed only by whitespace and an optional comment.
pub open spec fn spec_parse_line(l: Seq<char>) -> LineParse {
    let i0 = scan_while(l, 0, CharClass::Ws);
    if i0 >= l.len() || l[i0] == '#' {
        LineParse::Blank
    } else if !is_key_char(l[i0]) {
        LineParse::Bad
    } else {
        let ke = scan_while(l, i0, CharClass::Key);
        let j = scan_while(l, ke, CharClass::Ws);
        if j >= l.len() || l[j] != '=' {
            LineParse::Bad
        } else {
            let v = scan_while(l, j + 1, CharClass::Ws);
            if v >= l.len() || l[v] == '#' {
                LineParse::Bad
            } else if l[v] == '"' {
                let q = scan_while(l, v + 1, CharClass::NonQuote);
                if q >= l.len() {
                    LineParse::Bad
                } else {
                    let rst = scan_while(l, q + 1, CharClass::Ws);
                    if rst < l.len() && l[rst] != '#' {
                        LineParse::Bad
                    } else {
                        LineParse::Entry {
                            key: l.subrange(i0, ke),
                            is_str: true,
                            value: l.subrange(v + 1, q),
                        }
                    }
                }
            } else {
                let te = scan_while(l, v, CharClass::Plain);
                let rst = scan_while(l, te, CharClass::Ws);
                if rst < l.len() && l[rst] != '#' {
                    LineParse::Bad
                } else if is_nonstring_token(l.subrange(v, te)) {
                    LineParse::Entry {
                        key: l.subrange(i0, ke),
                        is_str: false,
                        value: l.subrange(v, te),
                    }
                } else {
                    LineParse::Bad
                }
            }
        }
    }
}

/// The result of parsing one line.
enum ParsedLine {
    Blank,
    Entry(RawEntry),
    Bad,
}

/// Decides whether a bare token is a recognized non-string value.
fn nonstring_token(t: &str) -> (r: bool)
    ensures
        r == is_nonstring_token(t@),
{
    if str_eq(t, "true") || str_eq(t, "false") {
        return true;
    }
    let n = t.unicode_len();
    if n == 0 {
        return false;
    }
    let first = t.get_char(0);
    let start: usize = if first == '+' || first == '-' {
        1
    } else {
        0
    };
    if n <= start {
        return false;
    }
    let mut i: usize = start;
    while i < n
        invariant
            t@.len() == n as nat,
            start <= i <= n,
            n > start,
            !is_bool_token(t@),
            start as int == (if t@.len() > 0 && (t@[0] == '+' || t@[0] == '-') {
                1int
            } else {
                0int
            }),
            forall|j: int| start <= j < i ==> is_digit_char(t@[j]),
        decreases n - i,
    {
        let c = t.get_char(i);
        if !('0' <= c && c <= '9') {
            return false;
        }
        i = i + 1;
    }
    true
}

/// Parses one line of the document.
fn parse_line(line: &str) -> (r: ParsedLine)
    ensures
        ({
            let lp = spec_parse_line(line@);
            &&& (lp is Blank <==> r is Blank)
            &&& (lp is Bad <==> r is Bad)
            &&& (lp matches LineParse::Entry { key, is_str, value } ==> (r matches
                ParsedLine::Entry(e) && e.model() == (SpecEntry { key, is_str, value })))
        }),
{
    let n = line.unicode_len();
    let i0 = scan_from(line, 0, CharClass::Ws);
    if i0 == n || line.get_char(i0) == '#' {
        return ParsedLine::Blank;
    }
    if !class_check(CharClass::Key, line.get_char(i0)) {
        return ParsedLine::Bad;
    }
    let ke = scan_from(line, i0, CharClass::Key);
    let j = scan_from(line, ke, CharClass::Ws);
    if j == n || line.get_char(j) != '=' {
        return ParsedLine::Bad;
    }
    let v = scan_from(line, j + 1, CharClass::Ws);
    if v == n || line.get_char(v) == '#' {
        return ParsedLine::Bad;
    }
    if line.get_char(v) == '"' {
        let q = scan_from(line, v + 1, CharClass::NonQuote);
        if q == n {
            return ParsedLine::Bad;
        }
        let rst = scan_from(line, q + 1, CharClass::Ws);
        if rst < n && line.get_char(rst) != '#' {
            return ParsedLine::Bad;
        }
        let key = String::from_str(line.substring_char(i0, ke));
        let val = String::from_str(line.substring_char(v + 1, q));
        ParsedLine::Entry(RawEntry { key, value: ConfigValue::Str(val) })
    } else {
        let te = scan_from(line, v, CharClass::Plain);
        let rst = scan_from(line, te, CharClass::Ws);
        if rst < n && line.get_char(rst) != '#' {
            return ParsedLine::Bad;
        }
        let tok = line.substring_char(v, te);
        if nonstring_token(tok) {
            let key = String::from_str(line.substring_char(i0, ke));
            let val = String::from_str(tok);
            ParsedLine::Entry(RawEntry { key, value: ConfigValue::Other(val) })
        } else {
            ParsedLine::Bad
        }
    }
}

/// The outcome of scanning a whole document: its entries in order, or the
/// 1-based number of the first offending line (malformed, or repeating an
/// earlier key).
#[verifier::ext_equal]
pub enum DocScan {
    Entries(Seq<SpecEntry>),
    BadLine(int),
}

/// Scans the document from position `i` (the start of line `lineno`),
/// with `acc` the entries collected from the lines before it.
pub open spec fn spec_scan_doc(s: Seq<char>, i: int, lineno: int, acc: Seq<SpecEntry>) -> DocScan
    decreases s.len() + 1 - i,
    via spec_scan_doc_dec
{
    if i < 0 || i >= s.len() {
        DocScan::Entries(acc)
    } else {
        let e = scan_while(s, i, CharClass::NonNewline);
        match spec_parse_line(s.subrange(i, e)) {
            LineParse::Blank => spec_scan_doc(s, e + 1, lineno + 1, acc),
            LineParse::Bad => DocScan::BadLine(lineno),
            LineParse::Entry { key, is_str, value } => if has_key(acc, key) {
                DocScan::BadLine(lineno)
            } else {
                spec_scan_doc(s, e + 1, lineno + 1, acc.push(SpecEntry { key, is_str, value }))
            },
        }
    }
}

#[via_fn]
proof fn spec_scan_doc_dec(s: Seq<char>, i: int, lineno: int, acc: Seq<SpecEntry>) {
    if 0 <= i < s.len() {
        lemma_scan_while(s, i, CharClass::NonNewline);
    }
}

/// Whether some earlier entry already uses the key `k`.
fn contains_key(entries: &Vec<RawEntry>, k: &str) -> (r: bool)
    ensures
        r == has_key(models(entries@), k@),
{
    let mut idx: usize = 0;
    while idx < entries.len()
        invariant
            idx <= entries@.len(),
            forall|j: int| 0 <= j < idx ==> models(entries@)[j].key != k@,
        decreases entries@.len() - idx,
    {
        if str_eq(entries[idx].key.as_str(), k) {
            assert(models(entries@)[idx as int].key == k@);
            return true;
        }
        idx = idx + 1;
    }
    false
}

/// Parses the whole document into its raw entries in document order, or
/// reports the first offending line. On success no key repeats.
pub fn scan_document(text: &str) -> (r: Result<Vec<RawEntry>, usize>)
    requires
        text@.len() < usize::MAX,
    ensures
        match r {
            Ok(v) => spec_scan_doc(text@, 0, 1, Seq::empty()) == DocScan::Entries(models(v@))
                && (forall|a: int, b: int|
                0 <= a < b < models(v@).len() ==> models(v@)[a].key != models(v@)[b].key),
            Err(line) => spec_scan_doc(text@, 0, 1, Seq::empty()) == DocScan::BadLine(line as int),
        },
{
    let n = text.unicode_len();
    let mut entries: Vec<RawEntry> = Vec::new();
    let mut i: usize = 0;
    let mut lineno: usize = 1;
    proof {
        assert(models(entries@) =~= Seq::<SpecEntry>::empty());
    }
    while i < n
        invariant
            text@.len() == n as nat,
            n < usize::MAX,
            i <= n,
            1 <= lineno <= i + 1,
            spec_scan_doc(text@, 0, 1, Seq::empty()) == spec_scan_doc(
                text@,
                i as int,
                lineno as int,
                models(entries@),
            ),
            forall|a: int, b: int|
                0 <= a < b < models(entries@).len() ==> models(entries@)[a].key != models(
                    entries@,
                )[b].key,
        decreases n - i,
    {
        let e = scan_from(text, i, CharClass::NonNewline);
        let line = text.substring_char(i, e);
        let pl = parse_line(line);
        let next = if e == n {
            n
        } else {
            e + 1
        };
        match pl {
            ParsedLine::Blank => {
                proof {
                    let macc = models(entries@);
                    assert(spec_scan_doc(text@, i as int, lineno as int, macc) == spec_scan_doc(
                        text@,
                        e as int + 1,
                        lineno as int + 1,
                        macc,
                    ));
                    if e == n {
                        assert(spec_scan_doc(text@, e as int + 1, lineno as int + 1, macc)
                            == DocScan::Entries(macc));
                        assert(spec_scan_doc(text@, n as int, lineno as int + 1, macc)
                            == DocScan::Entries(macc));
                    }
                }
                i = next;
                lineno = lineno + 1;
            },
            ParsedLine::Bad => {
                proof {
                    assert(spec_scan_doc(text@, i as int, lineno as int, models(entries@))
                        == DocScan::BadLine(lineno as int));
                }
                return Err(lineno);
            },
            ParsedLine::Entry(entry) => {
                if contains_key(&entries, entry.key.as_str()) {
                    proof {
                        assert(spec_scan_doc(text@, i as int, lineno as int, models(entries@))
                            == DocScan::BadLine(lineno as int));
                    }
                    return Err(lineno);
                }
                proof {
                    let macc = models(entries@);
                    let me = entry.model();
                    assert(spec_scan_doc(text@, i as int, lineno as int, macc) == spec_scan_doc(
                        text@,
                        e as int + 1,
                        lineno as int + 1,
                        macc.push(me),
                    ));
                    if e == n {
                        assert(spec_scan_doc(text@, e as int + 1, lineno as int + 1, macc.push(me))
                            == DocScan::Entries(macc.push(me)));
                        assert(spec_scan_doc(text@, n as int, lineno as int + 1, macc.push(me))
                            == DocScan::Entries(macc.push(me)));
                    }
                    assert(models(entries@.push(entry)) =~= macc.push(me));
                }
                entries.push(entry);
                i = next;
                lineno = lineno + 1;
            },
        }
    }
    Ok(entries)
}

/// Whether a parsed entry passes validation: its value is a string and the
/// string is one of the severity keywords.
pub open spec fn entry_valid(e: SpecEntry) -> bool {
    e.is_str && keyword_of(e.value) is Some
}

/// The position of the first entry at or after `i` that fails validation.
pub open spec fn first_invalid(es: Seq<SpecEntry>, i: int) -> Option<int>
    decreases es.len() - i,
{
    if i < 0 || i >= es.len() {
        None
    } else if !entry_valid(es[i]) {
        Some(i)
    } else {
        first_invalid(es, i + 1)
    }
}

/// Validates parsed entries in document order. The first entry whose value
/// is not a string, or is a string outside the severity keywords, fails
/// the whole document with an error naming that entry's key and value;
/// otherwise every entry becomes a configuration entry.
fn validate_entries(entries: Vec<RawEntry>) -> (r: Result<Config, Error>)
    ensures
        ({
            let es = models(entries@);
            match first_invalid(es, 0) {
                None => (r matches Ok(cfg) && cfg.model().len() == es.len() && (forall|k: int|
                    0 <= k < es.len() ==> cfg.model()[k].0 == es[k].key && Some(cfg.model()[k].1)
                        == keyword_of(es[k].value)) && ((forall|a: int, b: int|
                    0 <= a < b < es.len() ==> es[a].key != es[b].key) ==> cfg.wf())),
                Some(b) => (r matches Err(e) && (e matches Error::Validation { key, value, reason }
                    && key@ == es[b].key && value@ == es[b].value && reason == (if es[b].is_str {
                    ValidationReason::UnknownSeverity
                } else {
                    ValidationReason::NotAString
                }))),
            }
        }),
{
    let ghost es = models(entries@);
    let n = entries.len();
    let mut settings: Vec<(String, LintSetting)> = Vec::new();
    let mut k: usize = 0;
    while k < n
        invariant
            es == models(entries@),
            n == entries@.len(),
            k <= n,
            settings@.len() == k,
            forall|j: int| 0 <= j < k ==> entry_valid(es[j]),
            forall|j: int|
                0 <= j < k ==> settings@[j].0@ == es[j].key && Some(settings@[j].1) == keyword_of(
                    es[j].value,
                ),
            first_invalid(es, 0) == first_invalid(es, k as int),
        decreases n - k,
    {
        let entry = &entries[k];
        match LintSetting::from_value(&entry.value) {
            Ok(setting) => {
                settings.push((entry.key.clone(), setting));
            },
            Err(reason) => {
                let value_text = match &entry.value {
                    ConfigValue::Str(s) => s.clone(),
                    ConfigValue::Other(t) => t.clone(),
                };
                return Err(Error::Validation { key: entry.key.clone(), value: value_text, reason });
            },
        }
        k = k + 1;
    }
    let cfg = Config { settings };
    proof {
        assert(first_invalid(es, 0) is None);
        assert forall|j: int|
            0 <= j < es.len() implies cfg.model()[j].0 == es[j].key && Some(cfg.model()[j].1)
            == keyword_of(es[j].value) by {
            assert(cfg.model()[j] == (cfg.settings@[j].0@, cfg.settings@[j].1));
        }
        if forall|a: int, b: int| 0 <= a < b < es.len() ==> es[a].key != es[b].key {
            assert forall|a: int, b: int|
                0 <= a < b < cfg.model().len() implies cfg.model()[a].0 != cfg.model()[b].0 by {
                assert(es[a].key != es[b].key);
                assert(cfg.model()[a].0 == es[a].key);
                assert(cfg.model()[b].0 == es[b].key);
            }
        }
    }
    Ok(cfg)
}

/// Parses and validates a configuration document: the sequence of lines is
/// scanned into entries (failing on the first malformed or key-repeating
/// line), then every value must be a severity keyword string (failing on
/// the first that is not). The result maps each lint name, in document
/// order and without repetition, to its severity.
pub fn parse_config(text: &str) -> (r: Result<Config, Error>)
    requires
        text@.len() < usize::MAX,
    ensures
        match spec_scan_doc(text@, 0, 1, Seq::empty()) {
            DocScan::BadLine(bad) => (r matches Err(e) && (e matches Error::Parse { line }
                && line as int == bad)),
            DocScan::Entries(es) => match first_invalid(es, 0) {
                None => (r matches Ok(cfg) && cfg.wf() && cfg.model().len() == es.len() && (forall|
                    k: int,
                |
                    0 <= k < es.len() ==> cfg.model()[k].0 == es[k].key && Some(cfg.model()[k].1)
                        == keyword_of(es[k].value))),
                Some(b) => (r matches Err(e) && (e matches Error::Validation { key, value, reason }
                    && key@ == es[b].key && value@ == es[b].value && reason == (if es[b].is_str {
                    ValidationReason::UnknownSeverity
                } else {
                    ValidationReason::NotAString
                }))),
            },
        },
{
    match scan_document(text) {
        Err(line) => Err(Error::Parse { line }),
        Ok(entries) => validate_entries(entries),
    }
}

/// Characterizes `first_invalid` from a starting position: `None` exactly
/// when everything from there on is valid; otherwise the first invalid
/// position, with everything before it valid.
proof fn lemma_first_invalid(es: Seq<SpecEntry>, i: int)
    requires
        0 <= i <= es.len(),
    ensures
        (first_invalid(es, i) is None) <==> (forall|j: int|
            i <= j < es.len() ==> entry_valid(es[j])),
        first_invalid(es, i) matches Some(b) ==> i <= b < es.len() && !entry_valid(es[b]) && (
        forall|j: int| i <= j < b ==> entry_valid(es[j])),
    decreases es.len() - i,
{
    if i < es.len() && entry_valid(es[i]) {
        lemma_first_invalid(es, i + 1);
    }
}

/// Validation is all-or-nothing: it succeeds exactly when every entry is a
/// recognized severity string, and a document with any invalid entry is
/// rejected as a whole, naming precisely the first invalid entry — it
/// never partially succeeds.
pub proof fn lemma_validation_all_or_nothing(es: Seq<SpecEntry>)
    ensures
        (first_invalid(es, 0) is None) <==> (forall|j: int|
            0 <= j < es.len() ==> entry_valid(es[j])),
        first_invalid(es, 0) matches Some(b) ==> 0 <= b < es.len() && !entry_valid(es[b]) && (
        forall|j: int| 0 <= j < b ==> entry_valid(es[j])),
{
    lemma_first_invalid(es, 0);
}

} // verus!
