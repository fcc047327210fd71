//! Parsed but not yet validated configuration entries, and their models.

use vstd::prelude::*;

verus! {

/// One top-level value of the configuration document, as the parser sees
/// it: either a string (holding its contents) or a well-formed non-string
/// value (holding its raw text, for diagnostics).
#[derive(Debug, Clone)]
pub enum ConfigValue {
    Str(String),
    Other(String),
}

/// One parsed entry: a lint name and the raw value written for it.
#[derive(Debug, Clone)]
pub struct RawEntry {
    pub key: String,
    pub value: ConfigValue,
}

/// The mathematical model of a parsed entry: its key, whether its value is
/// a string, and the value's characters.
#[verifier::ext_equal]
pub struct SpecEntry {
    pub key: Seq<char>,
    pub is_str: bool,
    pub value: Seq<char>,
}

impl RawEntry {
    /// The model of this entry.
    pub open spec fn model(&self) -> SpecEntry {
        SpecEntry {
            key: self.key@,
            is_str: self.value is Str,
            value: match self.value {
                ConfigValue::Str(s) => s@,
                ConfigValue::Other(s) => s@,
            },
        }
    }
}

/// The models of a sequence of parsed entries, in order.
pub open spec fn models(s: Seq<RawEntry>) -> Seq<SpecEntry> {
    s.map_values(|e: RawEntry| e.model())
}

/// Whether some entry of `es` already uses the key `k`.
pub open spec fn has_key(es: Seq<SpecEntry>, k: Seq<char>) -> bool {
    exists|j: int| 0 <= j < es.len() && es[j].key == k
}

} // verus!
