//! The validated configuration: one severity per lint name.

use vstd::prelude::*;
use crate::setting::LintSetting;

verus! {

/// A parsed and validated configuration, in document order. Constructed
/// once per run from the on-disk file and held immutably afterwards.
#[derive(Debug, Clone)]
pub struct Config {
    pub settings: Vec<(String, LintSetting)>,
}

impl Config {
    /// The mathematical model: the sequence of (lint name, severity) pairs.
    pub open spec fn model(&self) -> Seq<(Seq<char>, LintSetting)> {
        self.settings@.map_values(|p: (String, LintSetting)| (p.0@, p.1))
    }

    /// Every lint name occurs at most once.
    pub open spec fn wf(&self) -> bool {
        forall|i: int, j: int|
            0 <= i < j < self.model().len() ==> self.model()[i].0 != self.model()[j].0
    }
}

} // verus!
