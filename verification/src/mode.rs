//! Delivery modes of the highlighting runtime.

use vstd::prelude::*;

verus! {

/// How the highlighting runtime is delivered to the browser.
///
/// `Core` loads a minimal runtime plus one script per enabled language;
/// `Common` loads a single bundled runtime that already contains the
/// popular languages and ignores the per-language list.
#[derive(Clone, Copy, Debug, PartialEq, Eq, Structural)]
pub enum HljsMode {
    Core,
    Common,
}

impl HljsMode {
    /// Canonical configuration-file spelling of this mode.
    pub open spec fn spec_name(self) -> Seq<char> {
        match self {
            HljsMode::Core => "core"@,
            HljsMode::Common => "common"@,
        }
    }

    /// Returns the canonical spelling of this mode.
    pub fn name(&self) -> (r: &'static str)
        ensures
            r@ == self.spec_name(),
    {
        match self {
            HljsMode::Core => "core",
            HljsMode::Common => "common",
        }
    }

    /// Mode denoted by a configuration string, if it is recognized.
    pub open spec fn spec_from_name(s: Seq<char>) -> Option<HljsMode> {
        if s == "core"@ {
            Some(HljsMode::Core)
        } else if s == "common"@ {
            Some(HljsMode::Common)
        } else {
            None
        }
    }

    /// Looks a mode up by its configuration spelling; `None` outside the
    /// closed set.
    pub fn from_name(s: &str) -> (r: Option<HljsMode>)
        ensures
            r == HljsMode::spec_from_name(s@),
    {
        if crate::text::str_eq(s, "core") {
            Some(HljsMode::Core)
        } else if crate::text::str_eq(s, "common") {
            Some(HljsMode::Common)
        } else {
            None
        }
    }
}

impl Default for HljsMode {
    /// The default delivery mode is the minimal core runtime.
    fn default() -> (r: Self)
        ensures
            r == HljsMode::Core,
    {
        HljsMode::Core
    }
}

} // verus!
