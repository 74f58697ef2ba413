//! Configuration settings for the package.
//!
//! A persisted configuration source supplies three settings: the delivery
//! mode, the default theme and the tab size. Values are recognized here at
//! the type boundary; anything unrecognized falls back to its documented
//! default, so the settings a resolver sees are always well formed.

use vstd::prelude::*;

use crate::mode::HljsMode;
use crate::theme::HljsTheme;

verus! {

/// Tab size used when the configuration supplies none, or a non-positive
/// one.
pub const DEFAULT_TABSIZE: usize = 4;

/// Section of the configuration settings that concerns highlighting.
#[derive(Clone, Copy, Debug, PartialEq, Eq, Structural)]
pub struct Hljs {
    /// Delivery mode of the runtime when no request forces one.
    pub mode: HljsMode,
    /// Theme used when no request chooses one.
    pub theme: HljsTheme,
    /// Number of spaces substituted for a tab character.
    pub tabsize: usize,
}

/// Configuration settings of the package.
#[derive(Clone, Copy, Debug, PartialEq, Eq, Structural)]
pub struct Settings {
    pub hljs: Hljs,
}

impl Settings {
    /// The documented defaults: core runtime, catalog default theme, four
    /// spaces per tab.
    pub open spec fn spec_default() -> Settings {
        Settings {
            hljs: Hljs {
                mode: HljsMode::Core,
                theme: HljsTheme::Default,
                tabsize: DEFAULT_TABSIZE as usize,
            },
        }
    }

    /// Settings denoted by raw configuration values: each recognized value
    /// is taken as written, each unrecognized or non-positive one falls
    /// back to its default.
    pub open spec fn spec_from_raw(mode: Seq<char>, theme: Seq<char>, tabsize: usize) -> Settings {
        Settings {
            hljs: Hljs {
                mode: match HljsMode::spec_from_name(mode) {
                    Some(m) => m,
                    None => HljsMode::Core,
                },
                theme: match HljsTheme::spec_from_name(theme) {
                    Some(t) => t,
                    None => HljsTheme::Default,
                },
                tabsize: if tabsize >= 1 {
                    tabsize
                } else {
                    DEFAULT_TABSIZE as usize
                },
            },
        }
    }

    /// Reads raw configuration values, falling back to the documented
    /// default wherever a value is unrecognized or non-positive.
    pub fn from_raw(mode: &str, theme: &str, tabsize: usize) -> (r: Settings)
        ensures
            r == Settings::spec_from_raw(mode@, theme@, tabsize),
    {
        let m = match HljsMode::from_name(mode) {
            Some(m) => m,
            None => HljsMode::Core,
        };
        let t = match HljsTheme::from_name(theme) {
            Some(t) => t,
            None => HljsTheme::Default,
        };
        let n: usize = if tabsize >= 1 {
            tabsize
        } else {
            DEFAULT_TABSIZE
        };
        Settings { hljs: Hljs { mode: m, theme: t, tabsize: n } }
    }
}

impl Default for Settings {
    /// The documented defaults.
    fn default() -> (r: Self)
        ensures
            r == Settings::spec_default(),
    {
        Settings {
            hljs: Hljs { mode: HljsMode::Core, theme: HljsTheme::Default, tabsize: DEFAULT_TABSIZE },
        }
    }
}

} // verus!
