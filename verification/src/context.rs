//! Request-scoped preference store.
//!
//! While a page is composed, any number of independent callers record
//! highlighting preferences here: which languages are used, which theme,
//! which delivery mode, or that highlighting is switched off for the
//! request. The store is owned by one in-flight render and is consumed by
//! the resolution engine once all content has been composed.

use vstd::prelude::*;

use crate::lang::HljsLang;
use crate::mode::HljsMode;
use crate::theme::HljsTheme;

verus! {

/// Mathematical content of a preference store: the set of enabled
/// languages (duplicates collapse, order is irrelevant), the last theme
/// and mode written, and the disabled flag.
pub struct Prefs {
    pub langs: Set<HljsLang>,
    pub theme: Option<HljsTheme>,
    pub mode: Option<HljsMode>,
    pub disabled: bool,
}

impl Prefs {
    /// Content of a freshly created store: nothing enabled, nothing
    /// chosen, highlighting on.
    pub open spec fn init() -> Prefs {
        Prefs { langs: Set::empty(), theme: None, mode: None, disabled: false }
    }

    /// Effect of enabling one language.
    pub open spec fn enable(self, l: HljsLang) -> Prefs {
        Prefs { langs: self.langs.insert(l), ..self }
    }

    /// Effect of choosing a theme: the last writer wins.
    pub open spec fn with_theme(self, t: HljsTheme) -> Prefs {
        Prefs { theme: Some(t), ..self }
    }

    /// Effect of forcing a delivery mode: the last writer wins.
    pub open spec fn with_mode(self, m: HljsMode) -> Prefs {
        Prefs { mode: Some(m), ..self }
    }

    /// Effect of disabling highlighting for the request.
    pub open spec fn without_hljs(self) -> Prefs {
        Prefs { disabled: true, ..self }
    }
}

/// Request-scoped preference store. Its mathematical content is a
/// [`Prefs`] value, reached through `@`.
pub struct HljsContext {
    langs: Vec<HljsLang>,
    theme: Option<HljsTheme>,
    mode: Option<HljsMode>,
    disabled: bool,
}

impl View for HljsContext {
    type V = Prefs;

    closed spec fn view(&self) -> Prefs {
        Prefs {
            langs: self.langs@.to_set(),
            theme: self.theme,
            mode: self.mode,
            disabled: self.disabled,
        }
    }
}

impl HljsContext {
    /// Each enabled language is recorded once.
    #[verifier::type_invariant]
    spec fn wf(self) -> bool {
        self.langs@.no_duplicates()
    }

    /// Creates the store of a fresh request.
    pub fn new() -> (r: HljsContext)
        ensures
            r@ == Prefs::init(),
    {
        let r = HljsContext { langs: Vec::new(), theme: None, mode: None, disabled: false };
        proof {
            assert(r.langs@.to_set() =~= Set::<HljsLang>::empty());
        }
        r
    }

    /// Whether `l` has been enabled.
    pub fn has_language(&self, l: HljsLang) -> (r: bool)
        ensures
            r == self@.langs.contains(l),
    {
        let n: usize = self.langs.len();
        let mut i: usize = 0;
        while i < n
            invariant
                n == self.langs@.len(),
                i <= n,
                forall|j: int| 0 <= j < i ==> self.langs@[j] != l,
            decreases n - i,
        {
            if self.langs[i] == l {
                return true;
            }
            i += 1;
        }
        false
    }

    /// Whether no language at all has been enabled.
    pub fn has_no_languages(&self) -> (r: bool)
        ensures
            r == (self@.langs == Set::<HljsLang>::empty()),
    {
        if self.langs.len() == 0 {
            proof {
                assert(self.langs@.to_set() =~= Set::<HljsLang>::empty());
            }
            true
        } else {
            proof {
                assert(self.langs@.to_set().contains(self.langs@[0]));
            }
            false
        }
    }

    /// Enables one language; enabling it again has no further effect.
    pub fn enable_language(&mut self, l: HljsLang)
        ensures
            final(self)@ == old(self)@.enable(l),
    {
        proof {
            use_type_invariant(&*self);
        }
        if !self.has_language(l) {
            let mut langs: Vec<HljsLang> = Vec::new();
            core::mem::swap(&mut langs, &mut self.langs);
            langs.push(l);
            proof {
                old(self).langs@.lemma_push_to_set_commute(l);
                assert(langs@.no_duplicates()) by {
                    assert(forall|i: int| 0 <= i < langs@.len() - 1 ==> langs@[i] == old(
                        self,
                    ).langs@[i]);
                }
            }
            self.langs = langs;
        } else {
            proof {
                assert(self.langs@.to_set().insert(l) =~= self.langs@.to_set());
            }
        }
    }

    /// Chooses the theme; the last writer wins.
    pub fn set_theme(&mut self, t: HljsTheme)
        ensures
            final(self)@ == old(self)@.with_theme(t),
    {
        proof {
            use_type_invariant(&*self);
        }
        self.theme = Some(t);
    }

    /// Forces the delivery mode; the last writer wins.
    pub fn force_mode(&mut self, m: HljsMode)
        ensures
            final(self)@ == old(self)@.with_mode(m),
    {
        proof {
            use_type_invariant(&*self);
        }
        self.mode = Some(m);
    }

    /// Switches highlighting off for the remainder of the request; no
    /// operation of the store sets the flag back.
    pub fn disable(&mut self)
        ensures
            final(self)@ == old(self)@.without_hljs(),
    {
        proof {
            use_type_invariant(&*self);
        }
        self.disabled = true;
    }

    /// Whether highlighting has been switched off.
    pub fn is_disabled(&self) -> (r: bool)
        ensures
            r == self@.disabled,
    {
        self.disabled
    }

    /// The theme chosen last, if any was chosen.
    pub fn theme(&self) -> (r: Option<HljsTheme>)
        ensures
            r == self@.theme,
    {
        self.theme
    }

    /// The mode forced last, if any was forced.
    pub fn mode(&self) -> (r: Option<HljsMode>)
        ensures
            r == self@.mode,
    {
        self.mode
    }

    /// The enabled languages, each recorded once.
    pub fn languages(&self) -> (r: &Vec<HljsLang>)
        ensures
            r@.to_set() == self@.langs,
            r@.no_duplicates(),
    {
        proof {
            use_type_invariant(&*self);
        }
        &self.langs
    }
}

} // verus!
