//! Guarantees of the store and the resolution engine, stated and proved
//! once for all inputs.

use vstd::prelude::*;

use crate::assets::{
    spec_common_script, spec_effective_mode, spec_effective_theme, spec_lang_script,
    spec_lang_scripts_upto, spec_resolve,
};
use crate::config::Settings;
use crate::context::Prefs;
use crate::lang::HljsLang;
use crate::manifest::ManifestSpec;
use crate::mode::HljsMode;
use crate::theme::HljsTheme;

verus! {

/// Enabling a language that is already enabled has no further effect, so
/// enabling the same language any number of times yields the same store
/// content — and thereby the same manifest — as enabling it once.
pub proof fn lemma_enable_idempotent(p: Prefs, l: HljsLang, s: Settings)
    ensures
        p.enable(l).enable(l) == p.enable(l),
        spec_resolve(p.enable(l).enable(l), s) == spec_resolve(p.enable(l), s),
{
    assert(p.langs.insert(l).insert(l) =~= p.langs.insert(l));
}

/// Enabling languages in either order yields the same store content, so
/// resolution does not depend on the order in which page components
/// registered their languages.
pub proof fn lemma_enable_commutes(p: Prefs, a: HljsLang, b: HljsLang, s: Settings)
    ensures
        p.enable(a).enable(b) == p.enable(b).enable(a),
        spec_resolve(p.enable(a).enable(b), s) == spec_resolve(p.enable(b).enable(a), s),
{
    assert(p.langs.insert(a).insert(b) =~= p.langs.insert(b).insert(a));
}

/// Once highlighting is disabled, no preference operation of the store
/// clears the flag again.
pub proof fn lemma_disable_monotonic(p: Prefs, l: HljsLang, t: HljsTheme, m: HljsMode)
    requires
        p.disabled,
    ensures
        p.enable(l).disabled,
        p.with_theme(t).disabled,
        p.with_mode(m).disabled,
        p.without_hljs().disabled,
{
}

/// A disabled store resolves to the empty manifest, whatever else it
/// holds; together with [`lemma_disable_monotonic`], the manifest stays
/// empty for the remainder of the request.
pub proof fn lemma_disabled_resolves_empty(p: Prefs, s: Settings)
    requires
        p.disabled,
    ensures
        spec_resolve(p, s) == ManifestSpec::empty(),
{
}

/// Of two theme writes the later one governs resolution.
pub proof fn lemma_theme_last_writer_wins(p: Prefs, a: HljsTheme, b: HljsTheme, s: Settings)
    ensures
        p.with_theme(a).with_theme(b) == p.with_theme(b),
        spec_effective_theme(p.with_theme(a).with_theme(b), s) == b,
{
}

/// Of two mode writes the later one governs resolution.
pub proof fn lemma_mode_last_writer_wins(p: Prefs, a: HljsMode, b: HljsMode, s: Settings)
    ensures
        p.with_mode(a).with_mode(b) == p.with_mode(b),
        spec_effective_mode(p.with_mode(a).with_mode(b), s) == b,
{
}

/// Loading is demand-driven: a store with no enabled language resolves to
/// the empty manifest — no scripts and no stylesheet — even if a theme or
/// a mode was explicitly set.
pub proof fn lemma_demand_driven(p: Prefs, s: Settings)
    requires
        p.langs == Set::<HljsLang>::empty(),
    ensures
        spec_resolve(p, s) == ManifestSpec::empty(),
{
}

/// An enabled language that stands before position `i` of the catalog
/// order contributes its script to the references of the first `i`
/// catalog members.
proof fn lemma_lang_scripts_upto_contains(langs: Set<HljsLang>, l: HljsLang, i: int)
    requires
        langs.contains(l),
        l.spec_index() < i,
    ensures
        spec_lang_scripts_upto(langs, i).contains(spec_lang_script(l)),
    decreases i,
{
    HljsLang::lemma_catalog_complete(l);
    let upto = spec_lang_scripts_upto(langs, i);
    if i - 1 == l.spec_index() {
        assert(upto[upto.len() - 1] == spec_lang_script(l));
    } else {
        lemma_lang_scripts_upto_contains(langs, l, i - 1);
        let prev = spec_lang_scripts_upto(langs, i - 1);
        let k = choose|k: int| 0 <= k < prev.len() && prev[k] == spec_lang_script(l);
        assert(upto[k] == spec_lang_script(l));
    }
}

/// With the core runtime in effect, every enabled language contributes
/// one script reference to the manifest: the closed catalog resolves
/// every member, so none is skipped.
pub proof fn lemma_core_emits_each_enabled_language(p: Prefs, s: Settings, l: HljsLang)
    requires
        !p.disabled,
        p.langs.contains(l),
        spec_effective_mode(p, s) == HljsMode::Core,
    ensures
        spec_resolve(p, s).scripts.contains(spec_lang_script(l)),
{
    assert(p.langs != Set::<HljsLang>::empty()) by {
        assert(p.langs.contains(l));
    }
    HljsLang::lemma_catalog_complete(l);
    lemma_lang_scripts_upto_contains(p.langs, l, crate::lang::NUM_LANGS as int);
    let scripts = spec_resolve(p, s).scripts;
    let tail = spec_lang_scripts_upto(p.langs, crate::lang::NUM_LANGS as int);
    let k = choose|k: int| 0 <= k < tail.len() && tail[k] == spec_lang_script(l);
    assert(scripts[k + 1] == spec_lang_script(l));
}

/// With the bundled runtime in effect, exactly one script reference is
/// emitted beside the inline configuration script, however many languages
/// are enabled: the per-language list is not consulted.
pub proof fn lemma_common_single_script(p: Prefs, s: Settings)
    requires
        !p.disabled,
        p.langs != Set::<HljsLang>::empty(),
        spec_effective_mode(p, s) == HljsMode::Common,
    ensures
        spec_resolve(p, s).scripts == seq![spec_common_script()],
        spec_resolve(p, s).scripts.len() == 1,
        spec_resolve(p, s).inline_script is Some,
{
}

} // verus!
