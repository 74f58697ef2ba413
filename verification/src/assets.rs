//! The asset resolution engine.
//!
//! Consumes the preference store exactly once, after all page content has
//! been composed, and computes the ordered asset references and the inline
//! configuration script to inject into the page output. Resolution is a
//! pure function of the store's content and the configured settings, so
//! repeated resolution over an unchanged store yields identical manifests.

use vstd::prelude::*;

use crate::config::Settings;
use crate::context::{HljsContext, Prefs};
use crate::lang::HljsLang;
use crate::lang::NUM_LANGS;
use crate::manifest::{lemma_path_views_push, path_views, AssetManifest, ManifestSpec};
use crate::mode::HljsMode;
use crate::text;
use crate::theme::HljsTheme;
use crate::HLJS_VERSION;

verus! {

/// An asset path stamped with the library version.
pub open spec fn spec_versioned(path: Seq<char>) -> Seq<char> {
    path + "?v="@ + HLJS_VERSION@
}

/// Stamps an asset path with the library version.
pub fn versioned(path: String) -> (r: String)
    ensures
        r@ == spec_versioned(path@),
{
    path.concat("?v=").concat(HLJS_VERSION)
}

/// Script reference of the minimal core runtime.
pub open spec fn spec_core_script() -> Seq<char> {
    spec_versioned("/hljs/js/core.min.js"@)
}

/// Script reference of the bundled runtime with the popular languages.
pub open spec fn spec_common_script() -> Seq<char> {
    spec_versioned("/hljs/js/highlight.min.js"@)
}

/// Script reference of one language of the catalog.
pub open spec fn spec_lang_script(l: HljsLang) -> Seq<char> {
    spec_versioned(l.spec_to_url())
}

/// Stylesheet reference of one theme of the catalog.
pub open spec fn spec_theme_stylesheet(t: HljsTheme) -> Seq<char> {
    spec_versioned(HljsTheme::spec_to_url(t.spec_name()))
}

/// Body of the inline configuration script: switches language
/// auto-detection off and replaces tabs by the configured number of
/// spaces. It runs after the runtime scripts, once their target object
/// exists.
pub open spec fn spec_inline_config(tabsize: usize) -> Seq<char> {
    "hljs.configure({\n  tabReplace: '"@ + text::repeat_char(' ', tabsize as nat)
        + "',\n  languages: [],\n});\nhljs.highlightAll();"@
}

/// Builds the body of the inline configuration script.
pub fn inline_config(tabsize: usize) -> (r: String)
    ensures
        r@ == spec_inline_config(tabsize),
{
    let mut out = String::from_str("hljs.configure({\n  tabReplace: '");
    let sp = text::spaces(tabsize);
    out.append(sp.as_str());
    out.append("',\n  languages: [],\n});\nhljs.highlightAll();");
    out
}

/// The delivery mode resolution uses: the forced one if any caller forced
/// one, else the configured default.
pub open spec fn spec_effective_mode(p: Prefs, s: Settings) -> HljsMode {
    match p.mode {
        Some(m) => m,
        None => s.hljs.mode,
    }
}

/// The theme resolution uses: the one chosen last if any caller chose
/// one, else the configured default.
pub open spec fn spec_effective_theme(p: Prefs, s: Settings) -> HljsTheme {
    match p.theme {
        Some(t) => t,
        None => s.hljs.theme,
    }
}

/// Script references of the enabled languages among the first `i` catalog
/// members, in catalog order: one per distinct enabled language, none for
/// the others.
pub open spec fn spec_lang_scripts_upto(langs: Set<HljsLang>, i: int) -> Seq<Seq<char>>
    decreases i,
{
    if i <= 0 {
        Seq::empty()
    } else {
        spec_lang_scripts_upto(langs, i - 1) + if langs.contains(HljsLang::spec_lang_at(i - 1)) {
            seq![spec_lang_script(HljsLang::spec_lang_at(i - 1))]
        } else {
            Seq::empty()
        }
    }
}

/// Script references of the enabled languages, in catalog order.
pub open spec fn spec_lang_scripts(langs: Set<HljsLang>) -> Seq<Seq<char>> {
    spec_lang_scripts_upto(langs, NUM_LANGS as int)
}

/// The ordered script references of a non-empty render: the runtime
/// first, then — with the core runtime only — one script per distinct
/// enabled language.
pub open spec fn spec_scripts(mode: HljsMode, langs: Set<HljsLang>) -> Seq<Seq<char>> {
    match mode {
        HljsMode::Core => seq![spec_core_script()] + spec_lang_scripts(langs),
        HljsMode::Common => seq![spec_common_script()],
    }
}

/// The manifest resolution owes for a store content and settings. An
/// explicit disable takes precedence over every other field; with no
/// enabled language nothing is loaded, even if a theme or mode was set;
/// otherwise the runtime scripts come first, the inline configuration
/// script after them, beside exactly one stylesheet.
pub open spec fn spec_resolve(p: Prefs, s: Settings) -> ManifestSpec {
    if p.disabled {
        ManifestSpec::empty()
    } else if p.langs == Set::<HljsLang>::empty() {
        ManifestSpec::empty()
    } else {
        ManifestSpec {
            scripts: spec_scripts(spec_effective_mode(p, s), p.langs),
            inline_script: Some(spec_inline_config(s.hljs.tabsize)),
            stylesheets: seq![spec_theme_stylesheet(spec_effective_theme(p, s))],
        }
    }
}

/// Resolves the accumulated preferences of one render into its asset
/// manifest. Pure: the result is a function of the store's content and
/// the settings alone, so invoking it again over an unchanged store
/// yields an identical manifest.
pub fn resolve(cx: &HljsContext, settings: &Settings) -> (m: AssetManifest)
    ensures
        m@ == spec_resolve(cx@, *settings),
{
    if cx.is_disabled() {
        return AssetManifest::empty();
    }
    if cx.has_no_languages() {
        return AssetManifest::empty();
    }
    let mode = match cx.mode() {
        Some(m) => m,
        None => settings.hljs.mode,
    };
    let theme = match cx.theme() {
        Some(t) => t,
        None => settings.hljs.theme,
    };

    let mut scripts: Vec<String> = Vec::new();
    match mode {
        HljsMode::Core => {
            let core = versioned(String::from_str("/hljs/js/core.min.js"));
            proof {
                lemma_path_views_push(scripts@, core);
            }
            scripts.push(core);
            let cat = HljsLang::catalog();
            let n: usize = cat.len();
            let mut i: usize = 0;
            while i < n
                invariant
                    cat@ == HljsLang::spec_catalog(),
                    n == NUM_LANGS,
                    i <= n,
                    path_views(scripts@) == seq![spec_core_script()] + spec_lang_scripts_upto(
                        cx@.langs,
                        i as int,
                    ),
                decreases n - i,
            {
                let l = cat[i];
                let ghost pre = scripts@;
                if cx.has_language(l) {
                    let url = versioned(l.to_url());
                    proof {
                        lemma_path_views_push(pre, url);
                    }
                    scripts.push(url);
                }
                proof {
                    let j = i as int;
                    assert(l == HljsLang::spec_lang_at(j));
                    assert(spec_lang_scripts_upto(cx@.langs, j + 1) == spec_lang_scripts_upto(
                        cx@.langs,
                        j,
                    ) + if cx@.langs.contains(HljsLang::spec_lang_at(j)) {
                        seq![spec_lang_script(HljsLang::spec_lang_at(j))]
                    } else {
                        Seq::empty()
                    });
                    assert(path_views(scripts@) =~= seq![spec_core_script()]
                        + spec_lang_scripts_upto(cx@.langs, j + 1));
                }
                i += 1;
            }
        },
        HljsMode::Common => {
            let common = versioned(String::from_str("/hljs/js/highlight.min.js"));
            proof {
                lemma_path_views_push(scripts@, common);
            }
            scripts.push(common);
        },
    }

    let inline = inline_config(settings.hljs.tabsize);
    let css = versioned(HljsTheme::to_url(theme.to_string().as_str()));
    let mut stylesheets: Vec<String> = Vec::new();
    proof {
        lemma_path_views_push(stylesheets@, css);
    }
    stylesheets.push(css);

    let m = AssetManifest { scripts, inline_script: Some(inline), stylesheets };
    proof {
        assert(m@.scripts =~= spec_scripts(spec_effective_mode(cx@, *settings), cx@.langs));
        assert(m@.stylesheets =~= seq![
            spec_theme_stylesheet(spec_effective_theme(cx@, *settings)),
        ]);
    }
    m
}

} // verus!
