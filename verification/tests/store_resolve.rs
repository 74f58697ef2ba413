//! The preference store and the resolution engine, end to end.

use pagetop_hljs::assets::resolve;
use pagetop_hljs::config::Settings;
use pagetop_hljs::HighlightJS;
use pagetop_hljs::HljsContext;
use pagetop_hljs::HljsLang;
use pagetop_hljs::HljsMode;
use pagetop_hljs::HljsTheme;

#[test]
fn fresh_store_resolves_to_empty_manifest() {
    let cx = HljsContext::new();
    let m = resolve(&cx, &Settings::default());
    assert!(m.scripts.is_empty());
    assert!(m.inline_script.is_none());
    assert!(m.stylesheets.is_empty());
}

#[test]
fn core_mode_loads_runtime_then_languages_then_config() {
    let mut cx = HljsContext::new();
    cx.enable_language(HljsLang::Python);
    cx.enable_language(HljsLang::Json);
    cx.set_theme(HljsTheme::Zenburn);
    let m = resolve(&cx, &Settings::default());
    assert_eq!(
        m.scripts,
        vec![
            "/hljs/js/core.min.js?v=11.7.0".to_owned(),
            "/hljs/js/lang/json.min.js?v=11.7.0".to_owned(),
            "/hljs/js/lang/python.min.js?v=11.7.0".to_owned(),
        ]
    );
    let inline = m.inline_script.expect("inline configuration script");
    assert!(inline.contains("tabReplace: '    '"));
    assert!(inline.contains("languages: []"));
    assert!(inline.contains("hljs.highlightAll();"));
    assert_eq!(m.stylesheets, vec!["/hljs/css/zenburn.min.css?v=11.7.0".to_owned()]);
}

#[test]
fn enabling_a_language_twice_changes_nothing() {
    let mut once = HljsContext::new();
    once.enable_language(HljsLang::Rust);
    let mut thrice = HljsContext::new();
    thrice.enable_language(HljsLang::Rust);
    thrice.enable_language(HljsLang::Rust);
    thrice.enable_language(HljsLang::Rust);
    let s = Settings::default();
    let a = resolve(&once, &s);
    let b = resolve(&thrice, &s);
    assert_eq!(a.scripts, b.scripts);
    assert_eq!(a.inline_script, b.inline_script);
    assert_eq!(a.stylesheets, b.stylesheets);
    assert_eq!(
        a.scripts,
        vec![
            "/hljs/js/core.min.js?v=11.7.0".to_owned(),
            "/hljs/js/lang/rust.min.js?v=11.7.0".to_owned(),
        ]
    );
}

#[test]
fn disable_empties_the_manifest_whatever_else_is_set() {
    let mut cx = HljsContext::new();
    cx.enable_language(HljsLang::Rust);
    cx.set_theme(HljsTheme::Sunburst);
    cx.disable();
    let m = resolve(&cx, &Settings::default());
    assert!(m.scripts.is_empty());
    assert!(m.inline_script.is_none());
    assert!(m.stylesheets.is_empty());
}

#[test]
fn disable_is_monotonic_across_later_calls() {
    let mut cx = HljsContext::new();
    cx.disable();
    cx.enable_language(HljsLang::Rust);
    cx.set_theme(HljsTheme::Sunburst);
    cx.force_mode(HljsMode::Common);
    let m = resolve(&cx, &Settings::default());
    assert!(m.scripts.is_empty());
    assert!(m.inline_script.is_none());
    assert!(m.stylesheets.is_empty());
}

#[test]
fn last_theme_writer_wins() {
    let mut cx = HljsContext::new();
    cx.enable_language(HljsLang::Go);
    cx.set_theme(HljsTheme::Github);
    cx.set_theme(HljsTheme::Zenburn);
    let m = resolve(&cx, &Settings::default());
    assert_eq!(m.stylesheets, vec!["/hljs/css/zenburn.min.css?v=11.7.0".to_owned()]);
}

#[test]
fn last_mode_writer_wins() {
    let mut cx = HljsContext::new();
    cx.enable_language(HljsLang::Go);
    cx.force_mode(HljsMode::Common);
    cx.force_mode(HljsMode::Core);
    let m = resolve(&cx, &Settings::default());
    assert_eq!(
        m.scripts,
        vec![
            "/hljs/js/core.min.js?v=11.7.0".to_owned(),
            "/hljs/js/lang/go.min.js?v=11.7.0".to_owned(),
        ]
    );
}

#[test]
fn loading_is_demand_driven() {
    let mut cx = HljsContext::new();
    cx.set_theme(HljsTheme::Zenburn);
    cx.force_mode(HljsMode::Common);
    let m = resolve(&cx, &Settings::default());
    assert!(m.scripts.is_empty());
    assert!(m.inline_script.is_none());
    assert!(m.stylesheets.is_empty());
}

#[test]
fn common_mode_emits_exactly_one_script_reference() {
    let mut cx = HljsContext::new();
    cx.enable_language(HljsLang::Go);
    cx.enable_language(HljsLang::Rust);
    cx.force_mode(HljsMode::Common);
    let m = resolve(&cx, &Settings::default());
    assert_eq!(m.scripts, vec!["/hljs/js/highlight.min.js?v=11.7.0".to_owned()]);
    assert!(m.inline_script.is_some());
    assert_eq!(m.stylesheets.len(), 1);
}

#[test]
fn resolution_is_deterministic_over_an_unchanged_store() {
    let mut cx = HljsContext::new();
    cx.enable_language(HljsLang::Go);
    cx.enable_language(HljsLang::Rust);
    let s = Settings::default();
    let a = resolve(&cx, &s);
    let b = resolve(&cx, &s);
    assert_eq!(a.scripts, b.scripts);
    assert_eq!(a.inline_script, b.inline_script);
    assert_eq!(a.stylesheets, b.stylesheets);
}

#[test]
fn registration_order_does_not_change_script_order() {
    let mut fwd = HljsContext::new();
    fwd.enable_language(HljsLang::Go);
    fwd.enable_language(HljsLang::Rust);
    let mut rev = HljsContext::new();
    rev.enable_language(HljsLang::Rust);
    rev.enable_language(HljsLang::Go);
    let s = Settings::default();
    let a = resolve(&fwd, &s);
    let b = resolve(&rev, &s);
    assert_eq!(a.scripts, b.scripts);
    assert_eq!(
        a.scripts,
        vec![
            "/hljs/js/core.min.js?v=11.7.0".to_owned(),
            "/hljs/js/lang/go.min.js?v=11.7.0".to_owned(),
            "/hljs/js/lang/rust.min.js?v=11.7.0".to_owned(),
        ]
    );
}

#[test]
fn configured_defaults_govern_when_nothing_is_forced() {
    let mut cx = HljsContext::new();
    cx.enable_language(HljsLang::Rust);
    let s = Settings::from_raw("common", "sunburst", 2);
    let m = resolve(&cx, &s);
    assert_eq!(m.scripts, vec!["/hljs/js/highlight.min.js?v=11.7.0".to_owned()]);
    assert!(m.inline_script.expect("inline").contains("tabReplace: '  '"));
    assert_eq!(m.stylesheets, vec!["/hljs/css/sunburst.min.css?v=11.7.0".to_owned()]);
}

#[test]
fn package_handle_delegates_to_the_store() {
    let mut cx = HljsContext::new();
    HighlightJS.add_language(&HljsLang::Python, &mut cx);
    HighlightJS.set_theme(HljsTheme::Zenburn, &mut cx);
    let m = resolve(&cx, &Settings::default());
    assert_eq!(
        m.scripts,
        vec![
            "/hljs/js/core.min.js?v=11.7.0".to_owned(),
            "/hljs/js/lang/python.min.js?v=11.7.0".to_owned(),
        ]
    );
    assert_eq!(m.stylesheets, vec!["/hljs/css/zenburn.min.css?v=11.7.0".to_owned()]);

    HighlightJS.disable_hljs(&mut cx);
    let empty = resolve(&cx, &Settings::default());
    assert!(empty.scripts.is_empty());
}

#[test]
fn store_reports_its_own_state() {
    let mut cx = HljsContext::new();
    assert!(!cx.is_disabled());
    assert!(cx.has_no_languages());
    assert!(!cx.has_language(HljsLang::Rust));
    assert_eq!(cx.theme(), None);
    assert_eq!(cx.mode(), None);
    cx.enable_language(HljsLang::Rust);
    cx.set_theme(HljsTheme::Github);
    cx.force_mode(HljsMode::Common);
    assert!(cx.has_language(HljsLang::Rust));
    assert!(!cx.has_no_languages());
    assert_eq!(cx.theme(), Some(HljsTheme::Github));
    assert_eq!(cx.mode(), Some(HljsMode::Common));
    assert_eq!(cx.languages(), &vec![HljsLang::Rust]);
    cx.disable();
    assert!(cx.is_disabled());
}

#[test]
fn inline_config_script_is_exactly_the_documented_text() {
    let mut cx = HljsContext::new();
    cx.enable_language(HljsLang::Rust);
    let m = resolve(&cx, &Settings::default());
    assert_eq!(
        m.inline_script.expect("inline configuration script"),
        "hljs.configure({\n  tabReplace: '    ',\n  languages: [],\n});\nhljs.highlightAll();"
    );
}
