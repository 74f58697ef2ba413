//! The closed catalogs: canonical names, lookups, URL construction and
//! configuration fallbacks.

use pagetop_hljs::config::{Hljs, Settings};
use pagetop_hljs::HljsLang;
use pagetop_hljs::HljsMode;
use pagetop_hljs::HljsTheme;

#[test]
fn theme_canonical_name_is_kebab_case() {
    assert_eq!(HljsTheme::AtelierPlateauLight.to_string(), "atelier-plateau-light".to_owned());
    assert_eq!(HljsTheme::Default.to_string(), "default".to_owned());
    assert_eq!(HljsTheme::A11yDark.to_string(), "a11y-dark".to_owned());
    assert_eq!(HljsTheme::Zenburn.to_string(), "zenburn".to_owned());
}

#[test]
fn theme_to_url_builds_stylesheet_path() {
    assert_eq!(HljsTheme::to_url("zenburn"), "/hljs/css/zenburn.min.css".to_owned());
    assert_eq!(HljsTheme::to_url("a11y-light"), "/hljs/css/a11y-light.min.css".to_owned());
}

#[test]
fn theme_lookup_round_trips() {
    assert_eq!(HljsTheme::from_name("zenburn"), Some(HljsTheme::Zenburn));
    assert_eq!(HljsTheme::from_name("atelier-cave-light"), Some(HljsTheme::AtelierCaveLight));
    assert_eq!(HljsTheme::from_name(&HljsTheme::Sunburst.to_string()), Some(HljsTheme::Sunburst));
}

#[test]
fn theme_lookup_rejects_unknown_names() {
    assert_eq!(HljsTheme::from_name("zengarden"), None);
    assert_eq!(HljsTheme::from_name(""), None);
    assert_eq!(HljsTheme::from_name("Zenburn"), None);
}

#[test]
fn lang_canonical_name_is_kebab_case() {
    assert_eq!(HljsLang::Rust.name(), "rust");
    assert_eq!(HljsLang::Objectivec.name(), "objectivec");
    assert_eq!(HljsLang::X86asm.name(), "x86asm");
}

#[test]
fn lang_to_url_builds_script_path() {
    assert_eq!(HljsLang::Rust.to_url(), "/hljs/js/lang/rust.min.js".to_owned());
    assert_eq!(HljsLang::Json.to_url(), "/hljs/js/lang/json.min.js".to_owned());
}

#[test]
fn lang_lookup_round_trips() {
    assert_eq!(HljsLang::from_name("rust"), Some(HljsLang::Rust));
    assert_eq!(HljsLang::from_name("python"), Some(HljsLang::Python));
    for l in HljsLang::catalog() {
        assert_eq!(HljsLang::from_name(l.name()), Some(l));
    }
}

#[test]
fn lang_lookup_rejects_unknown_names() {
    assert_eq!(HljsLang::from_name("cobol-85"), None);
    assert_eq!(HljsLang::from_name(""), None);
    assert_eq!(HljsLang::from_name("Rust"), None);
}

#[test]
fn lang_catalog_is_ordered_by_canonical_name() {
    let cat = HljsLang::catalog();
    assert!(cat.len() >= 90);
    for w in cat.windows(2) {
        assert!(w[0].name() < w[1].name());
    }
}

#[test]
fn catalog_defaults_are_documented_ones() {
    assert_eq!(HljsTheme::default_theme(), HljsTheme::Default);
    assert_eq!(HljsMode::default(), HljsMode::Core);
    assert_eq!(HljsLang::default(), HljsLang::Plaintext);
}

#[test]
fn mode_names_round_trip() {
    assert_eq!(HljsMode::from_name("core"), Some(HljsMode::Core));
    assert_eq!(HljsMode::from_name("common"), Some(HljsMode::Common));
    assert_eq!(HljsMode::from_name("bundled"), None);
    assert_eq!(HljsMode::Core.name(), "core");
    assert_eq!(HljsMode::Common.name(), "common");
}

#[test]
fn settings_take_recognized_values_as_written() {
    let s = Settings::from_raw("common", "zenburn", 8);
    assert_eq!(
        s,
        Settings { hljs: Hljs { mode: HljsMode::Common, theme: HljsTheme::Zenburn, tabsize: 8 } }
    );
}

#[test]
fn settings_fall_back_on_unrecognized_values() {
    let s = Settings::from_raw("bundled", "zengarden", 0);
    assert_eq!(s, Settings::default());
    assert_eq!(s.hljs.mode, HljsMode::Core);
    assert_eq!(s.hljs.theme, HljsTheme::Default);
    assert_eq!(s.hljs.tabsize, 4);
}
