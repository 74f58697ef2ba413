//! The snippet component: construction, builders, registration and
//! rendering.

use pagetop_hljs::config::Settings;
use pagetop_hljs::HljsContext;
use pagetop_hljs::HljsLang;
use pagetop_hljs::Snippet;

#[test]
fn snippet_trims_its_code_at_construction() {
    let s = Snippet::with(HljsLang::Rust, "\n  fn main() {}\n  ");
    assert_eq!(s.snippet(), "fn main() {}");
    assert_eq!(*s.language(), HljsLang::Rust);
    assert_eq!(s.weight(), 0);
}

#[test]
fn snippet_trims_every_unicode_whitespace_character() {
    let s = Snippet::with(
        HljsLang::Python,
        "\u{000B}\u{000C}\u{0085}\u{00A0}\u{2003}\u{2028}\u{3000}x = 1\u{202F}\u{205F}\u{1680}",
    );
    assert_eq!(s.snippet(), "x = 1");
}

#[test]
fn snippet_defaults_to_empty_plain_text() {
    let s = Snippet::new();
    assert_eq!(s.snippet(), "");
    assert_eq!(*s.language(), HljsLang::Plaintext);
    assert_eq!(s.weight(), 0);
}

#[test]
fn snippet_builders_replace_one_field_each() {
    let s = Snippet::new().with_language(HljsLang::Python).with_snippet("print(1)\t\n").with_weight(
        -3,
    );
    assert_eq!(*s.language(), HljsLang::Python);
    assert_eq!(s.snippet(), "print(1)");
    assert_eq!(s.weight(), -3);

    let mut s = s;
    s.alter_weight(7);
    s.alter_language(HljsLang::Json);
    s.alter_snippet("  {}  ");
    assert_eq!(s.weight(), 7);
    assert_eq!(*s.language(), HljsLang::Json);
    assert_eq!(s.snippet(), "{}");
}

#[test]
fn snippet_registers_its_language_with_the_store() {
    let s = Snippet::with(HljsLang::Json, "{}");
    let mut cx = HljsContext::new();
    s.setup_before_prepare(&mut cx);
    assert!(cx.has_language(HljsLang::Json));
    let m = pagetop_hljs::assets::resolve(&cx, &Settings::default());
    assert_eq!(
        m.scripts,
        vec![
            "/hljs/js/core.min.js?v=11.7.0".to_owned(),
            "/hljs/js/lang/json.min.js?v=11.7.0".to_owned(),
        ]
    );
}

#[test]
fn snippet_renders_a_classed_container() {
    let s = Snippet::with(HljsLang::Rust, "fn main() {}");
    assert_eq!(
        s.prepare_component(),
        "<pre><code class=\"language-rust\">fn main() {}</code></pre>"
    );
}

#[test]
fn snippet_escapes_its_code_for_embedding() {
    let s = Snippet::with(HljsLang::Xml, "<a href=\"x\">&amp;</a>");
    assert_eq!(
        s.prepare_component(),
        "<pre><code class=\"language-xml\">&lt;a href=&quot;x&quot;&gt;&amp;amp;&lt;/a&gt;</code></pre>"
    );
}
