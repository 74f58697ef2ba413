//! Component that puts one code snippet on a web page.

use vstd::prelude::*;

use crate::context::HljsContext;
use crate::lang::HljsLang;
use crate::text;

verus! {

/// One highlighted code block of a page: its language, its text (trimmed
/// of leading and trailing whitespace at construction) and its ordering
/// weight among sibling page elements.
///
/// Whether the element renders at all is decided late, by a visibility
/// predicate over the page-rendering context; that context belongs to the
/// page-assembly collaborator, which checks the predicate before calling
/// in here.
pub struct Snippet {
    weight: i64,
    language: HljsLang,
    snippet: String,
}

impl Snippet {
    /// The ordering weight of this snippet.
    pub closed spec fn spec_weight(&self) -> i64 {
        self.weight
    }

    /// The language of this snippet.
    pub closed spec fn spec_language(&self) -> HljsLang {
        self.language
    }

    /// The text of this snippet.
    pub closed spec fn spec_code(&self) -> Seq<char> {
        self.snippet@
    }

    /// The markup this snippet renders to: a block-level container whose
    /// class names the language in canonical form, wrapping the escaped
    /// snippet text.
    pub open spec fn spec_render(language: HljsLang, code: Seq<char>) -> Seq<char> {
        "<pre><code class=\"language-"@ + language.spec_name() + "\">"@ + text::spec_escape(code)
            + "</code></pre>"@
    }

    /// Creates an empty snippet: no text, plain text as its language,
    /// neutral weight.
    pub fn new() -> (r: Snippet)
        ensures
            r.spec_weight() == 0,
            r.spec_language() == HljsLang::Plaintext,
            r.spec_code() == Seq::<char>::empty(),
    {
        Snippet { weight: 0, language: HljsLang::Plaintext, snippet: String::new() }
    }

    /// Creates a snippet of one language and one block of code.
    pub fn with(language: HljsLang, code: &str) -> (r: Snippet)
        ensures
            r.spec_weight() == 0,
            r.spec_language() == language,
            r.spec_code() == text::spec_trim(code@),
    {
        Snippet::new().with_language(language).with_snippet(code)
    }

    /// Changes the ordering weight.
    pub fn alter_weight(&mut self, value: i64)
        ensures
            final(self).spec_weight() == value,
            final(self).spec_language() == old(self).spec_language(),
            final(self).spec_code() == old(self).spec_code(),
    {
        self.weight = value;
    }

    /// The snippet with another ordering weight.
    pub fn with_weight(self, value: i64) -> (r: Snippet)
        ensures
            r.spec_weight() == value,
            r.spec_language() == self.spec_language(),
            r.spec_code() == self.spec_code(),
    {
        let mut s = self;
        s.alter_weight(value);
        s
    }

    /// Changes the language.
    pub fn alter_language(&mut self, language: HljsLang)
        ensures
            final(self).spec_language() == language,
            final(self).spec_weight() == old(self).spec_weight(),
            final(self).spec_code() == old(self).spec_code(),
    {
        self.language = language;
    }

    /// The snippet with another language.
    pub fn with_language(self, language: HljsLang) -> (r: Snippet)
        ensures
            r.spec_language() == language,
            r.spec_weight() == self.spec_weight(),
            r.spec_code() == self.spec_code(),
    {
        let mut s = self;
        s.alter_language(language);
        s
    }

    /// Changes the text; leading and trailing whitespace is trimmed.
    pub fn alter_snippet(&mut self, snippet: &str)
        ensures
            final(self).spec_code() == text::spec_trim(snippet@),
            final(self).spec_weight() == old(self).spec_weight(),
            final(self).spec_language() == old(self).spec_language(),
    {
        self.snippet = text::trim(snippet);
    }

    /// The snippet with another block of code, trimmed of leading and
    /// trailing whitespace.
    pub fn with_snippet(self, snippet: &str) -> (r: Snippet)
        ensures
            r.spec_code() == text::spec_trim(snippet@),
            r.spec_weight() == self.spec_weight(),
            r.spec_language() == self.spec_language(),
    {
        let mut s = self;
        s.alter_snippet(snippet);
        s
    }

    /// The ordering weight among sibling page elements; it does not affect
    /// asset resolution order.
    pub fn weight(&self) -> (r: i64)
        ensures
            r == self.spec_weight(),
    {
        self.weight
    }

    /// The language of this snippet.
    pub fn language(&self) -> (r: &HljsLang)
        ensures
            *r == self.spec_language(),
    {
        &self.language
    }

    /// The text of this snippet.
    pub fn snippet(&self) -> (r: &String)
        ensures
            r@ == self.spec_code(),
    {
        &self.snippet
    }

    /// Registers this snippet's language with the preference store; runs
    /// when the snippet is incorporated into a page, before any content is
    /// emitted. The snippet touches neither theme nor mode.
    pub fn setup_before_prepare(&self, cx: &mut HljsContext)
        ensures
            final(cx)@ == old(cx)@.enable(self.spec_language()),
    {
        cx.enable_language(self.language);
    }

    /// Renders the block-level container wrapping the escaped snippet
    /// text, annotated with a class naming the language in canonical form.
    pub fn prepare_component(&self) -> (r: String)
        ensures
            r@ == Snippet::spec_render(self.spec_language(), self.spec_code()),
    {
        String::from_str("<pre><code class=\"language-").concat(self.language.name()).concat(
            "\">",
        ).concat(text::escape(self.snippet.as_str()).as_str()).concat("</code></pre>")
    }
}

impl Default for Snippet {
    /// The empty snippet.
    fn default() -> (r: Self)
        ensures
            r.spec_weight() == 0,
            r.spec_language() == HljsLang::Plaintext,
            r.spec_code() == Seq::<char>::empty(),
    {
        Snippet::new()
    }
}

} // verus!
