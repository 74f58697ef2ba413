//! Per-request asset resolution for a client-side syntax-highlighting library.
//!
//! While a page is composed, independent components record highlighting
//! preferences (which languages appear, which visual theme, which delivery
//! mode, or that highlighting is switched off) in a request-scoped
//! [`HljsContext`]. Once composition is finished, [`assets::resolve`] reads
//! the accumulated preferences exactly once and deterministically computes
//! the ordered, de-duplicated set of script and stylesheet references plus
//! the inline configuration script for the page output.

use vstd::prelude::*;

pub mod assets;
pub mod config;
pub mod context;
pub mod lang;
pub mod laws;
pub mod manifest;
pub mod mode;
pub mod snippet;
pub mod text;
pub mod theme;

pub use context::HljsContext;
pub use lang::HljsLang;
pub use mode::HljsMode;
pub use snippet::Snippet;
pub use theme::HljsTheme;

verus! {

/// Version stamp appended to every emitted asset URL.
pub const HLJS_VERSION: &'static str = "11.7.0";

/// Handle of the highlighting package: the name under which page-building
/// code records its preferences in the request's store.
pub struct HighlightJS;

impl HighlightJS {
    /// Enables one language for the request.
    pub fn add_language(&self, language: &HljsLang, cx: &mut HljsContext)
        ensures
            final(cx)@ == old(cx)@.enable(*language),
    {
        cx.enable_language(*language);
    }

    /// Chooses the theme of the request; the last writer wins.
    pub fn set_theme(&self, theme: HljsTheme, cx: &mut HljsContext)
        ensures
            final(cx)@ == old(cx)@.with_theme(theme),
    {
        cx.set_theme(theme);
    }

    /// Forces the delivery mode of the request; the last writer wins.
    pub fn force_mode(&self, mode: HljsMode, cx: &mut HljsContext)
        ensures
            final(cx)@ == old(cx)@.with_mode(mode),
    {
        cx.force_mode(mode);
    }

    /// Switches highlighting off for the remainder of the request.
    pub fn disable_hljs(&self, cx: &mut HljsContext)
        ensures
            final(cx)@ == old(cx)@.without_hljs(),
    {
        cx.disable();
    }
}

} // verus!
