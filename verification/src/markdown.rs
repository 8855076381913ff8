//! Markdown source embedded in a page.
//!
//! The conversion itself is done by `pulldown-cmark` and is taken on trust;
//! everything after the conversion is verified.

use crate::markup::splice;
use vstd::prelude::*;

verus! {

/// The HTML that `pulldown-cmark` produces for a Markdown source text.
///
/// Nothing is stated about this text beyond its being determined by the
/// source alone.
pub uninterp spec fn markdown_html(source: Seq<char>) -> Seq<char>;

/// Runs `pulldown_cmark::Parser::new` on `source` and feeds the parser to
/// `pulldown_cmark::html::push_html`, which writes into a fresh string.
///
/// Trusted: the returned text is the conversion of `source`, a function of
/// `source` alone. Neither call panics; `push_html` writes into a `String`,
/// which cannot fail.
#[verifier::external_body]
fn convert(source: &str) -> (html: String)
    ensures
        html@ == markdown_html(source@),
{
    let mut html = String::new();
    pulldown_cmark::html::push_html(&mut html, pulldown_cmark::Parser::new(source));
    html
}

/// A block of Markdown source.
///
/// The source must be trusted, hand-authored text: its conversion is spliced
/// into the page as it is.
#[derive(Debug)]
pub struct Markdown {
    pub source: String,
}

impl View for Markdown {
    type V = Seq<char>;

    /// The Markdown source text.
    open spec fn view(&self) -> Seq<char> {
        self.source@
    }
}

impl Markdown {
    /// Wraps a Markdown source text.
    pub fn new(source: &str) -> (block: Markdown)
        ensures
            block@ == source@,
    {
        Markdown { source: source.to_owned() }
    }

    /// Converts the source to HTML.
    pub fn to_html(&self) -> (html: String)
        ensures
            html@ == markdown_html(self@),
    {
        convert(self.source.as_str())
    }

    /// Converts the source and appends the resulting HTML, unescaped, to
    /// `output`.
    pub fn render_to(&self, output: &mut String)
        ensures
            final(output)@ == old(output)@ + markdown_html(self@),
    {
        let html = self.to_html();
        splice(output, html.as_str());
    }
}

} // verus!
