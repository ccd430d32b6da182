//! Conversion of Markdown text to an HTML fragment, done by pulldown_cmark.

use vstd::prelude::*;

verus! {

/// The HTML fragment that the Markdown converter produces for a text. The
/// conversion is total: every input, well-formed Markdown or not, has one.
pub uninterp spec fn html_of(md: Seq<char>) -> Seq<char>;

/// Relies on pulldown_cmark: `Parser::new` followed by `html::push_html`
/// writes an HTML fragment that depends on the input text alone, and on an
/// empty input the parser yields no events, so nothing is written.
#[verifier::external_body]
pub(crate) fn markdown_to_html(md: &str) -> (r: String)
    ensures
        r@ == html_of(md@),
        md@.len() == 0 ==> r@.len() == 0,
{
    let parser = pulldown_cmark::Parser::new(md);
    let mut out = String::new();
    pulldown_cmark::html::push_html(&mut out, parser);
    out
}

} // verus!
