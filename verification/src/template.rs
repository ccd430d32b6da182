//! The fixed HTML page template: a head with charset, title and inline
//! style, and a body holding the rendered fragment.

use vstd::prelude::*;

verus! {

use vstd::string::*;

/// Everything before the title text.
pub open spec fn doc_head() -> Seq<char> {
    "<!DOCTYPE html>\n<html>\n  <head>\n    <meta charset=\"utf-8\">\n    <title>"@
}

/// Closes the title and indents the style block.
pub open spec fn title_close() -> Seq<char> {
    "</title>\n    "@
}

/// The inline style block, kept verbatim in every page.
pub open spec fn style_block() -> Seq<char> {
    "<style>\n      body { font-family: sans-serif; max-width: 800px; margin: auto; padding: 2em; }\n      h1, h2, h3 { color: #444; }\n      pre, code { background: #f4f4f4; padding: 0.2em 0.4em; }\n    </style>"@
}

/// Closes the head and indents the body.
pub open spec fn head_close() -> Seq<char> {
    "\n  </head>\n  "@
}

/// Opens the body region.
pub open spec fn body_open() -> Seq<char> {
    "<body>"@
}

/// Closes the body region.
pub open spec fn body_close() -> Seq<char> {
    "</body>"@
}

/// Closes the document.
pub open spec fn doc_tail() -> Seq<char> {
    "\n</html>"@
}

/// The full page: the template with the title text and the rendered
/// fragment in their places.
pub open spec fn page_of(title: Seq<char>, fragment: Seq<char>) -> Seq<char> {
    doc_head() + title + title_close() + style_block() + head_close() + body_open() + fragment
        + body_close() + doc_tail()
}

/// `needle` occurs contiguously somewhere in `hay`.
pub open spec fn contains_seq(hay: Seq<char>, needle: Seq<char>) -> bool {
    exists|i: int|
        0 <= i && i + needle.len() <= hay.len() && #[trigger] hay.subrange(
            i,
            i + needle.len() as int,
        ) == needle
}

/// Builds the page for a title and a rendered fragment.
pub fn build_page(title: &str, fragment: &str) -> (r: String)
    ensures
        r@ == page_of(title@, fragment@),
{
    let mut s: String = String::from_str(
        "<!DOCTYPE html>\n<html>\n  <head>\n    <meta charset=\"utf-8\">\n    <title>",
    );
    s.append(title);
    s.append("</title>\n    ");
    s.append(
        "<style>\n      body { font-family: sans-serif; max-width: 800px; margin: auto; padding: 2em; }\n      h1, h2, h3 { color: #444; }\n      pre, code { background: #f4f4f4; padding: 0.2em 0.4em; }\n    </style>",
    );
    s.append("\n  </head>\n  ");
    s.append("<body>");
    s.append(fragment);
    s.append("</body>");
    s.append("\n</html>");
    s
}

/// Every page holds the template's style block verbatim, whatever the
/// title and the fragment are.
pub proof fn lemma_page_contains_style(title: Seq<char>, fragment: Seq<char>)
    ensures
        contains_seq(page_of(title, fragment), style_block()),
{
    let i = doc_head().len() + title.len() + title_close().len();
    assert(page_of(title, fragment).subrange(
        i as int,
        i as int + style_block().len() as int,
    ) =~= style_block());
}

/// Every page holds its title text between the title tags, right where the
/// template puts it.
pub proof fn lemma_page_contains_title(title: Seq<char>, fragment: Seq<char>)
    ensures
        contains_seq(page_of(title, fragment), "<title>"@ + title + "</title>"@),
{
    reveal_strlit("<!DOCTYPE html>\n<html>\n  <head>\n    <meta charset=\"utf-8\">\n    <title>");
    reveal_strlit("</title>\n    ");
    reveal_strlit("<title>");
    reveal_strlit("</title>");
    let i = doc_head().len() - 7;
    let needle = "<title>"@ + title + "</title>"@;
    assert(page_of(title, fragment).subrange(
        i as int,
        i as int + needle.len() as int,
    ) =~= needle);
}

/// With an empty rendered fragment the body region collapses: the opening
/// body tag is immediately followed by the closing one.
pub proof fn lemma_empty_fragment_collapses_body(title: Seq<char>)
    ensures
        contains_seq(page_of(title, Seq::<char>::empty()), body_open() + body_close()),
{
    let i = doc_head().len() + title.len() + title_close().len() + style_block().len()
        + head_close().len();
    let needle = body_open() + body_close();
    assert(page_of(title, Seq::<char>::empty()).subrange(
        i as int,
        i as int + needle.len() as int,
    ) =~= needle);
}

} // verus!
