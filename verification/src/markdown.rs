//! Markdown to HTML: what is taken on trust from `pulldown_cmark`.

use vstd::prelude::*;

verus! {

/// The HTML that `pulldown_cmark` writes for a markdown text, with tables,
/// footnotes and strikethrough switched on.
pub uninterp spec fn markdown_html(md: Seq<char>) -> Seq<char>;

/// `pulldown_cmark::Parser::new_ext` with tables, footnotes and
/// strikethrough, and `pulldown_cmark::html::push_html` into an empty text:
/// a function of the markdown text alone.
#[verifier::external_body]
fn render(md: &str) -> (html: String)
    ensures
        html@ == markdown_html(md@),
{
    let mut opts = pulldown_cmark::Options::empty();
    opts.insert(pulldown_cmark::Options::ENABLE_TABLES);
    opts.insert(pulldown_cmark::Options::ENABLE_FOOTNOTES);
    opts.insert(pulldown_cmark::Options::ENABLE_STRIKETHROUGH);
    let parser = pulldown_cmark::Parser::new_ext(md, opts);
    let mut out = String::new();
    pulldown_cmark::html::push_html(&mut out, parser);
    out
}

/// The HTML for a markdown text.
pub fn markdown_to_html(md: &str) -> (html: String)
    ensures
        html@ == markdown_html(md@),
{
    render(md)
}

} // verus!
