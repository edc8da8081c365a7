//! Markdown-to-HTML rendering, a stateless helper outside the
//! reconciliation core.

use vstd::prelude::*;

verus! {

/// The HTML rendering of a markdown text under the plain CommonMark rules
/// (no extensions enabled). The rendering depends on the input text alone.
pub uninterp spec fn html_of(input: Seq<char>) -> Seq<char>;

/// Relies on pulldown_cmark's `Parser::new_ext` and `html::push_html`: a
/// pure function of the input text once the (empty) extension set is
/// fixed.
#[verifier::external_body]
pub fn render_markdown(input: &str) -> (r: String)
    ensures
        r@ == html_of(input@),
{
    let parser = pulldown_cmark::Parser::new_ext(input, pulldown_cmark::Options::empty());
    let mut html_output: String = String::with_capacity(input.len() * 3 / 2);
    pulldown_cmark::html::push_html(&mut html_output, parser);
    html_output
}

} // verus!
