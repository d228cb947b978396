//! The external markdown converter. Rendering a post body to HTML is
//! delegated to `pulldown_cmark`; the composer treats it as a pure function
//! from source text to inline HTML and never inspects the result.

use vstd::prelude::*;

use crate::catalog::Post;

verus! {

/// The HTML that the external converter produces for a markdown text. The
/// conversion is far too large to state; what matters to every caller is
/// that it is a function of the source text alone.
pub uninterp spec fn md_html_of(markdown: Seq<char>) -> Seq<char>;

/// Relies on `pulldown_cmark::Parser::new_ext` (with every extension
/// enabled) and `pulldown_cmark::html::push_html`: the parse and the HTML
/// serialization read nothing but the given text, so the result is a
/// function of `markdown` alone.
#[verifier::external_body]
pub fn markdown_to_html(markdown: &str) -> (r: String)
    ensures
        r@ == md_html_of(markdown@),
{
    let parser = pulldown_cmark::Parser::new_ext(markdown, pulldown_cmark::Options::all());
    let mut html_output = String::new();
    pulldown_cmark::html::push_html(&mut html_output, parser);
    html_output
}

impl Post {
    /// The post body, rendered from markdown to HTML by the external
    /// converter.
    pub fn content(&self) -> (r: String)
        ensures
            r@ == md_html_of(self.content@),
    {
        markdown_to_html(self.content.as_str())
    }
}

} // verus!
