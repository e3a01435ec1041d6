//! Doc comments as HTML.

use vstd::prelude::*;

verus! {

/// The HTML that the markdown engine writes for `text`.
pub uninterp spec fn markdown_html(text: Seq<char>) -> Seq<char>;

/// The HTML of an optional doc comment: nothing where there is none.
pub open spec fn doc_html(doc: Option<String>) -> Seq<char> {
    match doc {
        None => Seq::empty(),
        Some(text) => markdown_html(text@),
    }
}

/// `pulldown_cmark::Parser::new` on `text`, and `pulldown_cmark::html::push_html`
/// of its events into a new buffer of the given capacity: the HTML of `text`
/// read as CommonMark with no extension, which depends on `text` alone.
#[verifier::external_body]
fn markdown_to_html(text: &str, capacity: usize) -> (html: String)
    requires
        capacity <= isize::MAX,
    ensures
        html@ == markdown_html(text@),
{
    let mut html = String::with_capacity(capacity);
    pulldown_cmark::html::push_html(&mut html, pulldown_cmark::Parser::new(text));
    html
}

/// Renders markdown as HTML. The buffer starts at half as much again as the
/// text, within what a buffer may hold.
pub fn render_markdown(text: &str) -> (html: String)
    ensures
        html@ == markdown_html(text@),
{
    let len: usize = text.len();
    let most: usize = isize::MAX as usize;
    let capacity: usize = if len > most || len / 2 > most - len {
        most
    } else {
        len + len / 2
    };
    markdown_to_html(text, capacity)
}

/// Renders an optional doc comment as HTML.
pub fn render_doc(doc: &Option<String>) -> (html: String)
    ensures
        html@ == doc_html(*doc),
{
    match doc {
        None => String::new(),
        Some(text) => render_markdown(text.as_str()),
    }
}

} // verus!
