//! The HTML pages: which template each is rendered from, with what values,
//! and what is answered when rendering fails.

use vstd::prelude::*;
use vstd::string::StringExecFns;

verus! {

/// The answer to a request for a page.
#[derive(Clone, Debug, PartialEq, Eq)]
pub enum PageResponse {
    /// The rendered page.
    Html(String),
    /// Rendering failed; the text says why.
    Failed(String),
}

/// Mathematical value of a [`PageResponse`].
pub enum PageResponseView {
    Html(Seq<char>),
    Failed(Seq<char>),
}

impl View for PageResponse {
    type V = PageResponseView;

    open spec fn view(&self) -> PageResponseView {
        match self {
            PageResponse::Html(page) => PageResponseView::Html(page@),
            PageResponse::Failed(reason) => PageResponseView::Failed(reason@),
        }
    }
}

impl PageResponse {
    /// The HTTP status of the response.
    pub fn status(&self) -> (status: u16)
        ensures
            status == match self@ {
                PageResponseView::Html(_) => 200u16,
                PageResponseView::Failed(_) => 500u16,
            },
    {
        match self {
            PageResponse::Html(_) => 200,
            PageResponse::Failed(_) => 500,
        }
    }
}

/// The template of the main page.
pub fn main_page_template() -> (name: &'static str)
    ensures
        name@ == "index.html"@,
{
    "index.html"
}

/// The template of the page that presents a short identifier.
pub fn result_page_template() -> (name: &'static str)
    ensures
        name@ == "new_short/index.html"@,
{
    "new_short/index.html"
}

/// The values the main page is rendered with: its title.
pub fn main_page_context(title: &str) -> (values: Vec<(String, String)>)
    ensures
        values@.len() == 1,
        values@[0].0@ == "title"@,
        values@[0].1@ == title@,
{
    vec![(String::from_str("title"), title.to_owned())]
}

/// The values the result page is rendered with: the short identifier, then
/// the title.
pub fn result_page_context(title: &str, short: &str) -> (values: Vec<(String, String)>)
    ensures
        values@.len() == 2,
        values@[0].0@ == "short"@,
        values@[0].1@ == short@,
        values@[1].0@ == "title"@,
        values@[1].1@ == title@,
{
    vec![
        (String::from_str("short"), short.to_owned()),
        (String::from_str("title"), title.to_owned()),
    ]
}

/// The answer to a request for the main page, given what the renderer
/// returned: the page, or the renderer's own report of why it failed.
pub fn main_page(rendered: Result<String, String>) -> (response: PageResponse)
    ensures
        response@ == match rendered {
            Ok(page) => PageResponseView::Html(page@),
            Err(reason) => PageResponseView::Failed(reason@),
        },
{
    match rendered {
        Ok(page) => PageResponse::Html(page),
        Err(reason) => PageResponse::Failed(reason),
    }
}

/// The answer that presents a short identifier, given what the renderer
/// returned: the page, or a fixed text where rendering failed.
pub fn render_result_page<E>(rendered: Result<String, E>) -> (response: PageResponse)
    ensures
        response@ == match rendered {
            Ok(page) => PageResponseView::Html(page@),
            Err(_) => PageResponseView::Failed("Failed to render page"@),
        },
{
    match rendered {
        Ok(page) => PageResponse::Html(page),
        Err(_) => PageResponse::Failed(String::from_str("Failed to render page")),
    }
}

} // verus!
