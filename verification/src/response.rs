//! What a handler hands back for sending.

use vstd::prelude::*;

verus! {

/// How the body of a response is to be read.
#[derive(Clone, Copy, Debug, PartialEq, Eq, Structural)]
pub enum ContentKind {
    /// An HTML document or fragment.
    Html,
    /// Plain text.
    PlainText,
}

/// A response: status code, kind of content, and body.
#[derive(Debug, PartialEq, Eq)]
pub struct Response {
    pub status: u16,
    pub kind: ContentKind,
    pub body: String,
}

/// A response as a mathematical value.
pub struct ResponseView {
    pub status: int,
    pub kind: ContentKind,
    pub body: Seq<char>,
}

impl View for Response {
    type V = ResponseView;

    open spec fn view(&self) -> ResponseView {
        ResponseView { status: self.status as int, kind: self.kind, body: self.body@ }
    }
}

/// The response that carries a rendered page: status 200, HTML.
pub open spec fn page_view(body: Seq<char>) -> ResponseView {
    ResponseView { status: 200, kind: ContentKind::Html, body }
}

impl Response {
    /// The response that carries a rendered page.
    pub fn page(body: String) -> (response: Response)
        ensures
            response@ == page_view(body@),
    {
        Response { status: 200, kind: ContentKind::Html, body }
    }
}

} // verus!
