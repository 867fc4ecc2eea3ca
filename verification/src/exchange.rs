//! What passes between the library and the transport.
//!
//! The library sends nothing itself. It says what is to be posted, as an
//! [`HttpRequest`], and is told what came of it, as an [`HttpOutcome`].

use vstd::prelude::*;

verus! {

/// A request to be posted: the address, the two headers and the body.
#[derive(Debug)]
pub struct HttpRequest {
    /// The address to post to.
    pub url: String,
    /// The value of the `Content-Type` header.
    pub content_type: String,
    /// The value of the `Authorization` header.
    pub authorization: String,
    /// The body.
    pub body: String,
}

/// What an [`HttpRequest`] holds.
pub struct HttpRequestView {
    pub url: Seq<char>,
    pub content_type: Seq<char>,
    pub authorization: Seq<char>,
    pub body: Seq<char>,
}

impl View for HttpRequest {
    type V = HttpRequestView;

    open spec fn view(&self) -> HttpRequestView {
        HttpRequestView {
            url: self.url@,
            content_type: self.content_type@,
            authorization: self.authorization@,
            body: self.body@,
        }
    }
}

/// A response of the service.
#[derive(Debug)]
pub struct HttpResponse {
    /// The status code.
    pub status: u16,
    /// The status as the transport displays it, such as `404 Not Found`.
    pub status_text: String,
    /// The body as text, or why it could not be read.
    pub body: Result<String, String>,
}

/// What an [`HttpResponse`] holds.
pub struct HttpResponseView {
    pub status: int,
    pub status_text: Seq<char>,
    pub body: Result<Seq<char>, Seq<char>>,
}

impl HttpResponseView {
    /// Whether the status is one of success: 200 to 299.
    pub open spec fn is_success(self) -> bool {
        200 <= self.status < 300
    }
}

impl View for HttpResponse {
    type V = HttpResponseView;

    open spec fn view(&self) -> HttpResponseView {
        HttpResponseView {
            status: self.status as int,
            status_text: self.status_text@,
            body: match self.body {
                Ok(text) => Ok(text@),
                Err(reason) => Err(reason@),
            },
        }
    }
}

impl HttpResponse {
    /// Whether the status is one of success: 200 to 299.
    pub fn is_success(&self) -> (r: bool)
        ensures
            r == self@.is_success(),
    {
        200 <= self.status && self.status < 300
    }
}

/// What came of posting a request.
#[derive(Debug)]
pub enum HttpOutcome {
    /// The request could not be sent, or no response arrived.
    NotSent,
    /// A response arrived.
    Response(HttpResponse),
}

/// What an [`HttpOutcome`] holds.
pub enum HttpOutcomeView {
    NotSent,
    Response(HttpResponseView),
}

impl View for HttpOutcome {
    type V = HttpOutcomeView;

    open spec fn view(&self) -> HttpOutcomeView {
        match self {
            HttpOutcome::NotSent => HttpOutcomeView::NotSent,
            HttpOutcome::Response(response) => HttpOutcomeView::Response(response@),
        }
    }
}

} // verus!
