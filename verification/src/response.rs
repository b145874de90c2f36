//! Construction of wire responses.  Every outcome of content resolution,
//! and the upload echo, is mapped here to a status code, a header list and
//! a body.

use vstd::prelude::*;
use vstd::string::StringExecFns;
use crate::content::Outcome;
use crate::content::OutcomeView;

verus! {

/// The body of a wire response: text, raw bytes, or nothing.
pub enum Body {
    Text(String),
    Bytes(Vec<u8>),
    Empty,
}

/// Mathematical image of a `Body`.
pub enum BodyView {
    Text(Seq<char>),
    Bytes(Seq<u8>),
    Empty,
}

impl View for Body {
    type V = BodyView;

    open spec fn view(&self) -> BodyView {
        match self {
            Body::Text(s) => BodyView::Text(s@),
            Body::Bytes(b) => BodyView::Bytes(b@),
            Body::Empty => BodyView::Empty,
        }
    }
}

/// A wire response: status code, ordered header pairs, body.
pub struct HttpResponse {
    pub status: u16,
    pub headers: Vec<(String, String)>,
    pub body: Body,
}

/// Mathematical image of an `HttpResponse`.
pub struct ResponseView {
    pub status: u16,
    pub headers: Seq<(Seq<char>, Seq<char>)>,
    pub body: BodyView,
}

impl View for HttpResponse {
    type V = ResponseView;

    open spec fn view(&self) -> ResponseView {
        ResponseView {
            status: self.status,
            headers: self.headers@.map_values(|h: (String, String)| (h.0@, h.1@)),
            body: self.body@,
        }
    }
}

/// The response for a successful text outcome: status 200, a single
/// `Content-Type: text/plain` header, and the text itself as the body.
pub open spec fn spec_text_response(text: Seq<char>) -> ResponseView {
    ResponseView {
        status: 200,
        headers: seq![("Content-Type"@, "text/plain"@)],
        body: BodyView::Text(text),
    }
}

/// The response for any internal failure: status 404, no headers, empty
/// body.  The failure reason is never surfaced to the client.
pub open spec fn spec_not_found() -> ResponseView {
    ResponseView { status: 404, headers: Seq::empty(), body: BodyView::Empty }
}

pub fn text_response(text: String) -> (r: HttpResponse)
    ensures
        r@ == spec_text_response(text@),
{
    let headers = vec![(String::from_str("Content-Type"), String::from_str("text/plain"))];
    let r = HttpResponse { status: 200, headers, body: Body::Text(text) };
    proof {
        assert(r@.headers =~= spec_text_response(text@).headers);
    }
    r
}

pub fn empty_404() -> (r: HttpResponse)
    ensures
        r@ == spec_not_found(),
{
    let r = HttpResponse { status: 404, headers: Vec::new(), body: Body::Empty };
    proof {
        assert(r@.headers =~= spec_not_found().headers);
    }
    r
}

/// What an outcome of content resolution becomes on the wire: the text in
/// a plain text response on success, the uniform 404 on any failure — the
/// failure reason is never surfaced.
pub open spec fn spec_outcome_response(o: OutcomeView) -> ResponseView {
    match o {
        OutcomeView::Success(text) => spec_text_response(text),
        OutcomeView::Failure(_) => spec_not_found(),
    }
}

pub fn outcome_response(o: Outcome) -> (r: HttpResponse)
    ensures
        r@ == spec_outcome_response(o@),
{
    match o {
        Outcome::Success(text) => text_response(text),
        Outcome::Failure(_) => empty_404(),
    }
}

/// The upload echo: the body text prefixed by a fixed marker, in a plain
/// text response.
pub open spec fn spec_upload_response(body_text: Seq<char>) -> ResponseView {
    spec_text_response("Received body: "@ + body_text)
}

pub fn upload_response(body: &str) -> (r: HttpResponse)
    ensures
        r@ == spec_upload_response(body@),
{
    let mut t = String::from_str("Received body: ");
    t.append(body);
    text_response(t)
}

/// The raw-bytes variant: status 200, octet-stream content type, and a
/// `Content-Disposition` header naming the download as an attachment.
pub open spec fn spec_attachment_response(data: Seq<u8>, filename: Seq<char>) -> ResponseView {
    ResponseView {
        status: 200,
        headers: seq![
            ("Content-Type"@, "application/octet-stream"@),
            ("Content-Disposition"@, "attachment; filename=\""@ + filename + "\""@),
        ],
        body: BodyView::Bytes(data),
    }
}

pub fn attachment_response(data: Vec<u8>, filename: &str) -> (r: HttpResponse)
    ensures
        r@ == spec_attachment_response(data@, filename@),
{
    let mut disposition = String::from_str("attachment; filename=\"");
    disposition.append(filename);
    disposition.append("\"");
    let headers = vec![
        (String::from_str("Content-Type"), String::from_str("application/octet-stream")),
        (String::from_str("Content-Disposition"), disposition),
    ];
    let r = HttpResponse { status: 200, headers, body: Body::Bytes(data) };
    proof {
        assert(r@.headers =~= spec_attachment_response(data@, filename@).headers);
    }
    r
}

} // verus!
