//! Request routing: a fixed table over method and path, dispatching to the
//! path resolver, the content reader and the response builders.

use vstd::prelude::*;
use vstd::string::StringExecFns;
use vstd::utf8::decode_utf8;
use vstd::utf8::valid_utf8;
use crate::content::FileReadView;
use crate::content::ResolvedTarget;
use crate::content::TargetView;
use crate::content::read_content;
use crate::content::spec_outcome;
use crate::resolve::PathConfig;
use crate::resolve::resolve_path;
use crate::resolve::spec_resolved_path;
use crate::response::HttpResponse;
use crate::response::ResponseView;
use crate::response::empty_404;
use crate::response::outcome_response;
use crate::response::spec_not_found;
use crate::response::spec_outcome_response;
use crate::response::spec_text_response;
use crate::response::spec_upload_response;
use crate::response::text_response;
use crate::response::upload_response;

verus! {

/// The request method, as far as routing distinguishes it.
#[derive(Clone, Copy, PartialEq, Eq, Structural, Debug)]
pub enum Method {
    Get,
    Post,
    Other,
}

/// A request, reduced to what routing and resolution read: method, path,
/// parsed query parameters (in wire order, duplicates kept), and the body
/// text, present only for a POST.
pub struct Request {
    pub method: Method,
    pub path: String,
    pub params: Vec<(String, String)>,
    pub body: Option<String>,
}

/// What the router decides for a request: either a finished response, or
/// the instruction to classify this candidate path against the filesystem
/// and answer with its content.
pub enum Step {
    Done(HttpResponse),
    Download(String),
}

/// Mathematical image of a `Step`.
pub enum StepView {
    Done(ResponseView),
    Download(Seq<char>),
}

impl View for Step {
    type V = StepView;

    open spec fn view(&self) -> StepView {
        match self {
            Step::Done(r) => StepView::Done(r@),
            Step::Download(p) => StepView::Download(p@),
        }
    }
}

/// Whether a method and path hit one of the four fixed routes.
pub open spec fn spec_route_matched(method: Method, path: Seq<char>) -> bool {
    ||| (method == Method::Get && path == "/"@)
    ||| (method == Method::Get && path == "/newEndpoint"@)
    ||| (method == Method::Get && path == "/download"@)
    ||| (method == Method::Post && path == "/upload_creds"@)
}

/// The routing table: the two fixed texts, the download route (resolved
/// to a candidate path, to be classified outside), the upload echo, and a
/// 404 for everything unmatched.
pub open spec fn spec_dispatch(req: Request, cfg: PathConfig) -> StepView {
    if req.method == Method::Get && req.path@ == "/"@ {
        StepView::Done(spec_text_response("default endpoint"@))
    } else if req.method == Method::Get && req.path@ == "/newEndpoint"@ {
        StepView::Done(spec_text_response("different endpoint"@))
    } else if req.method == Method::Get && req.path@ == "/download"@ {
        StepView::Download(spec_resolved_path(req.params@, cfg))
    } else if req.method == Method::Post && req.path@ == "/upload_creds"@ {
        StepView::Done(spec_upload_response(req.body->0@))
    } else {
        StepView::Done(spec_not_found())
    }
}

/// The router.  A POST to the upload route must carry a body: a request
/// without one is not served at all, so that input is excluded here and
/// the caller checks it first.
pub fn dispatch(req: &Request, cfg: &PathConfig) -> (r: Step)
    requires
        req.method == Method::Post && req.path@ == "/upload_creds"@ ==> req.body is Some,
    ensures
        r@ == spec_dispatch(*req, *cfg),
{
    let is_get = matches!(req.method, Method::Get);
    let is_post = matches!(req.method, Method::Post);
    if is_get && req.path == String::from_str("/") {
        Step::Done(text_response(String::from_str("default endpoint")))
    } else if is_get && req.path == String::from_str("/newEndpoint") {
        Step::Done(text_response(String::from_str("different endpoint")))
    } else if is_get && req.path == String::from_str("/download") {
        Step::Download(resolve_path(&req.params, cfg))
    } else if is_post && req.path == String::from_str("/upload_creds") {
        match &req.body {
            Some(b) => Step::Done(upload_response(b.as_str())),
            None => {
                proof {
                    assert(false);
                }
                Step::Done(empty_404())
            },
        }
    } else {
        Step::Done(empty_404())
    }
}

/// The response for a classified download target: the outcome's text in a
/// plain text response on success, the uniform 404 on any failure.
pub open spec fn spec_download_response(t: TargetView) -> ResponseView {
    spec_outcome_response(spec_outcome(t))
}

/// The complete download handler on a classified target: content
/// resolution followed by response construction.
pub fn download_response(target: &ResolvedTarget) -> (r: HttpResponse)
    ensures
        r@ == spec_download_response(target@),
{
    outcome_response(read_content(target))
}

/// Law: a download that resolves to a regular file that was read fully
/// and holds valid UTF-8 returns status 200 with exactly that content as
/// the body.
pub proof fn lemma_file_download_exact(bytes: Seq<u8>)
    requires
        valid_utf8(bytes),
    ensures
        spec_download_response(TargetView::RegularFile(FileReadView::Content(bytes)))
            == spec_text_response(decode_utf8(bytes)),
{
}

/// Law: the download response is a function of the classified target
/// alone, so repeating a request against an unchanged filesystem yields a
/// byte-identical response.
pub proof fn lemma_download_idempotent(t1: ResolvedTarget, t2: ResolvedTarget)
    requires
        t1@ == t2@,
    ensures
        spec_download_response(t1@) == spec_download_response(t2@),
{
}

/// Law: a request that matches none of the four routes gets the uniform
/// 404 with an empty body, whatever its query parameters and body hold.
pub proof fn lemma_unmatched_not_found(req: Request, cfg: PathConfig)
    requires
        !spec_route_matched(req.method, req.path@),
    ensures
        spec_dispatch(req, cfg) == StepView::Done(spec_not_found()),
{
}

} // verus!
