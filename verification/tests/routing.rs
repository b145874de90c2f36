use fileserve::resolve::resolve_path;
use fileserve::resolve::PathConfig;
use fileserve::response::attachment_response;
use fileserve::router::dispatch;
use fileserve::router::Method;
use fileserve::router::Request;
use fileserve::router::Step;
use fileserve::Body;
use fileserve::HttpResponse;

fn cfg(base: &str) -> PathConfig {
    PathConfig { base_dir: base.to_string(), append_txt: false }
}

fn pairs(ps: &[(&str, &str)]) -> Vec<(String, String)> {
    ps.iter().map(|(k, v)| (k.to_string(), v.to_string())).collect()
}

fn request(method: Method, path: &str, params: &[(&str, &str)], body: Option<&str>) -> Request {
    Request {
        method,
        path: path.to_string(),
        params: pairs(params),
        body: body.map(|b| b.to_string()),
    }
}

fn done(step: Step) -> HttpResponse {
    match step {
        Step::Done(r) => r,
        Step::Download(p) => panic!("expected a finished response, got a download of {}", p),
    }
}

fn body_text(r: &HttpResponse) -> Option<&str> {
    match &r.body {
        Body::Text(s) => Some(s.as_str()),
        _ => None,
    }
}

fn is_empty_404(r: &HttpResponse) -> bool {
    r.status == 404 && r.headers.is_empty() && matches!(r.body, Body::Empty)
}

#[test]
fn root_route_fixed_text() {
    let r = done(dispatch(&request(Method::Get, "/", &[], None), &cfg("/srv/")));
    assert_eq!(r.status, 200);
    assert_eq!(body_text(&r), Some("default endpoint"));
}

#[test]
fn new_endpoint_route_fixed_text() {
    let r = done(dispatch(&request(Method::Get, "/newEndpoint", &[], None), &cfg("/srv/")));
    assert_eq!(r.status, 200);
    assert_eq!(body_text(&r), Some("different endpoint"));
}

#[test]
fn download_route_resolves_param() {
    let req = request(Method::Get, "/download", &[("param", "notes.txt")], None);
    match dispatch(&req, &cfg("/srv/files/")) {
        Step::Download(p) => assert_eq!(p, "/srv/files/notes.txt"),
        Step::Done(_) => panic!("expected a download step"),
    }
}

#[test]
fn download_route_substitutes_default() {
    let req = request(Method::Get, "/download", &[("other", "x")], None);
    match dispatch(&req, &cfg("/srv/files/")) {
        Step::Download(p) => assert_eq!(p, "/srv/files/default"),
        Step::Done(_) => panic!("expected a download step"),
    }
}

#[test]
fn duplicate_params_last_wins() {
    let params = [("param", "first"), ("noise", "z"), ("param", "second")];
    let p = resolve_path(&pairs(&params), &cfg("/srv/"));
    assert_eq!(p, "/srv/second");
}

#[test]
fn configured_extension_is_appended() {
    let c = PathConfig { base_dir: "/srv/files/".to_string(), append_txt: true };
    let p = resolve_path(&pairs(&[("param", "notes")]), &c);
    assert_eq!(p, "/srv/files/notes.txt");
}

#[test]
fn upload_route_echoes_body() {
    let req = request(Method::Post, "/upload_creds", &[], Some("hello"));
    let r = done(dispatch(&req, &cfg("/srv/")));
    assert_eq!(r.status, 200);
    assert_eq!(body_text(&r), Some("Received body: hello"));
}

#[test]
fn upload_route_echoes_empty_body() {
    let req = request(Method::Post, "/upload_creds", &[], Some(""));
    let r = done(dispatch(&req, &cfg("/srv/")));
    assert_eq!(r.status, 200);
    assert_eq!(body_text(&r), Some("Received body: "));
}

#[test]
fn unmatched_method_on_download_is_404() {
    let req = request(Method::Other, "/download", &[("param", "x")], Some("payload"));
    assert!(is_empty_404(&done(dispatch(&req, &cfg("/srv/")))));
}

#[test]
fn unknown_path_is_404() {
    let req = request(Method::Get, "/unknown", &[("param", "x")], None);
    assert!(is_empty_404(&done(dispatch(&req, &cfg("/srv/")))));
}

#[test]
fn post_to_root_is_404() {
    let req = request(Method::Post, "/", &[], Some("x"));
    assert!(is_empty_404(&done(dispatch(&req, &cfg("/srv/")))));
}

#[test]
fn get_on_upload_route_is_404() {
    let req = request(Method::Get, "/upload_creds", &[], None);
    assert!(is_empty_404(&done(dispatch(&req, &cfg("/srv/")))));
}

#[test]
fn attachment_response_names_the_file() {
    let r = attachment_response(vec![1, 2, 3], "data.bin");
    assert_eq!(r.status, 200);
    assert_eq!(
        r.headers,
        vec![
            ("Content-Type".to_string(), "application/octet-stream".to_string()),
            (
                "Content-Disposition".to_string(),
                "attachment; filename=\"data.bin\"".to_string()
            ),
        ]
    );
    assert!(matches!(&r.body, Body::Bytes(b) if b == &vec![1, 2, 3]));
}
