use web_scaffold::dispatch::{build_app_router, handle_request, Reply, Request};
use web_scaffold::handlers::Response;
use web_scaffold::router::Method;
use web_scaffold::state::AppState;

fn fresh_state() -> AppState {
    AppState::new(b"Dave".to_vec())
}

fn get(path: &[u8]) -> Request {
    Request { method: Method::Get, path: path.to_vec(), query: Vec::new(), body: Vec::new() }
}

fn http_reply(r: Reply) -> Response {
    match r {
        Reply::Http(resp) => resp,
        Reply::File(_) => panic!("expected an HTTP reply"),
    }
}

#[test]
fn root_serves_index_file() {
    let router = build_app_router();
    let mut st = fresh_state();
    match handle_request(&router, &mut st, &get(b"/")) {
        Reply::File(p) => assert_eq!(p, b"index.html".to_vec()),
        Reply::Http(_) => panic!("expected a file reply"),
    }
}

#[test]
fn unknown_path_is_404() {
    let router = build_app_router();
    let mut st = fresh_state();
    let r = http_reply(handle_request(&router, &mut st, &get(b"/unknown")));
    assert_eq!(r.status, 404);
}

#[test]
fn head_app_is_405() {
    let router = build_app_router();
    let mut st = fresh_state();
    let req = Request {
        method: Method::Head,
        path: b"/app".to_vec(),
        query: Vec::new(),
        body: Vec::new(),
    };
    let r = http_reply(handle_request(&router, &mut st, &req));
    assert_eq!(r.status, 405);
}

#[test]
fn post_app_is_405_without_explicit_route() {
    let router = build_app_router();
    let mut st = fresh_state();
    let req = Request {
        method: Method::Post,
        path: b"/app".to_vec(),
        query: Vec::new(),
        body: Vec::new(),
    };
    let r = http_reply(handle_request(&router, &mut st, &req));
    assert_eq!(r.status, 405);
}

#[test]
fn get_app_has_fixed_body() {
    let router = build_app_router();
    let mut st = fresh_state();
    let r = http_reply(handle_request(&router, &mut st, &get(b"/app")));
    assert_eq!(r.status, 200);
    assert_eq!(r.body, b"app".to_vec());
}

#[test]
fn get_again_has_fixed_body() {
    let router = build_app_router();
    let mut st = fresh_state();
    let r = http_reply(handle_request(&router, &mut st, &get(b"/again")));
    assert_eq!(r.status, 200);
    assert_eq!(r.body, b"Yo again!".to_vec());
}

#[test]
fn get_api_returns_json_object() {
    let router = build_app_router();
    let mut st = fresh_state();
    let r = http_reply(handle_request(&router, &mut st, &get(b"/api")));
    assert_eq!(r.status, 200);
    assert_eq!(r.body, b"{\"name\":\"JIMMY\",\"success\":true}".to_vec());
}

#[test]
fn scoped_route_reachable_under_prefix() {
    let router = build_app_router();
    let mut st = fresh_state();
    let r = http_reply(handle_request(&router, &mut st, &get(b"/api/test")));
    assert_eq!(r.status, 200);
    assert_eq!(r.body, b"{\"name\":\"JIMMY\",\"success\":true}".to_vec());
}

#[test]
fn scoped_route_not_reachable_without_prefix() {
    let router = build_app_router();
    let mut st = fresh_state();
    let r = http_reply(handle_request(&router, &mut st, &get(b"/test")));
    assert_eq!(r.status, 404);
}

#[test]
fn head_scoped_route_is_405() {
    let router = build_app_router();
    let mut st = fresh_state();
    let req = Request {
        method: Method::Head,
        path: b"/api/test".to_vec(),
        query: Vec::new(),
        body: Vec::new(),
    };
    let r = http_reply(handle_request(&router, &mut st, &req));
    assert_eq!(r.status, 405);
}

#[test]
fn error_route_maps_domain_error_to_500() {
    let router = build_app_router();
    let mut st = fresh_state();
    let r = http_reply(handle_request(&router, &mut st, &get(b"/error")));
    assert_eq!(r.status, 500);
    assert_eq!(r.body, b"some error yo".to_vec());
}

#[test]
fn path_without_leading_slash_is_404() {
    let router = build_app_router();
    let mut st = fresh_state();
    let r = http_reply(handle_request(&router, &mut st, &get(b"again")));
    assert_eq!(r.status, 404);
}

#[test]
fn inc_route_counts_up() {
    let router = build_app_router();
    let mut st = fresh_state();
    let r1 = http_reply(handle_request(&router, &mut st, &get(b"/inc")));
    assert_eq!(r1.status, 200);
    assert_eq!(r1.body, b"Count num: 1".to_vec());
    let r2 = http_reply(handle_request(&router, &mut st, &get(b"/inc")));
    assert_eq!(r2.body, b"Count num: 2".to_vec());
    assert_eq!(st.counter, 2);
}
