use web_scaffold::dispatch::{build_app_router, handle_request, Reply, Request};
use web_scaffold::extract::{
    parse_pairs, extract_query_info2, extract_form, extract_my_info, check_body_limit,
    ExtractionError,
};
use web_scaffold::handlers::Response;
use web_scaffold::router::Method;
use web_scaffold::state::AppState;

fn state() -> AppState {
    AppState::new(b"Dave".to_vec())
}

fn request(method: Method, path: &[u8], query: &[u8], body: &[u8]) -> Request {
    Request {
        method,
        path: path.to_vec(),
        query: query.to_vec(),
        body: body.to_vec(),
    }
}

fn http(r: Reply) -> Response {
    match r {
        Reply::Http(resp) => resp,
        Reply::File(_) => panic!("expected an HTTP reply"),
    }
}

#[test]
fn path_extraction_succeeds() {
    let router = build_app_router();
    let mut st = state();
    let req = request(Method::Get, b"/extractor/42/Dave", b"", b"");
    let r = http(handle_request(&router, &mut st, &req));
    assert_eq!(r.status, 200);
    assert_eq!(r.body, b"42 Dave".to_vec());
}

#[test]
fn path_extraction_rejects_non_numeric_id() {
    let router = build_app_router();
    let mut st = state();
    let req = request(Method::Get, b"/extractor/abc/Dave", b"", b"");
    let r = http(handle_request(&router, &mut st, &req));
    assert_eq!(r.status, 400);
}

#[test]
fn query_extraction_greets_name() {
    let router = build_app_router();
    let mut st = state();
    let req = request(Method::Get, b"/query", b"name=Dave", b"");
    let r = http(handle_request(&router, &mut st, &req));
    assert_eq!(r.status, 200);
    assert_eq!(r.body, b"Welcome: Dave".to_vec());
}

#[test]
fn query_extraction_missing_name_is_400() {
    let router = build_app_router();
    let mut st = state();
    let req = request(Method::Get, b"/query", b"other=1", b"");
    let r = http(handle_request(&router, &mut st, &req));
    assert_eq!(r.status, 400);
}

#[test]
fn json_body_within_limit_decodes() {
    let router = build_app_router();
    let mut st = state();
    let req = request(Method::Post, b"/json", b"", b"{\"name\":\"Dave\"}");
    let r = http(handle_request(&router, &mut st, &req));
    assert_eq!(r.status, 200);
    assert_eq!(r.body, b"Welcome: Dave".to_vec());
}

#[test]
fn json_body_over_limit_is_409() {
    let router = build_app_router();
    let mut st = state();
    let mut body = b"{\"name\":\"".to_vec();
    body.extend(std::iter::repeat(b'x').take(5000));
    body.extend(b"\"}".iter().copied());
    let req = request(Method::Post, b"/json", b"", &body);
    let r = http(handle_request(&router, &mut st, &req));
    assert_eq!(r.status, 409);
}

#[test]
fn malformed_json_body_is_409_on_configured_route() {
    let router = build_app_router();
    let mut st = state();
    let req = request(Method::Post, b"/json", b"", b"{\"name\":");
    let r = http(handle_request(&router, &mut st, &req));
    assert_eq!(r.status, 409);
}

#[test]
fn json_body_with_wrong_field_type_is_409() {
    let router = build_app_router();
    let mut st = state();
    let req = request(Method::Post, b"/json", b"", b"{\"name\":17}");
    let r = http(handle_request(&router, &mut st, &req));
    assert_eq!(r.status, 409);
}

#[test]
fn form_body_decodes() {
    let router = build_app_router();
    let mut st = state();
    let req = request(Method::Post, b"/form", b"", b"username=Dave&number=7");
    let r = http(handle_request(&router, &mut st, &req));
    assert_eq!(r.status, 200);
    assert_eq!(r.body, b"Welcome Dave -> 7!".to_vec());
}

#[test]
fn form_body_with_bad_number_is_400() {
    let router = build_app_router();
    let mut st = state();
    let req = request(Method::Post, b"/form", b"", b"username=Dave&number=seven");
    let r = http(handle_request(&router, &mut st, &req));
    assert_eq!(r.status, 400);
}

#[test]
fn form_body_without_pairs_is_400() {
    let router = build_app_router();
    let mut st = state();
    let req = request(Method::Post, b"/form", b"", b"garbage");
    let r = http(handle_request(&router, &mut st, &req));
    assert_eq!(r.status, 400);
}

#[test]
fn event_body_is_captured() {
    let router = build_app_router();
    let mut st = state();
    let body = b"{\"id\":null,\"timestamp\":1.5,\"kind\":\"click\",\"tags\":[\"a\",\"b\"]}";
    let req = request(Method::Post, b"/event", b"", body);
    let r = http(handle_request(&router, &mut st, &req));
    assert_eq!(r.status, 200);
    assert_eq!(r.body, b"got event 123".to_vec());
}

#[test]
fn event_body_without_tags_is_400() {
    let router = build_app_router();
    let mut st = state();
    let body = b"{\"timestamp\":1.5,\"kind\":\"click\"}";
    let req = request(Method::Post, b"/event", b"", body);
    let r = http(handle_request(&router, &mut st, &req));
    assert_eq!(r.status, 400);
}

#[test]
fn pairs_parse_splits_on_separators() {
    let pairs = parse_pairs(b"a=1&b=2").unwrap();
    assert_eq!(pairs.len(), 2);
    assert_eq!(pairs[0], (b"a".to_vec(), b"1".to_vec()));
    assert_eq!(pairs[1], (b"b".to_vec(), b"2".to_vec()));
}

#[test]
fn pairs_parse_rejects_chunk_without_equals() {
    assert!(matches!(parse_pairs(b"a=1&b"), Err(ExtractionError::Malformed)));
}

#[test]
fn pairs_parse_rejects_chunk_with_two_equals() {
    assert!(matches!(parse_pairs(b"a==1"), Err(ExtractionError::Malformed)));
}

#[test]
fn empty_query_has_no_pairs() {
    assert_eq!(parse_pairs(b"").unwrap().len(), 0);
}

#[test]
fn query_first_binding_wins() {
    let info = extract_query_info2(b"name=Dave&name=Eve").unwrap();
    assert_eq!(info.name, b"Dave".to_vec());
}

#[test]
fn path_extractor_reports_type_mismatch() {
    let pairs = vec![
        (b"user_id".to_vec(), b"abc".to_vec()),
        (b"name".to_vec(), b"Dave".to_vec()),
    ];
    assert!(matches!(
        extract_my_info(&pairs),
        Err(ExtractionError::TypeMismatch(f)) if f == b"user_id".to_vec()
    ));
}

#[test]
fn body_limit_reports_too_large() {
    assert!(matches!(check_body_limit(&[0u8; 10], 5), Err(ExtractionError::TooLarge)));
    assert!(check_body_limit(&[0u8; 5], 5).is_ok());
}

#[test]
fn event_body_without_timestamp_is_400() {
    let router = build_app_router();
    let mut st = state();
    let body = b"{\"kind\":\"click\",\"tags\":[\"a\"]}";
    let req = request(Method::Post, b"/event", b"", body);
    let r = http(handle_request(&router, &mut st, &req));
    assert_eq!(r.status, 400);
}

#[test]
fn form_extractor_reports_missing_field() {
    assert!(matches!(
        extract_form(b"username=Dave"),
        Err(ExtractionError::Missing(f)) if f == b"number".to_vec()
    ));
}
