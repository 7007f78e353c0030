//! Request dispatch: route the request, run its extractors, call the
//! handler, and map failures — the whole path from one received
//! request to its reply, over the shared state. Also the application's
//! routing table.

use vstd::prelude::*;
use vstd::string::StringSliceAdditionalSpecFns;
use crate::bytesx::{split_spec, split_from, views_of, pair_views, byte_str, dec_digits_of};
use crate::router::{
    Router, RouteModel, SegModel, Method, MatchModel, MatchOutcome, match_route_spec,
    pattern_model, seg_of_text,
};
use crate::state::{AppState, StateModel};
use crate::handlers::{
    HandlerId, Response, RespModel, DomainModel, object_json_spec, FRESH_EVENT_ID,
    index2, api_response, app_root, not_allowed_stub, inc_counter, capture_event,
    extractor_test, query_test, json_test, form_test, error_test,
};
use crate::extract::{
    my_info_spec, query_info2_spec, json_info2_spec, form_data_spec, event_body_ok,
    extract_my_info, extract_query_info2, extract_json_info2, extract_form, extract_event,
    check_body_limit, ErrModel,
};
use crate::errmap::{DispatchError, DispatchErrModel, map_error, map_error_spec};

verus! {

/// One received request, as plain values: the framing below the wire
/// (request line, headers, body bytes) is the surrounding runtime's.
pub struct Request {
    pub method: Method,
    pub path: Vec<u8>,
    pub query: Vec<u8>,
    pub body: Vec<u8>,
}

/// Mathematical model of a `Request`.
pub struct ReqModel {
    pub method: Method,
    pub path: Seq<u8>,
    pub query: Seq<u8>,
    pub body: Seq<u8>,
}

impl Request {
    pub open spec fn model(&self) -> ReqModel {
        ReqModel {
            method: self.method,
            path: self.path@,
            query: self.query@,
            body: self.body@,
        }
    }
}

/// What the dispatcher answers: a finished HTTP response, or a file
/// for the surrounding runtime to serve.
pub enum Reply {
    Http(Response),
    File(Vec<u8>),
}

/// Mathematical model of a `Reply`.
pub enum ReplyModel {
    Http(RespModel),
    File(Seq<u8>),
}

impl Reply {
    pub open spec fn model(&self) -> ReplyModel {
        match self {
            Reply::Http(r) => ReplyModel::Http(r.model()),
            Reply::File(p) => ReplyModel::File(p@),
        }
    }
}

/// One dispatch step: the shared state afterwards, and the reply.
pub struct StepModel {
    pub state: StateModel,
    pub reply: ReplyModel,
}

/// The size limit the JSON greeting route configures for its body; the
/// same route also configures conflict-status answers for body errors.
pub const JSON_BODY_LIMIT: usize = 4096;

/// The segments of a request path after its leading slash.
pub open spec fn path_segs(path: Seq<u8>) -> Seq<Seq<u8>> {
    split_spec(path.subrange(1, path.len() as int), 47)
}

/// What each handler does with the shared state and the request, once
/// routing captured `caps` for it.
pub open spec fn handler_step(
    h: HandlerId,
    caps: Seq<(Seq<u8>, Seq<u8>)>,
    st: StateModel,
    req: ReqModel,
) -> StepModel {
    match h {
        HandlerId::Index => StepModel {
            state: st,
            reply: ReplyModel::File("index.html".spec_bytes()),
        },
        HandlerId::Index2 => StepModel {
            state: st,
            reply: ReplyModel::Http(RespModel { status: 200, body: "Yo again!".spec_bytes() }),
        },
        HandlerId::ApiResponse => StepModel {
            state: st,
            reply: ReplyModel::Http(RespModel {
                status: 200,
                body: object_json_spec("JIMMY".spec_bytes(), true),
            }),
        },
        HandlerId::AppRoot => StepModel {
            state: st,
            reply: ReplyModel::Http(RespModel { status: 200, body: "app".spec_bytes() }),
        },
        HandlerId::NotAllowedStub => StepModel {
            state: st,
            reply: ReplyModel::Http(RespModel { status: 405, body: Seq::empty() }),
        },
        HandlerId::IncCounter => if 0 <= st.counter < i32::MAX {
            StepModel {
                state: StateModel { name: st.name, counter: st.counter + 1 },
                reply: ReplyModel::Http(RespModel {
                    status: 200,
                    body: "Count num: ".spec_bytes() + dec_digits_of(st.counter + 1),
                }),
            }
        } else {
            StepModel {
                state: st,
                reply: ReplyModel::Http(map_error_spec(DispatchErrModel::LockFailure, false)),
            }
        },
        HandlerId::CaptureEvent => StepModel {
            state: st,
            reply: ReplyModel::Http(if event_body_ok(req.body) {
                RespModel {
                    status: 200,
                    body: "got event ".spec_bytes() + dec_digits_of(FRESH_EVENT_ID as int),
                }
            } else {
                map_error_spec(DispatchErrModel::Extraction(ErrModel::Malformed), false)
            }),
        },
        HandlerId::ExtractorTest => StepModel {
            state: st,
            reply: ReplyModel::Http(match my_info_spec(caps) {
                Result::Ok(v) => RespModel {
                    status: 200,
                    body: dec_digits_of(v.user_id as int) + " ".spec_bytes() + v.name,
                },
                Result::Err(e) => map_error_spec(DispatchErrModel::Extraction(e), false),
            }),
        },
        HandlerId::QueryTest => StepModel {
            state: st,
            reply: ReplyModel::Http(match query_info2_spec(req.query) {
                Result::Ok(v) => RespModel {
                    status: 200,
                    body: "Welcome: ".spec_bytes() + v.name,
                },
                Result::Err(e) => map_error_spec(DispatchErrModel::Extraction(e), false),
            }),
        },
        HandlerId::JsonTest => StepModel {
            state: st,
            reply: ReplyModel::Http(if req.body.len() > JSON_BODY_LIMIT {
                map_error_spec(DispatchErrModel::Extraction(ErrModel::TooLarge), true)
            } else {
                match json_info2_spec(req.body) {
                    Result::Ok(v) => RespModel {
                        status: 200,
                        body: "Welcome: ".spec_bytes() + v.name,
                    },
                    Result::Err(e) => map_error_spec(DispatchErrModel::Extraction(e), true),
                }
            }),
        },
        HandlerId::FormTest => StepModel {
            state: st,
            reply: ReplyModel::Http(match form_data_spec(req.body) {
                Result::Ok(v) => RespModel {
                    status: 200,
                    body: "Welcome ".spec_bytes() + v.username + " -> ".spec_bytes()
                        + dec_digits_of(v.number as int) + "!".spec_bytes(),
                },
                Result::Err(e) => map_error_spec(DispatchErrModel::Extraction(e), false),
            }),
        },
        HandlerId::ErrorTest => StepModel {
            state: st,
            reply: ReplyModel::Http(map_error_spec(
                DispatchErrModel::Domain(DomainModel {
                    message: "some error yo".spec_bytes(),
                    status: Option::None,
                }),
                false,
            )),
        },
    }
}

/// The full dispatch: a path without a leading slash matches nothing;
/// otherwise the router decides, and the matched handler runs.
pub open spec fn dispatch_spec(routes: Seq<RouteModel>, st: StateModel, req: ReqModel) -> StepModel {
    if req.path.len() == 0 || req.path[0] != 47 {
        StepModel {
            state: st,
            reply: ReplyModel::Http(map_error_spec(DispatchErrModel::RouteNotFound, false)),
        }
    } else {
        match match_route_spec(routes, req.method, path_segs(req.path)) {
            MatchModel::NotFound => StepModel {
                state: st,
                reply: ReplyModel::Http(map_error_spec(DispatchErrModel::RouteNotFound, false)),
            },
            MatchModel::MethodNotAllowed => StepModel {
                state: st,
                reply: ReplyModel::Http(map_error_spec(DispatchErrModel::MethodNotAllowed, false)),
            },
            MatchModel::Matched(h, caps) => handler_step(h, caps, st, req),
        }
    }
}

/// Body size limit: on the size-limited JSON route, a body over the
/// configured limit answers with the conflict status and leaves the
/// state untouched; a body within the limit that decodes is greeted
/// normally.
pub proof fn lemma_body_size_limit(caps: Seq<(Seq<u8>, Seq<u8>)>, st: StateModel, req: ReqModel)
    ensures
        req.body.len() > JSON_BODY_LIMIT ==> handler_step(HandlerId::JsonTest, caps, st, req)
            == (StepModel {
                state: st,
                reply: ReplyModel::Http(RespModel { status: 409, body: Seq::empty() }),
            }),
        req.body.len() <= JSON_BODY_LIMIT && json_info2_spec(req.body) is Ok
            ==> handler_step(HandlerId::JsonTest, caps, st, req) == (StepModel {
                state: st,
                reply: ReplyModel::Http(RespModel {
                    status: 200,
                    body: "Welcome: ".spec_bytes() + json_info2_spec(req.body)->Ok_0.name,
                }),
            }),
{
}

/// Run the handler the router picked.
fn run_handler(h: HandlerId, caps: Vec<(Vec<u8>, Vec<u8>)>, state: &mut AppState, req: &Request)
    -> (r: Reply)
    ensures
        final(state).model() == handler_step(h, pair_views(caps@), old(state).model(), req.model()).state,
        r.model() == handler_step(h, pair_views(caps@), old(state).model(), req.model()).reply,
{
    match h {
        HandlerId::Index => Reply::File(byte_str("index.html")),
        HandlerId::Index2 => Reply::Http(index2()),
        HandlerId::ApiResponse => Reply::Http(api_response()),
        HandlerId::AppRoot => Reply::Http(app_root()),
        HandlerId::NotAllowedStub => Reply::Http(not_allowed_stub()),
        HandlerId::IncCounter => {
            if 0 <= state.counter && state.counter < i32::MAX {
                Reply::Http(inc_counter(state))
            } else {
                Reply::Http(map_error(DispatchError::LockFailure, false))
            }
        },
        HandlerId::CaptureEvent => match extract_event(req.body.as_slice()) {
            Result::Ok(kt) => {
                let (kind, tags) = kt;
                Reply::Http(capture_event(kind, tags))
            },
            Result::Err(e) => Reply::Http(map_error(DispatchError::Extraction(e), false)),
        },
        HandlerId::ExtractorTest => match extract_my_info(&caps) {
            Result::Ok(v) => Reply::Http(extractor_test(v)),
            Result::Err(e) => Reply::Http(map_error(DispatchError::Extraction(e), false)),
        },
        HandlerId::QueryTest => match extract_query_info2(req.query.as_slice()) {
            Result::Ok(v) => Reply::Http(query_test(v)),
            Result::Err(e) => Reply::Http(map_error(DispatchError::Extraction(e), false)),
        },
        HandlerId::JsonTest => match check_body_limit(req.body.as_slice(), JSON_BODY_LIMIT) {
            Result::Err(e) => Reply::Http(map_error(DispatchError::Extraction(e), true)),
            Result::Ok(_) => match extract_json_info2(req.body.as_slice()) {
                Result::Ok(v) => Reply::Http(json_test(v)),
                Result::Err(e) => Reply::Http(map_error(DispatchError::Extraction(e), true)),
            },
        },
        HandlerId::FormTest => match extract_form(req.body.as_slice()) {
            Result::Ok(v) => Reply::Http(form_test(v)),
            Result::Err(e) => Reply::Http(map_error(DispatchError::Extraction(e), false)),
        },
        HandlerId::ErrorTest => Reply::Http(map_error(DispatchError::Domain(error_test()), false)),
    }
}

/// Handle one request against the routing table and the shared state.
pub fn handle_request(router: &Router, state: &mut AppState, req: &Request) -> (r: Reply)
    ensures
        final(state).model()
            == dispatch_spec(router.model(), old(state).model(), req.model()).state,
        r.model() == dispatch_spec(router.model(), old(state).model(), req.model()).reply,
{
    if req.path.len() == 0 || req.path[0] != 47 {
        return Reply::Http(map_error(DispatchError::RouteNotFound, false));
    }
    let segs = split_from(req.path.as_slice(), 1, 47);
    proof {
        assert(views_of(segs@) == path_segs(req.path@));
    }
    let m = router.match_route(req.method, &segs);
    match m {
        MatchOutcome::NotFound => Reply::Http(map_error(DispatchError::RouteNotFound, false)),
        MatchOutcome::MethodNotAllowed => Reply::Http(
            map_error(DispatchError::MethodNotAllowed, false),
        ),
        MatchOutcome::Matched(h, caps) => run_handler(h, caps, state, req),
    }
}

// ---------------------------------------------------------------------------
// The application's routing table
// ---------------------------------------------------------------------------

/// A pattern's text: a leading slash followed by `tail`.
pub fn pattern_text(tail: &str) -> (r: Vec<u8>)
    ensures
        r@ == seq![47u8] + tail.spec_bytes(),
        r@.len() >= 1,
        r@[0] == 47,
{
    let mut v: Vec<u8> = Vec::new();
    v.push(47);
    crate::bytesx::append_bytes(&mut v, tail.as_bytes());
    proof {
        assert(v@ =~= seq![47u8] + tail.spec_bytes());
    }
    v
}

/// The segments a pattern with tail `tail` (after the leading slash)
/// declares.
pub open spec fn route_pat(tail: Seq<u8>) -> Seq<SegModel> {
    split_spec(tail, 47).map_values(|s: Seq<u8>| seg_of_text(s))
}

proof fn lemma_pattern_text(tail: Seq<u8>)
    ensures
        pattern_model(seq![47u8] + tail) == route_pat(tail),
{
    let p = seq![47u8] + tail;
    assert(p.subrange(1, p.len() as int) =~= tail);
}

/// The `/app` resource: a fixed body for GET, and an explicit
/// method-not-allowed answer for HEAD.
pub open spec fn config_routes() -> Seq<RouteModel> {
    seq![
        RouteModel {
            method: Method::Get,
            pattern: route_pat("app".spec_bytes()),
            handler: HandlerId::AppRoot,
        },
        RouteModel {
            method: Method::Head,
            pattern: route_pat("app".spec_bytes()),
            handler: HandlerId::NotAllowedStub,
        },
    ]
}

/// Register the `/app` resource.
pub fn config(cfg: &mut Router)
    ensures
        final(cfg).model() =~= old(cfg).model() + config_routes(),
{
    let p = pattern_text("app");
    cfg.register(Method::Get, p.as_slice(), HandlerId::AppRoot);
    cfg.register(Method::Head, p.as_slice(), HandlerId::NotAllowedStub);
    proof {
        lemma_pattern_text("app".spec_bytes());
        assert(cfg.model() =~= old(cfg).model() + config_routes());
    }
}

/// The routes a scope nests under its prefix: the `/test` resource,
/// with the JSON object for GET and an explicit refusal for HEAD.
pub open spec fn scoped_config_routes() -> Seq<RouteModel> {
    seq![
        RouteModel {
            method: Method::Get,
            pattern: route_pat("test".spec_bytes()),
            handler: HandlerId::ApiResponse,
        },
        RouteModel {
            method: Method::Head,
            pattern: route_pat("test".spec_bytes()),
            handler: HandlerId::NotAllowedStub,
        },
    ]
}

/// Register the scope's nested routes into `cfg`.
pub fn scoped_config(cfg: &mut Router)
    ensures
        final(cfg).model() =~= old(cfg).model() + scoped_config_routes(),
{
    let p = pattern_text("test");
    cfg.register(Method::Get, p.as_slice(), HandlerId::ApiResponse);
    cfg.register(Method::Head, p.as_slice(), HandlerId::NotAllowedStub);
    proof {
        lemma_pattern_text("test".spec_bytes());
        assert(cfg.model() =~= old(cfg).model() + scoped_config_routes());
    }
}

/// The plainly registered routes of the application.
pub open spec fn main_routes() -> Seq<RouteModel> {
    seq![
        RouteModel {
            method: Method::Get,
            pattern: route_pat("".spec_bytes()),
            handler: HandlerId::Index,
        },
        RouteModel {
            method: Method::Get,
            pattern: route_pat("api".spec_bytes()),
            handler: HandlerId::ApiResponse,
        },
        RouteModel {
            method: Method::Get,
            pattern: route_pat("again".spec_bytes()),
            handler: HandlerId::Index2,
        },
        RouteModel {
            method: Method::Get,
            pattern: route_pat("inc".spec_bytes()),
            handler: HandlerId::IncCounter,
        },
        RouteModel {
            method: Method::Post,
            pattern: route_pat("event".spec_bytes()),
            handler: HandlerId::CaptureEvent,
        },
        RouteModel {
            method: Method::Get,
            pattern: route_pat("extractor/{user_id}/{name}".spec_bytes()),
            handler: HandlerId::ExtractorTest,
        },
        RouteModel {
            method: Method::Get,
            pattern: route_pat("query".spec_bytes()),
            handler: HandlerId::QueryTest,
        },
        RouteModel {
            method: Method::Post,
            pattern: route_pat("json".spec_bytes()),
            handler: HandlerId::JsonTest,
        },
        RouteModel {
            method: Method::Post,
            pattern: route_pat("form".spec_bytes()),
            handler: HandlerId::FormTest,
        },
        RouteModel {
            method: Method::Get,
            pattern: route_pat("error".spec_bytes()),
            handler: HandlerId::ErrorTest,
        },
    ]
}

/// Every route the application serves: the configured `/app` resource,
/// the plain routes, and the scope mounted under `/api`.
pub open spec fn app_routes() -> Seq<RouteModel> {
    config_routes() + main_routes()
        + crate::router::scoped_models(route_pat("api".spec_bytes()), scoped_config_routes())
}

/// Build the application's routing table.
pub fn build_app_router() -> (r: Router)
    ensures
        r.model() =~= app_routes(),
{
    let mut router = Router::new();
    config(&mut router);
    let p_root = pattern_text("");
    router.register(Method::Get, p_root.as_slice(), HandlerId::Index);
    let p_api = pattern_text("api");
    router.register(Method::Get, p_api.as_slice(), HandlerId::ApiResponse);
    let p_again = pattern_text("again");
    router.register(Method::Get, p_again.as_slice(), HandlerId::Index2);
    let p_inc = pattern_text("inc");
    router.register(Method::Get, p_inc.as_slice(), HandlerId::IncCounter);
    let p_event = pattern_text("event");
    router.register(Method::Post, p_event.as_slice(), HandlerId::CaptureEvent);
    let p_extractor = pattern_text("extractor/{user_id}/{name}");
    router.register(Method::Get, p_extractor.as_slice(), HandlerId::ExtractorTest);
    let p_query = pattern_text("query");
    router.register(Method::Get, p_query.as_slice(), HandlerId::QueryTest);
    let p_json = pattern_text("json");
    router.register(Method::Post, p_json.as_slice(), HandlerId::JsonTest);
    let p_form = pattern_text("form");
    router.register(Method::Post, p_form.as_slice(), HandlerId::FormTest);
    let p_error = pattern_text("error");
    router.register(Method::Get, p_error.as_slice(), HandlerId::ErrorTest);
    let mut sub = Router::new();
    scoped_config(&mut sub);
    router.register_scope(p_api.as_slice(), &sub);
    proof {
        lemma_pattern_text("".spec_bytes());
        lemma_pattern_text("api".spec_bytes());
        lemma_pattern_text("again".spec_bytes());
        lemma_pattern_text("inc".spec_bytes());
        lemma_pattern_text("event".spec_bytes());
        lemma_pattern_text("extractor/{user_id}/{name}".spec_bytes());
        lemma_pattern_text("query".spec_bytes());
        lemma_pattern_text("json".spec_bytes());
        lemma_pattern_text("form".spec_bytes());
        lemma_pattern_text("error".spec_bytes());
        assert(router.model() =~= app_routes());
    }
    router
}

} // verus!
