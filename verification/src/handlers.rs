//! The handler set: one identifier per route handler, and the pure
//! request-to-response functions the dispatcher runs for them.

use vstd::prelude::*;
use vstd::string::StringSliceAdditionalSpecFns;
use crate::bytesx::{byte_str, append_bytes, u32_to_dec, dec_digits_of, views_of};
use crate::extract::{MyInfo, Info2, FormData};
use crate::state::{AppState, StateModel};

verus! {

/// Opaque reference to a registered handler: the routing table stores
/// these, and the dispatcher maps each to its function.
#[derive(PartialEq, Eq, Structural, Clone, Copy, Debug)]
pub enum HandlerId {
    /// Serves the static index file.
    Index,
    /// Fixed greeting text.
    Index2,
    /// Fixed JSON object response.
    ApiResponse,
    /// Locks the shared state and increments its counter.
    IncCounter,
    /// Stores a posted event and reports its new id.
    CaptureEvent,
    /// Echoes two captured path parameters.
    ExtractorTest,
    /// Greets the `name` query parameter.
    QueryTest,
    /// Greets the `name` field of a size-limited JSON body.
    JsonTest,
    /// Greets the fields of a form-encoded body.
    FormTest,
    /// Always returns a domain error.
    ErrorTest,
    /// Fixed text for the scope root.
    AppRoot,
    /// Explicitly registered to refuse its method.
    NotAllowedStub,
}

/// An HTTP response: a status code and a body.
pub struct Response {
    pub status: u16,
    pub body: Vec<u8>,
}

/// Mathematical model of a `Response`.
pub struct RespModel {
    pub status: u16,
    pub body: Seq<u8>,
}

impl Response {
    pub open spec fn model(&self) -> RespModel {
        RespModel { status: self.status, body: self.body@ }
    }
}

/// An error a handler may return instead of a response; the error
/// mapper owns the conversion to a status code.
pub struct DomainError {
    pub message: Vec<u8>,
    /// A status the error declares for itself; none means the mapper's
    /// default of internal server error.
    pub status: Option<u16>,
}

/// Mathematical model of a `DomainError`.
pub struct DomainModel {
    pub message: Seq<u8>,
    pub status: Option<u16>,
}

impl DomainError {
    pub open spec fn model(&self) -> DomainModel {
        DomainModel { message: self.message@, status: self.status }
    }
}

// ---------------------------------------------------------------------------
// Fixed responses
// ---------------------------------------------------------------------------

pub fn index2() -> (r: Response)
    ensures
        r.model() == (RespModel { status: 200, body: "Yo again!".spec_bytes() }),
{
    Response { status: 200, body: byte_str("Yo again!") }
}

pub fn app_root() -> (r: Response)
    ensures
        r.model() == (RespModel { status: 200, body: "app".spec_bytes() }),
{
    Response { status: 200, body: byte_str("app") }
}

pub fn not_allowed_stub() -> (r: Response)
    ensures
        r.model() == (RespModel { status: 405, body: Seq::<u8>::empty() }),
{
    Response { status: 405, body: Vec::new() }
}

// ---------------------------------------------------------------------------
// The JSON response object
// ---------------------------------------------------------------------------

/// The JSON text `{"name":"<name>","success":<success>}`; `name` is
/// emitted verbatim, so callers keep it free of characters that would
/// need escaping.
pub open spec fn object_json_spec(name: Seq<u8>, success: bool) -> Seq<u8> {
    "{\"name\":\"".spec_bytes() + name + "\",\"success\":".spec_bytes() + (if success {
        "true".spec_bytes()
    } else {
        "false".spec_bytes()
    }) + "}".spec_bytes()
}

/// An object some handlers respond with, serialized by `respond_to`.
pub struct AppResponseObject {
    pub name: Vec<u8>,
    pub success: bool,
}

impl AppResponseObject {
    /// Serialize into the JSON response this object stands for.
    pub fn respond_to(&self) -> (r: Response)
        ensures
            r.model() == (RespModel {
                status: 200,
                body: object_json_spec(self.name@, self.success),
            }),
    {
        let mut body = byte_str("{\"name\":\"");
        append_bytes(&mut body, self.name.as_slice());
        let mid = byte_str("\",\"success\":");
        append_bytes(&mut body, mid.as_slice());
        let flag = if self.success {
            byte_str("true")
        } else {
            byte_str("false")
        };
        append_bytes(&mut body, flag.as_slice());
        let close = byte_str("}");
        append_bytes(&mut body, close.as_slice());
        Response { status: 200, body }
    }
}

pub fn api_response() -> (r: Response)
    ensures
        r.model() == (RespModel {
            status: 200,
            body: object_json_spec("JIMMY".spec_bytes(), true),
        }),
{
    let o = AppResponseObject { name: byte_str("JIMMY"), success: true };
    o.respond_to()
}

// ---------------------------------------------------------------------------
// Stateful and extracting handlers
// ---------------------------------------------------------------------------

/// Lock the store, increment its counter, and report the new count.
pub fn inc_counter(state: &mut AppState) -> (r: Response)
    requires
        0 <= old(state).counter < i32::MAX,
    ensures
        final(state).model() == (StateModel {
            name: old(state).model().name,
            counter: old(state).model().counter + 1,
        }),
        r.model() == (RespModel {
            status: 200,
            body: "Count num: ".spec_bytes() + dec_digits_of(old(state).model().counter + 1),
        }),
{
    let v = state.increment();
    let mut body = byte_str("Count num: ");
    let digits = u32_to_dec(v as u32);
    append_bytes(&mut body, digits.as_slice());
    Response { status: 200, body }
}

/// An event posted to the capture route.
pub struct Event {
    pub id: Option<i32>,
    pub kind: Vec<u8>,
    pub tags: Vec<Vec<u8>>,
}

/// Mathematical model of an `Event`.
pub struct EventModel {
    pub id: Option<int>,
    pub kind: Seq<u8>,
    pub tags: Seq<Seq<u8>>,
}

impl Event {
    pub open spec fn model(&self) -> EventModel {
        EventModel {
            id: match self.id {
                Option::Some(v) => Option::Some(v as int),
                Option::None => Option::None,
            },
            kind: self.kind@,
            tags: views_of(self.tags@),
        }
    }
}

/// The id the store assigns to every newly stored event. Persistence
/// itself is out of scope; the store only stamps the record.
pub const FRESH_EVENT_ID: i32 = 123;

/// Stamp an event record as stored, assigning its id.
pub fn store_in_db(kind: &Vec<u8>, tags: &Vec<Vec<u8>>) -> (r: Event)
    ensures
        r.model() == (EventModel {
            id: Option::Some(FRESH_EVENT_ID as int),
            kind: kind@,
            tags: views_of(tags@),
        }),
{
    let mut tags2: Vec<Vec<u8>> = Vec::new();
    let mut i: usize = 0;
    while i < tags.len()
        invariant
            i <= tags@.len(),
            tags2@.len() == i,
            forall|j: int| 0 <= j < i ==> (#[trigger] tags2@[j])@ == tags@[j]@,
        decreases tags@.len() - i,
    {
        tags2.push(tags[i].clone());
        i = i + 1;
    }
    let r = Event { id: Option::Some(FRESH_EVENT_ID), kind: kind.clone(), tags: tags2 };
    proof {
        assert(views_of(r.tags@) =~= views_of(tags@));
    }
    r
}

/// Store the posted event and answer with its new id.
pub fn capture_event(kind: Vec<u8>, tags: Vec<Vec<u8>>) -> (r: Response)
    ensures
        r.model() == (RespModel {
            status: 200,
            body: "got event ".spec_bytes() + dec_digits_of(FRESH_EVENT_ID as int),
        }),
{
    let evt = store_in_db(&kind, &tags);
    match evt.id {
        Option::Some(id) => {
            let mut body = byte_str("got event ");
            let digits = u32_to_dec(id as u32);
            append_bytes(&mut body, digits.as_slice());
            Response { status: 200, body }
        },
        Option::None => {
            proof {
                assert(false);
            }
            Response { status: 500, body: Vec::new() }
        },
    }
}

/// Echo the two captured path parameters, space separated.
pub fn extractor_test(info: MyInfo) -> (r: Response)
    ensures
        r.model() == (RespModel {
            status: 200,
            body: dec_digits_of(info.user_id as int) + " ".spec_bytes() + info.name@,
        }),
{
    let mut body = u32_to_dec(info.user_id);
    let sp = byte_str(" ");
    append_bytes(&mut body, sp.as_slice());
    append_bytes(&mut body, info.name.as_slice());
    Response { status: 200, body }
}

/// Greet the name found in the query string.
pub fn query_test(info: Info2) -> (r: Response)
    ensures
        r.model() == (RespModel {
            status: 200,
            body: "Welcome: ".spec_bytes() + info.name@,
        }),
{
    let mut body = byte_str("Welcome: ");
    append_bytes(&mut body, info.name.as_slice());
    Response { status: 200, body }
}

/// Greet the name found in a JSON body.
pub fn json_test(info: Info2) -> (r: Response)
    ensures
        r.model() == (RespModel {
            status: 200,
            body: "Welcome: ".spec_bytes() + info.name@,
        }),
{
    let mut body = byte_str("Welcome: ");
    append_bytes(&mut body, info.name.as_slice());
    Response { status: 200, body }
}

/// Greet the fields of a form-encoded body.
pub fn form_test(info: FormData) -> (r: Response)
    ensures
        r.model() == (RespModel {
            status: 200,
            body: "Welcome ".spec_bytes() + info.username@ + " -> ".spec_bytes()
                + dec_digits_of(info.number as int) + "!".spec_bytes(),
        }),
{
    let mut body = byte_str("Welcome ");
    append_bytes(&mut body, info.username.as_slice());
    let arrow = byte_str(" -> ");
    append_bytes(&mut body, arrow.as_slice());
    let digits = u32_to_dec(info.number);
    append_bytes(&mut body, digits.as_slice());
    let bang = byte_str("!");
    append_bytes(&mut body, bang.as_slice());
    Response { status: 200, body }
}

/// Always fail with the example domain error.
pub fn error_test() -> (r: DomainError)
    ensures
        r.model() == (DomainModel {
            message: "some error yo".spec_bytes(),
            status: Option::None,
        }),
{
    DomainError { message: byte_str("some error yo"), status: Option::None }
}

} // verus!
