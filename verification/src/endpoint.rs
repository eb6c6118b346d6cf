//! The responder itself: the fixed payload, the response it is wrapped in,
//! and the routing decision for an incoming request.
//!
//! The host HTTP server parses requests and writes responses; this module
//! holds the pure part in between.  `handle` answers a GET request at the
//! root path with the fixed 200 response and declines every other request,
//! which the host framework then answers with its default (404 or 405).

use vstd::prelude::*;

verus! {

use crate::json::{MemberValue, json_string_object, ser_single_member_object};
use vstd::string::StrSliceExecFns;

/// The method of an incoming request, as far as routing cares.
#[derive(Clone, Copy, PartialEq, Eq, Structural, Debug)]
pub enum Method {
    Get,
    Head,
    Post,
    Put,
    Delete,
    Connect,
    Options,
    Trace,
    Patch,
}

/// The key of the payload's one member.
pub open spec fn success_key() -> Seq<char> {
    "success"@
}

/// The fixed text of the payload's one member: the string `"true"`.
pub open spec fn true_text() -> Seq<char> {
    "true"@
}

/// The one path the responder serves.
pub open spec fn root_path() -> Seq<char> {
    "/"@
}

/// The content type of every successful response.
pub open spec fn json_content_type() -> Seq<char> {
    "application/json"@
}

/// The response body: the JSON object with the single key `success` mapped
/// to the string `"true"`.
pub open spec fn body_spec() -> Seq<char> {
    ser_single_member_object(success_key(), MemberValue::JsonString(true_text()))
}

/// The response payload: one field, `success`, fixed to the text `"true"`.
/// It is built fresh per request and carries no request-derived data.
pub struct Payload {
    pub success: String,
}

impl Payload {
    /// A well-formed payload holds exactly the fixed text.
    pub open spec fn wf(&self) -> bool {
        self.success@ == true_text()
    }

    /// Builds the fixed payload.
    pub fn new() -> (r: Payload)
        ensures
            r.wf(),
    {
        Payload { success: "true".to_owned() }
    }

    /// Serializes the payload as the fixed JSON body.
    pub fn to_json(&self) -> (r: String)
        requires
            self.wf(),
        ensures
            r@ == body_spec(),
    {
        json_string_object("success", self.success.as_str())
    }
}

/// An HTTP response, as much of one as the responder decides: status code,
/// content type, body.  The host framework serializes it onto the wire.
pub struct Response {
    pub status: u16,
    pub content_type: String,
    pub body: String,
}

/// The mathematical model of a response.
pub struct ResponseModel {
    pub status: int,
    pub content_type: Seq<char>,
    pub body: Seq<char>,
}

impl View for Response {
    type V = ResponseModel;

    open spec fn view(&self) -> ResponseModel {
        ResponseModel {
            status: self.status as int,
            content_type: self.content_type@,
            body: self.body@,
        }
    }
}

/// The one successful response: status 200, JSON content type, fixed body.
pub open spec fn ok_response_model() -> ResponseModel {
    ResponseModel { status: 200, content_type: json_content_type(), body: body_spec() }
}

/// Whether a request is answered by the responder: a GET at the root path.
pub open spec fn route_matches(m: Method, path: Seq<char>) -> bool {
    m == Method::Get && path == root_path()
}

/// What the responder answers: the fixed response for a matching request,
/// nothing for any other (the host framework's default takes over).
pub open spec fn response_spec(m: Method, path: Seq<char>) -> Option<ResponseModel> {
    if route_matches(m, path) {
        Some(ok_response_model())
    } else {
        None
    }
}

/// The model of an optional response.
pub open spec fn opt_response_view(r: Option<Response>) -> Option<ResponseModel> {
    match r {
        Some(resp) => Some(resp@),
        None => None,
    }
}

/// Builds the fixed 200 response.
pub fn ok_response() -> (r: Response)
    ensures
        r@ == ok_response_model(),
{
    let payload = Payload::new();
    Response {
        status: 200,
        content_type: "application/json".to_owned(),
        body: payload.to_json(),
    }
}

/// Checks whether the path is exactly the root path.
fn path_is_root(path: &str) -> (r: bool)
    ensures
        r == (path@ == root_path()),
{
    proof {
        reveal_strlit("/");
    }
    if path.unicode_len() == 1 {
        let c = path.get_char(0);
        proof {
            if c == '/' {
                assert(path@ =~= root_path());
            }
        }
        c == '/'
    } else {
        false
    }
}

/// Answers a request: the fixed 200 response for a GET at the root path,
/// `None` for every other request, which the host framework then answers
/// with its default not-found or method-not-allowed behavior.
pub fn handle(method: Method, path: &str) -> (r: Option<Response>)
    ensures
        opt_response_view(r) == response_spec(method, path@),
{
    if method == Method::Get && path_is_root(path) {
        Some(ok_response())
    } else {
        None
    }
}

/// For every GET request at the root path, the response exists and its
/// status is exactly 200.
pub proof fn lemma_get_root_status(m: Method, path: Seq<char>)
    requires
        route_matches(m, path),
    ensures
        response_spec(m, path) is Some,
        response_spec(m, path)->Some_0.status == 200,
{
}

/// For every GET request at the root path, the response body is the JSON
/// object with the single key `success` mapped to the *string* `"true"`.
pub proof fn lemma_get_root_body(m: Method, path: Seq<char>)
    requires
        route_matches(m, path),
    ensures
        response_spec(m, path) is Some,
        response_spec(m, path)->Some_0.body == ser_single_member_object(
            success_key(),
            MemberValue::JsonString(true_text()),
        ),
        response_spec(m, path)->Some_0.content_type == json_content_type(),
{
}

/// The body is never the object mapping `success` to the *boolean* `true`.
pub proof fn lemma_body_not_boolean()
    ensures
        body_spec() != ser_single_member_object(success_key(), MemberValue::JsonBool(true)),
{
    reveal_strlit("success");
    reveal_strlit("true");
    assert(body_spec().len() == 18);
    assert(ser_single_member_object(success_key(), MemberValue::JsonBool(true)).len() == 16);
}

/// The response carries no request-derived data: any two requests that match
/// the route receive the identical response, so repeated and concurrent
/// invocations cannot be told apart.
pub proof fn lemma_response_uniform(m1: Method, p1: Seq<char>, m2: Method, p2: Seq<char>)
    requires
        route_matches(m1, p1),
        route_matches(m2, p2),
    ensures
        response_spec(m1, p1) == response_spec(m2, p2),
{
}

/// A request with any other method or path gets no response from the
/// responder: the host framework's default behavior takes over.
pub proof fn lemma_no_match_delegated(m: Method, path: Seq<char>)
    requires
        !route_matches(m, path),
    ensures
        response_spec(m, path) is None,
{
}

} // verus!
