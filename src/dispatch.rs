//! The request/response front end: routing, status codes and reply bodies.

use vstd::prelude::*;
use vstd::string::*;
use crate::artifacts::{prefixed, starts_with, CedarService};
use crate::context::stage_prefix;
use crate::pipeline::service_outcome;
use crate::request::{AuthzRequest, DecodeError};
use crate::response::{json_string, json_string_of, response_json};

verus! {

/// Where a request goes.
#[derive(PartialEq, Eq, Structural, Clone, Copy, Debug)]
pub enum Route {
    Health,
    Authorize,
    NotFound,
}

/// The route of a method and path: `GET /health`, `POST /authorize`, and
/// nothing else.
pub open spec fn route_of(method: Seq<char>, path: Seq<char>) -> Route {
    if method == "GET"@ && path == "/health"@ {
        Route::Health
    } else if method == "POST"@ && path == "/authorize"@ {
        Route::Authorize
    } else {
        Route::NotFound
    }
}

/// Whether two texts are equal.
fn same_text(a: &str, b: &str) -> (r: bool)
    ensures
        r == (a@ == b@),
{
    String::from_str(a) == String::from_str(b)
}

/// Routes a request by its method and path.
pub fn route(method: &str, path: &str) -> (r: Route)
    ensures
        r == route_of(method@, path@),
{
    if same_text(method, "GET") && same_text(path, "/health") {
        Route::Health
    } else if same_text(method, "POST") && same_text(path, "/authorize") {
        Route::Authorize
    } else {
        Route::NotFound
    }
}

/// A reply: its status code, whether its body is JSON, and the body.
pub struct HttpReply {
    pub status: u16,
    pub json: bool,
    pub body: String,
}

/// The kind of a failed request, which alone fixes its status code.
#[derive(PartialEq, Eq, Structural, Clone, Copy, Debug)]
pub enum FailureKind {
    Decode,
    Build,
    Internal,
}

/// The status code of a failure kind.
pub open spec fn failure_status(kind: FailureKind) -> u16 {
    match kind {
        FailureKind::Decode => 400,
        FailureKind::Build => 400,
        FailureKind::Internal => 500,
    }
}

/// The status code of a failure kind: client input errors are 400, anything
/// else 500.
pub fn status_of(kind: FailureKind) -> (r: u16)
    ensures
        r == failure_status(kind),
{
    match kind {
        FailureKind::Decode => 400,
        FailureKind::Build => 400,
        FailureKind::Internal => 500,
    }
}

/// The JSON error envelope `{"error":…}` around `message`.
pub open spec fn error_json(message: Seq<char>) -> Seq<char> {
    "{\"error\":"@ + json_string(message) + "}"@
}

/// The reply to a health check, whatever the service holds.
pub fn health_reply() -> (r: HttpReply)
    ensures
        r.status == 200,
        r.json,
        r.body@ == "{\"status\":\"healthy\"}"@,
{
    HttpReply { status: 200, json: true, body: String::from_str("{\"status\":\"healthy\"}") }
}

/// The reply for any method and path without a route.
pub fn not_found_reply() -> (r: HttpReply)
    ensures
        r.status == 404,
        !r.json,
        r.body@ == "Not found"@,
{
    HttpReply { status: 404, json: false, body: String::from_str("Not found") }
}

/// A JSON error reply of the given kind.
pub fn error_reply(kind: FailureKind, message: &str) -> (r: HttpReply)
    ensures
        r.status == failure_status(kind),
        r.json,
        r.body@ == error_json(message@),
{
    let mut body = String::from_str("{\"error\":");
    let quoted = json_string_of(message);
    body.append(quoted.as_str());
    body.append("}");
    HttpReply { status: status_of(kind), json: true, body }
}

/// The reply when the request body could not be read.
pub fn body_unreadable_reply(detail: &str) -> (r: HttpReply)
    ensures
        r.status == 400,
        r.json,
        r.body@ == error_json("Failed to read body: "@ + detail@),
{
    let message = prefixed("Failed to read body: ", detail);
    error_reply(FailureKind::Decode, message.as_str())
}

/// The decision text of a verdict.
pub open spec fn verdict_text(allowed: bool) -> Seq<char> {
    if allowed {
        "Allow"@
    } else {
        "Deny"@
    }
}

/// The status of the reply to `POST /authorize` for a decoded body: 400 for a
/// decode or build failure, 200 otherwise.
pub open spec fn reply_status(service: &CedarService, decoded: Result<AuthzRequest, DecodeError>) -> u16 {
    match decoded {
        Err(_) => 400,
        Ok(req) => match service_outcome(service, &req) {
            Err(_) => 400,
            Ok(_) => 200,
        },
    }
}

/// The reply to `POST /authorize`, given the decoded body. A decode failure
/// or a build failure is a 400 with a JSON error; otherwise the reply is a 200
/// carrying the decision and diagnostics, whatever evaluation errors the
/// diagnostics hold.
pub fn authorize_reply(service: &CedarService, decoded: Result<AuthzRequest, DecodeError>) -> (r:
    HttpReply)
    ensures
        r.json,
        r.status == reply_status(service, decoded),
        decoded is Err ==> r.status == 400 && r.body@ == error_json(
            "Invalid request: "@ + decoded->Err_0->Malformed_0@,
        ),
        decoded is Ok ==> match service_outcome(service, &decoded->Ok_0) {
            Err(stage) => r.status == 400 && exists|m: Seq<char>|
                starts_with(m, stage_prefix(stage)) && r.body@ == error_json(m),
            Ok(v) => r.status == 200 && exists|reason: Seq<Seq<char>>, errors: Seq<Seq<char>>|
                reason.to_set() == v.1 && errors.to_multiset() == v.2 && r.body@
                    == response_json(verdict_text(v.0), reason, errors),
        },
{
    let req = match decoded {
        Ok(q) => q,
        Err(DecodeError::Malformed(m)) => {
            let message = prefixed("Invalid request: ", &m);
            return error_reply(FailureKind::Decode, message.as_str());
        },
    };
    let ghost model = req;
    match service.authorize(req) {
        Ok(resp) => {
            let body = resp.to_json();
            proof {
                reveal_strlit("Allow");
                reveal_strlit("Deny");
                assert("Allow"@ != "Deny"@) by {
                    assert("Allow"@.len() != "Deny"@.len());
                }
                let reason = crate::engine::texts(resp.diagnostics.reason@);
                let errors = crate::engine::texts(resp.diagnostics.errors@);
                assert(body@ == response_json(
                    verdict_text(resp.decision@ == "Allow"@),
                    reason,
                    errors,
                ));
                assert(reason.to_set() == service_outcome(service, &model)->Ok_0.1);
                assert(errors.to_multiset() == service_outcome(service, &model)->Ok_0.2);
                assert(service_outcome(service, &model) is Ok);
                assert(verdict_text(service_outcome(service, &model)->Ok_0.0) == resp.decision@);
            }
            HttpReply { status: 200, json: true, body }
        },
        Err(e) => {
            let message = e.message();
            let r = error_reply(FailureKind::Build, message.as_str());
            assert(service_outcome(service, &model) is Err);
            assert(starts_with(message@, stage_prefix(service_outcome(service, &model)->Err_0)));
            r
        },
    }
}

/// A request that decodes and builds is answered with 200 whatever the
/// evaluation yields: errors in the diagnostics never turn the reply into a
/// failure, whether the decision is `Allow` or `Deny`.
pub proof fn lemma_evaluation_errors_answer_ok(service: &CedarService, req: AuthzRequest)
    requires
        service_outcome(service, &req) is Ok,
    ensures
        reply_status(service, Ok(req)) == 200,
{
}

} // verus!
