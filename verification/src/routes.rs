//! The routing decision of the metrics HTTP surface.
//!
//! The server itself is outside this library; it hands the request method and
//! path in and performs whatever the decision asks: answer the health check,
//! gather and encode one collector pass, or reject the path.

use vstd::prelude::*;

use crate::strutil::str_eq;

verus! {

/// What the server must do with a request.
#[derive(Clone, Copy, Debug, PartialEq, Eq, Structural)]
pub enum Route {
    /// `GET /health`: answer 200 with an empty body, unconditionally.
    Health,
    /// `GET /metrics`: run one collector pass and encode the samples.
    Metrics,
    /// Anything else: answer 404 with an empty body.
    NotFound,
}

/// The routing table.
pub open spec fn route_spec(method: Seq<char>, path: Seq<char>) -> Route {
    if method == "GET"@ && path == "/health"@ {
        Route::Health
    } else if method == "GET"@ && path == "/metrics"@ {
        Route::Metrics
    } else {
        Route::NotFound
    }
}

/// The status code of a response, given the route taken and whether
/// serializing the gathered samples succeeded. Only the metrics route
/// depends on serialization; the health check never does.
pub open spec fn response_status_spec(r: Route, encode_ok: bool) -> int {
    match r {
        Route::Health => 200,
        Route::Metrics => if encode_ok {
            200
        } else {
            500
        },
        Route::NotFound => 404,
    }
}

/// Routes one request by method and path.
pub fn route_request(method: &str, path: &str) -> (r: Route)
    ensures
        r == route_spec(method@, path@),
{
    if str_eq(method, "GET") && str_eq(path, "/health") {
        Route::Health
    } else if str_eq(method, "GET") && str_eq(path, "/metrics") {
        Route::Metrics
    } else {
        Route::NotFound
    }
}

/// The status code the server must answer with.
pub fn response_status(r: Route, encode_ok: bool) -> (status: u16)
    ensures
        status as int == response_status_spec(r, encode_ok),
{
    match r {
        Route::Health => 200,
        Route::Metrics => if encode_ok {
            200
        } else {
            500
        },
        Route::NotFound => 404,
    }
}

/// The health check answers 200 whatever the state of the RPC backend or of
/// the serializer: its route never consults either.
pub proof fn lemma_health_always_ok(encode_ok: bool)
    ensures
        response_status_spec(route_spec("GET"@, "/health"@), encode_ok) == 200,
{
}

} // verus!
