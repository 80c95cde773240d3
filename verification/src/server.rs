//! The scrape endpoint's response policy.
//!
//! The listener, routing and graceful shutdown are process plumbing and stay
//! outside the library; what the endpoint answers for a given handler outcome
//! is decided here. A handler failure becomes a bodiless 500: the error is
//! for the log sink, never for the client.

use vstd::prelude::*;

verus! {

/// What `GET /metrics` answers: a status code, an optional content type, and
/// the response body.
#[derive(Clone, Debug)]
pub struct MetricsResponse {
    pub status: u16,
    pub content_type: Option<String>,
    pub body: String,
}

/// The OpenMetrics content type of a successful scrape.
pub open spec fn openmetrics_content_type() -> Seq<char> {
    "application/openmetrics-text; version=1.0.0; charset=utf-8"@
}

/// Decides the scrape response: 200 with the exposition body and the
/// OpenMetrics content type when the handler produced one, 500 with an empty
/// body when it failed.
pub fn metrics_response(result: Result<String, String>) -> (r: MetricsResponse)
    ensures
        match result {
            Ok(body) => r.status == 200 && r.body == body && (r.content_type matches Some(ct)
                && ct@ == openmetrics_content_type()),
            Err(_) => r.status == 500 && r.body@ == Seq::<char>::empty() && r.content_type is None,
        },
{
    match result {
        Ok(body) => MetricsResponse {
            status: 200,
            content_type: Some(
                String::from_str("application/openmetrics-text; version=1.0.0; charset=utf-8"),
            ),
            body,
        },
        Err(_) => MetricsResponse { status: 500, content_type: None, body: String::new() },
    }
}

} // verus!
