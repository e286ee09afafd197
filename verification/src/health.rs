//! The answer to health probes.
use vstd::prelude::*;

verus! {

/// An HTTP response.
#[derive(Debug, PartialEq, Eq)]
pub struct HealthReply {
    pub status: u16,
    pub content_type: String,
    pub body: String,
}

/// Answers any HTTP request: the service is up.
pub fn handle_http_request() -> (r: HealthReply)
    ensures
        r.status == 200,
        r.content_type@ == "application/json"@,
        r.body@ == "{\"status\":\"ok\", \"service\": \"b2bua-service\"}"@,
{
    HealthReply {
        status: 200,
        content_type: "application/json".to_owned(),
        body: "{\"status\":\"ok\", \"service\": \"b2bua-service\"}".to_owned(),
    }
}

} // verus!
