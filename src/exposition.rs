use vstd::prelude::*;

verus! {

/// Status of a scrape that got the encoded gauges.
pub const STATUS_OK: u16 = 200;

/// Status of a scrape whose encoding failed, an internal fault.
pub const STATUS_INTERNAL_ERROR: u16 = 500;

/// Body of a scrape whose encoding failed.
pub const ENCODING_FAULT_BODY: &'static str = "failed to encode metrics";

/// The answer to one `GET /metrics`.
#[derive(Clone, Debug, PartialEq, Eq)]
pub struct ScrapeResponse {
    pub status: u16,
    pub body: String,
}

/// Answers a scrape from the outcome of encoding the gauges: the encoded
/// text with status 200 however old the readings are, or, should encoding
/// fail, status 500 and a short message rather than a crash.
pub fn scrape_response(encoded: Option<String>) -> (r: ScrapeResponse)
    ensures
        encoded is Some ==> r.status == STATUS_OK && r.body@ == encoded->Some_0@,
        encoded is None ==> r.status == STATUS_INTERNAL_ERROR && r.body@
            == ENCODING_FAULT_BODY@,
{
    match encoded {
        Some(body) => ScrapeResponse { status: STATUS_OK, body },
        None => ScrapeResponse { status: STATUS_INTERNAL_ERROR, body: String::from_str(ENCODING_FAULT_BODY) },
    }
}

} // verus!
