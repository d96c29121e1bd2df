use vstd::prelude::*;

use crate::config::Config;

verus! {

/// The name of the remote procedure that reports the server's state.
pub const QUERY_FUNCTION: &'static str = "QueryServerState";

/// What `str::trim` gives for a string: the string without its leading and
/// trailing whitespace, as Unicode's White_Space property defines it.
pub uninterp spec fn trim_of(s: Seq<char>) -> Seq<char>;

/// Relies on `str::trim`: it returns the slice of its argument that is left
/// once leading and trailing whitespace is removed, and that slice depends
/// on the characters alone.
#[verifier::external_body]
fn trim_whitespace(s: &str) -> (r: &str)
    ensures
        r@ == trim_of(s@),
{
    s.trim()
}

/// The URL of the status API on `endpoint`.
pub open spec fn query_url_of(endpoint: Seq<char>) -> Seq<char> {
    "https://"@ + endpoint + "/api/v1"@
}

/// The JSON body that asks for the server's state.
pub open spec fn query_body_text() -> Seq<char> {
    "{\"function\":\""@ + QUERY_FUNCTION@ + "\"}"@
}

/// The `Authorization` header value for the contents of a token file.
pub open spec fn authorization_of(token: Seq<char>) -> Seq<char> {
    "Bearer "@ + trim_of(token)
}

/// The request sent on each poll.
#[derive(Clone, Debug, PartialEq, Eq)]
pub struct QueryRequest {
    /// Where the request is posted.
    pub url: String,
    /// The JSON body of the request.
    pub body: String,
    /// The value of the `Authorization` header, if one is sent.
    pub authorization: Option<String>,
    /// Whether the server's certificate is accepted without validation.
    pub accept_invalid_certs: bool,
}

/// Whether `r` is the request each poll sends for `config`: a POST of the
/// query body to the status API, with a bearer token only when one is
/// configured, and certificate validation switched off only in insecure mode.
pub open spec fn is_request_for(r: QueryRequest, config: Config) -> bool {
    &&& r.url@ == query_url_of(config.endpoint@)
    &&& r.body@ == query_body_text()
    &&& match config.bearer_token {
        None => r.authorization is None,
        Some(token) => r.authorization is Some && r.authorization->Some_0@ == authorization_of(token@),
    }
    &&& r.accept_invalid_certs == config.allow_insecure
}

/// The URL of the status API on `endpoint` (`host:port`).
pub fn query_url(endpoint: &str) -> (r: String)
    ensures
        r@ == query_url_of(endpoint@),
{
    let mut r = String::from_str("https://");
    r.append(endpoint);
    r.append("/api/v1");
    r
}

/// The JSON body that asks for the server's state.
pub fn query_body() -> (r: String)
    ensures
        r@ == query_body_text(),
{
    let mut r = String::from_str("{\"function\":\"");
    r.append(QUERY_FUNCTION);
    r.append("\"}");
    r
}

/// The `Authorization` header value for the contents of a token file:
/// `Bearer ` followed by the token with surrounding whitespace removed.
pub fn authorization_value(token: &str) -> (r: String)
    ensures
        r@ == authorization_of(token@),
{
    let mut r = String::from_str("Bearer ");
    r.append(trim_whitespace(token));
    r
}

impl QueryRequest {
    /// The request each poll sends for `config`.
    pub fn for_config(config: &Config) -> (r: QueryRequest)
        ensures
            is_request_for(r, *config),
    {
        let authorization = match &config.bearer_token {
            Some(token) => Some(authorization_value(token.as_str())),
            None => None,
        };
        QueryRequest {
            url: query_url(config.endpoint.as_str()),
            body: query_body(),
            authorization,
            accept_invalid_certs: config.allow_insecure,
        }
    }
}

} // verus!
