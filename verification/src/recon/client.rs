//! The HTTP client that the probes of one run share.

use crate::config::{duration_from_secs, AppConfig};
use crate::error::ReconError;
use std::time::Duration;
use vstd::prelude::*;
use vstd::string::*;

verus! {

#[verifier::external_type_specification]
#[verifier::external_body]
pub struct ExClient(reqwest::Client);

#[verifier::external_type_specification]
#[verifier::external_body]
pub struct ExClientError(reqwest::Error);

#[verifier::external_type_specification]
#[verifier::external_body]
pub struct ExHeaderValue(reqwest::header::HeaderValue);

#[verifier::external_type_specification]
#[verifier::external_body]
pub struct ExInvalidHeaderValue(reqwest::header::InvalidHeaderValue);

/// The timeout that requests get where the settings name none.
pub const DEFAULT_TIMEOUT_SECONDS: u64 = 30;

/// A character that may stand in the value of a header: a tab, or any
/// character from the space on but the delete character.
pub open spec fn is_header_char(c: char) -> bool {
    (c as int >= 32 && c as int != 127) || c as int == 9
}

/// Text that may stand as the value of a header.
pub open spec fn is_header_text(text: Seq<char>) -> bool {
    forall|i: int| 0 <= i < text.len() ==> is_header_char(#[trigger] text[i])
}

/// The timeout of each request in seconds: the configured one, or the
/// default where none is configured.
pub open spec fn request_timeout(config: AppConfig) -> u64 {
    match config.request_timeout_seconds {
        Some(seconds) => seconds,
        None => DEFAULT_TIMEOUT_SECONDS,
    }
}

/// `HeaderValue::from_str` of the `http` crate, as `reqwest` hands it on.
/// It accepts a text exactly when each of its bytes is a tab, or at least
/// 32 and not 127; the bytes of a character beyond ASCII are all above
/// 127, so the test on bytes is the test on characters.
#[verifier::external_body]
fn header_value(text: &str) -> (r: Result<
    reqwest::header::HeaderValue,
    reqwest::header::InvalidHeaderValue,
>)
    ensures
        r is Ok <==> is_header_text(text@),
{
    reqwest::header::HeaderValue::from_str(text)
}

/// `reqwest::ClientBuilder::build`, for a client with the given timeout
/// for each request and the given user agent as a default header. Whether
/// it succeeds depends on the machine: nothing is claimed of the result.
#[verifier::external_body]
fn build_client(timeout: Duration, user_agent: reqwest::header::HeaderValue) -> (r: Result<
    reqwest::Client,
    reqwest::Error,
>) {
    let mut headers = reqwest::header::HeaderMap::new();
    headers.insert(reqwest::header::USER_AGENT, user_agent);
    reqwest::Client::builder().timeout(timeout).default_headers(headers).build()
}

/// The timeout that each request of a run gets, in seconds.
pub fn client_timeout_seconds(config: &AppConfig) -> (r: u64)
    ensures
        r == request_timeout(*config),
{
    match config.request_timeout_seconds {
        Some(seconds) => seconds,
        None => DEFAULT_TIMEOUT_SECONDS,
    }
}

/// What the attempt to build a client comes to: the client where one was
/// built, and a fault of the configuration where none was.
pub fn built_client(built: Result<reqwest::Client, reqwest::Error>) -> (r: Result<
    reqwest::Client,
    ReconError,
>)
    ensures
        match built {
            Ok(client) => r == Ok::<reqwest::Client, ReconError>(client),
            Err(_) => r matches Err(ReconError::Config(_)),
        },
{
    match built {
        Ok(client) => Ok(client),
        Err(e) => Err(ReconError::Config(e.to_string())),
    }
}

/// Creates the HTTP client of a run, with the configured timeout and user
/// agent. A user agent that cannot stand in a header is refused as a fault
/// of the configuration, and so is a client that cannot be built.
pub fn new_client(config: &AppConfig) -> (r: Result<reqwest::Client, ReconError>)
    ensures
        !is_header_text(config.default_user_agent@) ==> r is Err,
        r matches Err(e) ==> e is Config,
{
    let timeout = duration_from_secs(client_timeout_seconds(config));
    let user_agent = match header_value(config.default_user_agent.as_str()) {
        Ok(value) => value,
        Err(e) => {
            return Err(ReconError::Config(e.to_string()));
        },
    };
    built_client(build_client(timeout, user_agent))
}

} // verus!
