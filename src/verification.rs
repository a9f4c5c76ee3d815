//! The bot check that precedes signing in: what the login page must hold, the
//! sensor payload that is posted back, and how the reply is judged.
use vstd::prelude::*;

use crate::error::Error;
use crate::json::{
    bool_member, json_bool_member, json_null_member, json_text_member, null_member, text_member,
};
use crate::pattern::{find_group, regex_group};
use crate::pkce::{hex_random, is_hex_text};

verus! {

/// Finds the request verification token: the `value` attribute that follows
/// the `__RequestVerificationToken` field on its line.
pub const VERIFICATION_TOKEN_PATTERN: &'static str = "__RequestVerificationToken.* value=\"([^\"]*)";

/// Finds the path of the per-session verification script.
pub const STATIC_PATH_PATTERN: &'static str = "src=\"(/static/[a-z0-9]+)\"";

/// Number of random hexadecimal digits that lead the sensor data.
pub const SENSOR_PREFIX_LENGTH: usize = 22;

/// What the login page yields for the bot check.
#[derive(Clone, Debug, PartialEq, Eq)]
pub struct VerificationInfo {
    pub url: String,
    pub token: String,
}

/// What scraping the login page `body` yields: the token is looked for first.
pub open spec fn scrape_matches(body: Seq<char>, r: Result<VerificationInfo, Error>) -> bool {
    match regex_group(VERIFICATION_TOKEN_PATTERN@, body, 1) {
        None => r == Err::<VerificationInfo, Error>(Error::NoRequestValidationToken),
        Some(token) => match regex_group(STATIC_PATH_PATTERN@, body, 1) {
            None => r == Err::<VerificationInfo, Error>(Error::NoStaticUrl),
            Some(url) => match r {
                Ok(info) => info.token@ == token && info.url@ == url,
                Err(_) => false,
            },
        },
    }
}

/// Extracts the request verification token and the verification script's path
/// from the login page.
pub fn scrape_verification_info(body: &str) -> (r: Result<VerificationInfo, Error>)
    ensures
        scrape_matches(body@, r),
{
    let token = match find_group(VERIFICATION_TOKEN_PATTERN, body, 1) {
        Some(t) => t,
        None => return Err(Error::NoRequestValidationToken),
    };
    let url = match find_group(STATIC_PATH_PATTERN, body, 1) {
        Some(u) => u,
        None => return Err(Error::NoStaticUrl),
    };
    Ok(VerificationInfo { url, token })
}

/// The JSON body posted to the verification script: the random prefix, quoted,
/// followed by the bundled sensor data.
pub open spec fn sensor_payload_of(prefix: Seq<char>, sensor_data: Seq<char>) -> Seq<char> {
    "{\"sensor_data\":\"'"@ + prefix + "'"@ + sensor_data + "\"}"@
}

/// Builds the sensor payload from a prefix and the bundled sensor data.
pub fn sensor_payload(prefix: &str, sensor_data: &str) -> (r: String)
    ensures
        r@ == sensor_payload_of(prefix@, sensor_data@),
{
    let mut out = String::from_str("{\"sensor_data\":\"'");
    out.append(prefix);
    out.append("'");
    out.append(sensor_data);
    out.append("\"}");
    out
}

/// Builds the sensor payload with a fresh random prefix.
pub fn fresh_sensor_payload(sensor_data: &str) -> (r: String)
    ensures
        exists|prefix: Seq<char>|
            is_hex_text(prefix, SENSOR_PREFIX_LENGTH as nat) && r@ == sensor_payload_of(
                prefix,
                sensor_data@,
            ),
{
    let prefix = hex_random(SENSOR_PREFIX_LENGTH);
    let r = sensor_payload(prefix.as_str(), sensor_data);
    assert(is_hex_text(prefix@, SENSOR_PREFIX_LENGTH as nat));
    r
}

/// Whether the `error` member of the verification reply `body` has its
/// shape: a string, null, or absent.
pub open spec fn error_member_fits(body: Seq<char>) -> bool {
    json_text_member(body, "error"@) is Some || json_null_member(body, "error"@)
}

/// What the verification reply `body` means. It must hold a boolean `success`
/// and an `error` that is a string or null; `success` then decides, and a
/// refusal carries the `error` text, or a default reason.
pub open spec fn verification_matches(body: Seq<char>, r: Result<(), Error>) -> bool {
    match json_bool_member(body, "success"@) {
        Some(true) if error_member_fits(body) => r is Ok,
        Some(false) if error_member_fits(body) => match r {
            Err(Error::VerificationFailure(m)) => m@ == match json_text_member(body, "error"@) {
                Some(e) => e,
                None => "no error provided"@,
            },
            _ => false,
        },
        _ => r matches Err(Error::JSONError(_)),
    }
}

/// Judges the reply of the verification script.
pub fn check_verification_reply(body: &str) -> (r: Result<(), Error>)
    ensures
        verification_matches(body@, r),
{
    let error = text_member(body, "error");
    let fits = error.is_some() || null_member(body, "error");
    match bool_member(body, "success") {
        Some(true) if fits => Ok(()),
        Some(false) if fits => match error {
            Some(e) => Err(Error::VerificationFailure(e)),
            None => Err(Error::VerificationFailure(String::from_str("no error provided"))),
        },
        _ => Err(Error::JSONError(String::from_str("unrecognised verification reply"))),
    }
}

} // verus!
