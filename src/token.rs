use vstd::prelude::*;

use crate::error::Error;
use crate::json::{int_member, json_int_member, json_text_member, text_member, text_view};

verus! {

/// Seconds taken off the lifetime that the provider declares, so that a token
/// never expires while a request that carries it is under way.
pub const EXPIRY_MARGIN_SECONDS: i64 = 15;

/// A bearer credential for the portal's API.
#[derive(Clone, Debug, PartialEq, Eq)]
pub struct AccessToken(pub String);

/// The id token that a lightweight refresh trades for a new token.
#[derive(Clone, Debug, PartialEq, Eq)]
pub struct RefreshToken(pub String);

/// A minted token; `expires_at` is in milliseconds since the Unix epoch.
#[derive(Clone, Debug, PartialEq, Eq)]
pub struct Token {
    pub access: AccessToken,
    pub id_token: RefreshToken,
    pub expires_at: i64,
}

/// The instant at which a token minted at `now` (milliseconds) with a declared
/// lifetime of `expires_in` seconds is considered expired.
pub open spec fn expiry_of(now: int, expires_in: int) -> int {
    now + (expires_in - EXPIRY_MARGIN_SECONDS) * 1000
}

/// Whether that instant can be held as milliseconds in an `i64`.
pub open spec fn expiry_fits(now: int, expires_in: int) -> bool {
    i64::MIN <= expiry_of(now, expires_in) <= i64::MAX
}

/// The expiry instant of a token minted at `now` with lifetime `expires_in`,
/// or `None` where it cannot be represented.
pub fn expiry_instant(now: i64, expires_in: i64) -> (r: Option<i64>)
    ensures
        r matches Some(e) ==> e == expiry_of(now as int, expires_in as int),
        r is Some <==> expiry_fits(now as int, expires_in as int),
{
    let e: i128 = now as i128 + (expires_in as i128 - EXPIRY_MARGIN_SECONDS as i128) * 1000;
    if i64::MIN as i128 <= e && e <= i64::MAX as i128 {
        Some(e as i64)
    } else {
        None
    }
}

impl Token {
    /// Whether the token has expired by the instant `now` (milliseconds).
    pub open spec fn expired_at(self, now: i64) -> bool {
        self.expires_at < now
    }

    /// Whether the token has expired at the instant `now` (milliseconds).
    pub fn need_refresh_at(&self, now: i64) -> (r: bool)
        ensures
            r == (self.expires_at < now),
    {
        self.expires_at < now
    }
}

} // verus!

verus! {

/// What a token reply holds, read as a success shape first and as an error
/// shape only where the success shape is absent: `access`, `id_token` and
/// `expires_in` are its success members, `error` its error member.
pub open spec fn token_reply_matches(
    now: i64,
    access: Option<Seq<char>>,
    id_token: Option<Seq<char>>,
    expires_in: Option<i64>,
    error: Option<Seq<char>>,
    r: Result<Token, Error>,
) -> bool {
    if access is Some && id_token is Some && expires_in is Some {
        if expiry_fits(now as int, expires_in->0 as int) {
            match r {
                Ok(t) => t.access.0@ == access->0 && t.id_token.0@ == id_token->0 && t.expires_at
                    == expiry_of(now as int, expires_in->0 as int),
                Err(_) => false,
            }
        } else {
            r matches Err(Error::JSONError(_))
        }
    } else {
        match error {
            Some(e) => match r {
                Err(Error::FailedToken(m)) => m@ == e,
                _ => false,
            },
            None => r matches Err(Error::JSONError(_)),
        }
    }
}

/// Turns the members of a token reply into a token minted at `now`, or into
/// the error that the reply carries.
pub fn token_from_reply(
    now: i64,
    access: Option<String>,
    id_token: Option<String>,
    expires_in: Option<i64>,
    error: Option<String>,
) -> (r: Result<Token, Error>)
    ensures
        token_reply_matches(
            now,
            text_view(access),
            text_view(id_token),
            expires_in,
            text_view(error),
            r,
        ),
{
    match (access, id_token, expires_in) {
        (Some(access), Some(id_token), Some(expires_in)) => match expiry_instant(now, expires_in) {
            Some(expires_at) => Ok(
                Token { access: AccessToken(access), id_token: RefreshToken(id_token), expires_at },
            ),
            None => Err(Error::JSONError(String::from_str("token lifetime out of range"))),
        },
        _ => match error {
            Some(e) => Err(Error::FailedToken(e)),
            None => Err(Error::JSONError(String::from_str("unrecognised token reply"))),
        },
    }
}

/// Decodes the body of a token endpoint reply received at `now`.
pub fn decode_token_reply(body: &str, now: i64) -> (r: Result<Token, Error>)
    ensures
        token_reply_matches(
            now,
            json_text_member(body@, "access_token"@),
            json_text_member(body@, "id_token"@),
            json_int_member(body@, "expires_in"@),
            json_text_member(body@, "error"@),
            r,
        ),
{
    let access = text_member(body, "access_token");
    let id_token = text_member(body, "id_token");
    let expires_in = int_member(body, "expires_in");
    let error = text_member(body, "error");
    token_from_reply(now, access, id_token, expires_in, error)
}

/// Relies on chrono::Utc::now and DateTime::timestamp_millis: the clock's
/// reading in milliseconds since the Unix epoch.
#[verifier::external_body]
pub(crate) fn now_millis() -> (r: i64) {
    chrono::Utc::now().timestamp_millis()
}

impl Token {
    /// Whether the token has expired by the clock's current reading.
    pub fn need_refresh(&self) -> (r: bool)
        ensures
            exists|now: i64| r == #[trigger] self.expired_at(now),
    {
        let now = now_millis();
        let r = self.need_refresh_at(now);
        assert(r == self.expired_at(now));
        r
    }
}

/// A token minted at `now` from a reply that declares a lifetime of at least
/// the margin expires the declared lifetime less the margin after `now`: it
/// needs no refresh at `now`, and needs one at every instant past its expiry.
pub proof fn lemma_minted_token_expiry(
    now: i64,
    access: Seq<char>,
    id_token: Seq<char>,
    expires_in: i64,
    error: Option<Seq<char>>,
    r: Result<Token, Error>,
    later: i64,
)
    requires
        expires_in >= EXPIRY_MARGIN_SECONDS,
        expiry_fits(now as int, expires_in as int),
        token_reply_matches(now, Some(access), Some(id_token), Some(expires_in), error, r),
    ensures
        r is Ok,
        r->Ok_0.expires_at == now + (expires_in - EXPIRY_MARGIN_SECONDS) * 1000,
        !(r->Ok_0.expires_at < now),
        later > r->Ok_0.expires_at ==> r->Ok_0.expires_at < later,
{
}

/// A token reply decodes to a token exactly where its success shape is present
/// (and its lifetime representable), whatever else it holds; it decodes to the
/// error that it carries only where the success shape is absent.
pub proof fn lemma_token_reply_exclusive(
    now: i64,
    access: Option<Seq<char>>,
    id_token: Option<Seq<char>>,
    expires_in: Option<i64>,
    error: Option<Seq<char>>,
    r: Result<Token, Error>,
)
    requires
        token_reply_matches(now, access, id_token, expires_in, error, r),
    ensures
        r is Ok <==> (access is Some && id_token is Some && expires_in is Some && expiry_fits(
            now as int,
            expires_in->0 as int,
        )),
        r matches Err(Error::FailedToken(_)) ==> !(access is Some && id_token is Some
            && expires_in is Some) && error is Some,
{
}

} // verus!
