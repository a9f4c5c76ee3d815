//! Reading protocol signals out of the target of a redirect that is not followed.
use vstd::prelude::*;

use crate::error::Error;
use crate::json::text_view;

verus! {

/// A query string as decoded key-value pairs, in order.
pub type Pairs = Seq<(Seq<char>, Seq<char>)>;

/// The decoded query pairs of `url`, where it parses as an absolute URL.
pub uninterp spec fn url_query_pairs(url: Seq<char>) -> Option<Pairs>;

/// The view of a list of string pairs.
pub open spec fn pairs_view(v: Seq<(String, String)>) -> Pairs {
    v.map_values(|p: (String, String)| (p.0@, p.1@))
}

/// Relies on url::Url::parse and Url::query_pairs: the percent-decoded pairs of
/// the query of `url` in order, where `url` parses as an absolute URL.
#[verifier::external_body]
pub(crate) fn query_pairs(url: &str) -> (r: Option<Vec<(String, String)>>)
    ensures
        match r {
            Some(v) => url_query_pairs(url@) == Some(pairs_view(v@)),
            None => url_query_pairs(url@) is None,
        },
{
    let parsed = url::Url::parse(url).ok()?;
    Some(parsed.query_pairs().map(|(k, v)| (k.into_owned(), v.into_owned())).collect())
}

/// The value of the first pair whose key is `key`.
pub open spec fn first_value(pairs: Pairs, key: Seq<char>) -> Option<Seq<char>>
    decreases pairs.len(),
{
    if pairs.len() == 0 {
        None
    } else if pairs[0].0 == key {
        Some(pairs[0].1)
    } else {
        first_value(pairs.drop_first(), key)
    }
}

/// The value of the last pair whose key is `key`: what a map built from the
/// pairs in order holds under `key`.
pub open spec fn last_value(pairs: Pairs, key: Seq<char>) -> Option<Seq<char>>
    decreases pairs.len(),
{
    if pairs.len() == 0 {
        None
    } else if pairs.last().0 == key {
        Some(pairs.last().1)
    } else {
        last_value(pairs.drop_last(), key)
    }
}

/// Finds the value of the first pair whose key is `key`.
pub fn find_first(pairs: &Vec<(String, String)>, key: &str) -> (r: Option<String>)
    ensures
        text_view(r) == first_value(pairs_view(pairs@), key@),
{
    let key = String::from_str(key);
    let ghost all = pairs_view(pairs@);
    let mut found: Option<String> = None;
    let mut i: usize = pairs.len();
    while i > 0
        invariant
            i <= pairs@.len(),
            all == pairs_view(pairs@),
            text_view(found) == first_value(all.subrange(i as int, all.len() as int), key@),
        decreases i,
    {
        i = i - 1;
        assert(all.subrange(i as int, all.len() as int).drop_first() =~= all.subrange(
            i as int + 1,
            all.len() as int,
        ));
        if pairs[i].0 == key {
            found = Some(pairs[i].1.clone());
        }
    }
    assert(all.subrange(0, all.len() as int) =~= all);
    found
}

/// Finds the value of the last pair whose key is `key`.
pub fn find_last(pairs: &Vec<(String, String)>, key: &str) -> (r: Option<String>)
    ensures
        text_view(r) == last_value(pairs_view(pairs@), key@),
{
    let key = String::from_str(key);
    let ghost all = pairs_view(pairs@);
    let mut found: Option<String> = None;
    let mut i: usize = 0;
    while i < pairs.len()
        invariant
            i <= pairs@.len(),
            all == pairs_view(pairs@),
            text_view(found) == last_value(all.subrange(0, i as int), key@),
        decreases pairs@.len() - i,
    {
        assert(all.subrange(0, i as int + 1).drop_last() =~= all.subrange(0, i as int));
        if pairs[i].0 == key {
            found = Some(pairs[i].1.clone());
        }
        i = i + 1;
    }
    assert(all.subrange(0, all.len() as int) =~= all);
    found
}

/// The decoded query pairs of a redirect target, where there is one and it parses.
pub open spec fn redirect_pairs(location: Option<Seq<char>>) -> Option<Pairs> {
    match location {
        Some(l) => url_query_pairs(l),
        None => None,
    }
}

/// Reads the query pairs of a redirect target, where there is one and it parses.
fn pairs_of_redirect(location: &Option<String>) -> (r: Option<Vec<(String, String)>>)
    ensures
        match r {
            Some(v) => redirect_pairs(text_view(*location)) == Some(pairs_view(v@)),
            None => redirect_pairs(text_view(*location)) is None,
        },
{
    match location {
        Some(l) => query_pairs(l.as_str()),
        None => None,
    }
}

/// Whether the target of the login reply's redirect says that the portal took
/// the session for a bot: its first `botdetected` pair reads `true`.
pub open spec fn flagged_as_bot(location: Option<Seq<char>>) -> bool {
    match redirect_pairs(location) {
        Some(p) => first_value(p, "botdetected"@) == Some("true"@),
        None => false,
    }
}

/// Inspects the redirect that answers the credentials: `Blocked` where the
/// portal flagged the session, success otherwise.
pub fn check_login_redirect(location: &Option<String>) -> (r: Result<(), Error>)
    ensures
        r is Err <==> flagged_as_bot(text_view(*location)),
        r is Err ==> r == Err::<(), Error>(Error::Blocked),
{
    match pairs_of_redirect(location) {
        Some(pairs) => match find_first(&pairs, "botdetected") {
            Some(v) => {
                if v == String::from_str("true") {
                    Err(Error::Blocked)
                } else {
                    Ok(())
                }
            },
            None => Ok(()),
        },
        None => Ok(()),
    }
}

/// An authorization code, bound by value to the verifier that it was requested with.
#[derive(Clone, Debug, PartialEq, Eq)]
pub struct AuthorizationCode {
    pub code: String,
    pub code_verifier: String,
}

/// What the redirect that answers an authorization request yields, for the
/// verifier `verifier`: its `error` pair, else its `code` pair, as a map built
/// from the pairs in order holds them.
pub open spec fn authorization_matches(
    location: Option<Seq<char>>,
    verifier: Seq<char>,
    r: Result<AuthorizationCode, Error>,
) -> bool {
    match redirect_pairs(location) {
        None => match r {
            Err(Error::AuthorizationFailure(m)) => m@ == "No or invalid redirect url"@,
            _ => false,
        },
        Some(p) => match last_value(p, "error"@) {
            Some(e) => match r {
                Err(Error::AuthorizationFailure(m)) => m@ == e,
                _ => false,
            },
            None => match last_value(p, "code"@) {
                Some(c) => match r {
                    Ok(a) => a.code@ == c && a.code_verifier@ == verifier,
                    Err(_) => false,
                },
                None => match r {
                    Err(Error::AuthorizationFailure(m)) => m@ == "No code provided"@,
                    _ => false,
                },
            },
        },
    }
}

/// Extracts the authorization code from the redirect that answers an
/// authorization request made with `code_verifier`.
pub fn authorization_code_from_redirect(location: &Option<String>, code_verifier: String) -> (r:
    Result<AuthorizationCode, Error>)
    ensures
        authorization_matches(text_view(*location), code_verifier@, r),
{
    match pairs_of_redirect(location) {
        None => Err(Error::AuthorizationFailure(String::from_str("No or invalid redirect url"))),
        Some(pairs) => match find_last(&pairs, "error") {
            Some(e) => Err(Error::AuthorizationFailure(e)),
            None => match find_last(&pairs, "code") {
                Some(code) => Ok(AuthorizationCode { code, code_verifier }),
                None => Err(Error::AuthorizationFailure(String::from_str("No code provided"))),
            },
        },
    }
}

} // verus!
