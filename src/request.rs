//! The HTTP exchanges of the protocol, as plain values: what is to be sent and
//! what came back.
use vstd::prelude::*;

use crate::config::Config;
use crate::redirect::{pairs_view, Pairs};

verus! {

/// A request for the caller to send with the session's cookie store, without
/// following redirects.
#[derive(Clone, Debug)]
pub enum Request {
    /// A GET of `url` with the query pairs `query`.
    Get { url: String, query: Vec<(String, String)> },
    /// A POST of `url` with the pairs `form`, form-encoded.
    PostForm { url: String, form: Vec<(String, String)> },
    /// A POST of `url` with `body` as it stands.
    PostBody { url: String, body: String },
}

/// What came back for a request.
#[derive(Clone, Debug)]
pub struct Reply {
    /// Whether the status was in the 2xx range.
    pub success: bool,
    /// The `Location` header, where there is one and it is text.
    pub location: Option<String>,
    /// The body as text.
    pub body: String,
}

fn pair(key: &str, value: &str) -> (r: (String, String))
    ensures
        r.0@ == key@,
        r.1@ == value@,
{
    (String::from_str(key), String::from_str(value))
}

/// The credentials form of the login step.
pub open spec fn login_form_of(token: Seq<char>, username: Seq<char>, password: Seq<char>) -> Pairs {
    seq![
        ("__RequestVerificationToken"@, token),
        ("ReturnUrl"@, ""@),
        ("Username"@, username),
        ("Password"@, password),
    ]
}

/// Builds the credentials form of the login step.
pub fn login_form(token: &str, username: &str, password: &str) -> (r: Vec<(String, String)>)
    ensures
        pairs_view(r@) == login_form_of(token@, username@, password@),
{
    let mut form: Vec<(String, String)> = Vec::new();
    form.push(pair("__RequestVerificationToken", token));
    form.push(pair("ReturnUrl", ""));
    form.push(pair("Username", username));
    form.push(pair("Password", password));
    assert(pairs_view(form@) =~= login_form_of(token@, username@, password@));
    form
}

/// The `prompt` value: `none` for silent renewal.
pub open spec fn prompt_of(prompt: bool) -> Seq<char> {
    if prompt {
        "prompt"@
    } else {
        "none"@
    }
}

/// The query of a PKCE authorization request.
pub open spec fn authorization_query_of(
    c: Config,
    challenge: Seq<char>,
    state: Seq<char>,
    prompt: bool,
) -> Pairs {
    seq![
        ("client_id"@, c.client_id@),
        ("audience"@, c.audience@),
        ("scope"@, c.scope@),
        ("response_type"@, "code"@),
        ("code_challenge_method"@, "S256"@),
        ("code_challenge"@, challenge),
        ("prompt"@, prompt_of(prompt)),
        ("state"@, state),
        ("redirect_uri"@, c.redirect_uri@),
        ("ui_locales"@, c.ui_locales@),
    ]
}

/// Builds the query of a PKCE authorization request.
pub fn authorization_query(config: &Config, challenge: &str, state: &str, prompt: bool) -> (r: Vec<
    (String, String),
>)
    ensures
        pairs_view(r@) == authorization_query_of(*config, challenge@, state@, prompt),
{
    let mut query: Vec<(String, String)> = Vec::new();
    query.push(pair("client_id", config.client_id.as_str()));
    query.push(pair("audience", config.audience.as_str()));
    query.push(pair("scope", config.scope.as_str()));
    query.push(pair("response_type", "code"));
    query.push(pair("code_challenge_method", "S256"));
    query.push(pair("code_challenge", challenge));
    query.push(pair("prompt", if prompt { "prompt" } else { "none" }));
    query.push(pair("state", state));
    query.push(pair("redirect_uri", config.redirect_uri.as_str()));
    query.push(pair("ui_locales", config.ui_locales.as_str()));
    assert(pairs_view(query@) =~= authorization_query_of(*config, challenge@, state@, prompt));
    query
}

/// The form that trades an authorization code and its verifier for a token.
pub open spec fn code_form_of(c: Config, code: Seq<char>, verifier: Seq<char>) -> Pairs {
    seq![
        ("grant_type"@, "authorization_code"@),
        ("client_id"@, c.client_id@),
        ("code"@, code),
        ("code_verifier"@, verifier),
        ("redirect_uri"@, c.redirect_uri@),
    ]
}

/// Builds the form that trades an authorization code for a token.
pub fn code_form(config: &Config, code: &str, verifier: &str) -> (r: Vec<(String, String)>)
    ensures
        pairs_view(r@) == code_form_of(*config, code@, verifier@),
{
    let mut form: Vec<(String, String)> = Vec::new();
    form.push(pair("grant_type", "authorization_code"));
    form.push(pair("client_id", config.client_id.as_str()));
    form.push(pair("code", code));
    form.push(pair("code_verifier", verifier));
    form.push(pair("redirect_uri", config.redirect_uri.as_str()));
    assert(pairs_view(form@) =~= code_form_of(*config, code@, verifier@));
    form
}

/// The form of a lightweight refresh with an id token.
pub open spec fn refresh_form_of(id_token: Seq<char>) -> Pairs {
    seq![("grant_type"@, "id_token"@), ("id_token"@, id_token)]
}

/// Builds the form of a lightweight refresh with an id token.
pub fn refresh_form(id_token: &str) -> (r: Vec<(String, String)>)
    ensures
        pairs_view(r@) == refresh_form_of(id_token@),
{
    let mut form: Vec<(String, String)> = Vec::new();
    form.push(pair("grant_type", "id_token"));
    form.push(pair("id_token", id_token));
    assert(pairs_view(form@) =~= refresh_form_of(id_token@));
    form
}

/// The address of the verification script at `path` on the provider's host.
pub open spec fn verification_url_of(c: Config, path: Seq<char>) -> Seq<char> {
    c.base_url@ + "/"@ + path
}

/// Builds the address of the verification script at `path`.
pub fn verification_url(config: &Config, path: &str) -> (r: String)
    ensures
        r@ == verification_url_of(*config, path@),
{
    let mut url = config.base_url.clone();
    url.append("/");
    url.append(path);
    url
}

} // verus!
