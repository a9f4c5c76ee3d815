//! The sign-in protocol as two state machines that decide; the caller sends
//! each request they hand out and feeds back the reply.
//!
//! `LoginFlow` fetches the login page, passes the bot check and posts the
//! credentials. `TokenFlow` keeps a token valid: it uses a fresh cached token
//! as it is, tries a lightweight refresh of a stale one, and otherwise, or when
//! that refresh fails, runs the whole sign-in with the stored credentials and
//! then authorizes and exchanges the code.
use vstd::prelude::*;

use crate::config::Config;
use crate::error::Error;
use crate::json::{json_int_member, json_text_member, text_view};
use crate::pattern::regex_group;
use crate::pkce::{code_challenge_of, is_hex_text, AuthorizationParams, PKCE_TEXT_LENGTH};
use crate::redirect::{
    authorization_code_from_redirect, authorization_matches, check_login_redirect, flagged_as_bot,
    last_value, pairs_view, redirect_pairs,
};
use crate::request::{
    authorization_query, authorization_query_of, code_form, code_form_of, login_form,
    login_form_of, refresh_form, refresh_form_of, verification_url, verification_url_of, Reply,
    Request,
};
use crate::token::{decode_token_reply, expiry_fits, now_millis, token_reply_matches, Token};
use crate::verification::{
    check_verification_reply, error_member_fits, fresh_sensor_payload, scrape_verification_info,
    sensor_payload_of, verification_matches, SENSOR_PREFIX_LENGTH, STATIC_PATH_PATTERN,
    VERIFICATION_TOKEN_PATTERN,
};

verus! {

/// The phase of a session: `New` before sign-in, `LoggedIn` after.
pub trait AuthState {}

/// A session that has not signed in.
pub struct New;

impl AuthState for New {}

/// A session that has signed in; only a finished `LoginFlow` hands one out.
pub struct LoggedIn;

impl AuthState for LoggedIn {}

/// Where a sign-in stands: what the next reply answers.
#[derive(Clone, Debug)]
pub enum LoginStage {
    /// The login page was requested.
    FetchPage,
    /// The sensor data was posted; `token` came from the login page.
    Verify { token: String },
    /// The credentials were posted.
    SignIn,
}

/// A sign-in under way.
#[derive(Clone, Debug)]
pub struct LoginFlow {
    pub stage: LoginStage,
    pub username: String,
    pub password: String,
}

/// What a sign-in does next.
pub enum LoginStep {
    /// Send the request and hand its reply to the flow.
    Send(LoginFlow, Request),
    /// The session is signed in.
    LoggedIn(LoggedIn),
    /// The sign-in failed; nothing more is sent.
    Failed(Error),
}

/// The step that a sign-in at `flow` takes on `reply`.
pub open spec fn login_step_matches(flow: LoginFlow, c: Config, reply: Reply, step: LoginStep) -> bool {
    match flow.stage {
        LoginStage::FetchPage => match regex_group(VERIFICATION_TOKEN_PATTERN@, reply.body@, 1) {
            None => step == LoginStep::Failed(Error::NoRequestValidationToken),
            Some(token) => match regex_group(STATIC_PATH_PATTERN@, reply.body@, 1) {
                None => step == LoginStep::Failed(Error::NoStaticUrl),
                Some(path) => match step {
                    LoginStep::Send(next, Request::PostBody { url, body }) => match next.stage {
                        LoginStage::Verify { token: t } => t@ == token && next.username
                            == flow.username && next.password == flow.password && url@
                            == verification_url_of(c, path) && exists|prefix: Seq<char>|
                            is_hex_text(prefix, SENSOR_PREFIX_LENGTH as nat) && body@
                                == sensor_payload_of(prefix, c.sensor_data@),
                        _ => false,
                    },
                    _ => false,
                },
            },
        },
        LoginStage::Verify { token } => match crate::json::json_bool_member(
            reply.body@,
            "success"@,
        ) {
            Some(true) if error_member_fits(reply.body@) => match step {
                LoginStep::Send(next, Request::PostForm { url, form }) => next.stage is SignIn
                    && next.username == flow.username && next.password == flow.password && url@
                    == c.login_url@ && pairs_view(form@) == login_form_of(
                    token@,
                    flow.username@,
                    flow.password@,
                ),
                _ => false,
            },
            _ => match step {
                LoginStep::Failed(e) => verification_matches(reply.body@, Err(e)),
                _ => false,
            },
        },
        LoginStage::SignIn => if flagged_as_bot(text_view(reply.location)) {
            step == LoginStep::Failed(Error::Blocked)
        } else {
            step is LoggedIn
        },
    }
}

impl LoginFlow {
    /// Begins a sign-in with the given credentials: the login page is fetched first.
    pub fn start(config: &Config, username: &str, password: &str) -> (r: (LoginFlow, Request))
        ensures
            r.0.stage is FetchPage,
            r.0.username@ == username@,
            r.0.password@ == password@,
            match r.1 {
                Request::Get { url, query } => url@ == config.login_url@ && query@.len() == 0,
                _ => false,
            },
    {
        let flow = LoginFlow {
            stage: LoginStage::FetchPage,
            username: String::from_str(username),
            password: String::from_str(password),
        };
        (flow, Request::Get { url: config.login_url.clone(), query: Vec::new() })
    }

    /// Takes the reply to the last request and decides what comes next.
    pub fn on_reply(self, config: &Config, reply: &Reply) -> (step: LoginStep)
        ensures
            login_step_matches(self, *config, *reply, step),
    {
        let LoginFlow { stage, username, password } = self;
        match stage {
            LoginStage::FetchPage => match scrape_verification_info(reply.body.as_str()) {
                Err(e) => LoginStep::Failed(e),
                Ok(info) => {
                    let url = verification_url(config, info.url.as_str());
                    let body = fresh_sensor_payload(config.sensor_data.as_str());
                    let next = LoginFlow {
                        stage: LoginStage::Verify { token: info.token },
                        username,
                        password,
                    };
                    LoginStep::Send(next, Request::PostBody { url, body })
                },
            },
            LoginStage::Verify { token } => match check_verification_reply(reply.body.as_str()) {
                Err(e) => LoginStep::Failed(e),
                Ok(()) => {
                    let form = login_form(token.as_str(), username.as_str(), password.as_str());
                    let next = LoginFlow { stage: LoginStage::SignIn, username, password };
                    LoginStep::Send(next, Request::PostForm { url: config.login_url.clone(), form })
                },
            },
            LoginStage::SignIn => match check_login_redirect(&reply.location) {
                Err(e) => LoginStep::Failed(e),
                Ok(()) => LoginStep::LoggedIn(LoggedIn),
            },
        }
    }
}

/// Where the minting of a token stands: what the next reply answers.
#[derive(Clone, Debug)]
pub enum TokenStage {
    /// A lightweight refresh with the cached id token was posted.
    Refresh,
    /// A full sign-in with the stored credentials is under way, at `login`.
    SignIn { login: LoginStage },
    /// An authorization request was sent with the challenge of `code_verifier`.
    /// The `state` that the redirect echoes is not compared with the one sent.
    Authorize { code_verifier: String },
    /// The authorization code was posted to the token endpoint.
    Exchange,
}

/// The minting of a token under way. It keeps the credentials for a full
/// sign-in, and whether authorization may prompt the user (`prompt`) or must
/// stay silent.
#[derive(Clone, Debug)]
pub struct TokenFlow {
    pub stage: TokenStage,
    pub username: String,
    pub password: String,
    pub prompt: bool,
}

/// What the minting of a token does next.
pub enum TokenStep {
    /// Send the request and hand its reply to the flow.
    Send(TokenFlow, Request),
    /// A valid token, to be cached and used.
    Minted(Token),
    /// Minting failed; nothing more is sent.
    Failed(Error),
}

/// Whether the token reply `body`, received at `now`, holds a token.
pub open spec fn holds_token(body: Seq<char>, now: i64) -> bool {
    json_text_member(body, "access_token"@) is Some && json_text_member(body, "id_token"@) is Some
        && json_int_member(body, "expires_in"@) is Some && expiry_fits(
        now as int,
        json_int_member(body, "expires_in"@)->0 as int,
    )
}

/// What the token reply `body`, received at `now`, decodes to.
pub open spec fn token_reply_decodes(body: Seq<char>, now: i64, r: Result<Token, Error>) -> bool {
    token_reply_matches(
        now,
        json_text_member(body, "access_token"@),
        json_text_member(body, "id_token"@),
        json_int_member(body, "expires_in"@),
        json_text_member(body, "error"@),
        r,
    )
}

/// The code that an authorization redirect carries: none where it names an error.
pub open spec fn authorized_code(location: Option<Seq<char>>) -> Option<Seq<char>> {
    match redirect_pairs(location) {
        Some(p) => if last_value(p, "error"@) is Some {
            None
        } else {
            last_value(p, "code"@)
        },
        None => None,
    }
}

/// The next flow keeps the credentials `username`, `password` and the choice `prompt`.
pub open spec fn keeps(next: TokenFlow, username: Seq<char>, password: Seq<char>, prompt: bool) -> bool {
    next.username@ == username && next.password@ == password && next.prompt == prompt
}

/// A full sign-in begins: the login page is fetched.
pub open spec fn signs_in(
    c: Config,
    username: Seq<char>,
    password: Seq<char>,
    prompt: bool,
    step: TokenStep,
) -> bool {
    match step {
        TokenStep::Send(next, Request::Get { url, query }) => keeps(next, username, password, prompt)
            && (next.stage matches TokenStage::SignIn { login: LoginStage::FetchPage }) && url@
            == c.login_url@ && query@.len() == 0,
        _ => false,
    }
}

/// A PKCE authorization request with a new verifier and state, silent unless
/// `prompt` is set.
pub open spec fn authorizes(
    c: Config,
    username: Seq<char>,
    password: Seq<char>,
    prompt: bool,
    step: TokenStep,
) -> bool {
    match step {
        TokenStep::Send(next, Request::Get { url, query }) => keeps(next, username, password, prompt)
            && match next.stage {
            TokenStage::Authorize { code_verifier } => url@ == c.authorize_url@ && is_hex_text(
                code_verifier@,
                PKCE_TEXT_LENGTH as nat,
            ) && exists|state: Seq<char>|
                is_hex_text(state, PKCE_TEXT_LENGTH as nat) && pairs_view(query@)
                    == authorization_query_of(c, code_challenge_of(code_verifier@), state, prompt),
            _ => false,
        },
        _ => false,
    }
}

/// The first step for the cached token `cached` at `now`: a fresh token is
/// used as it is, a stale one is refreshed, and without one the full sign-in
/// runs with the credentials `username` and `password`.
pub open spec fn token_start_matches(
    c: Config,
    username: Seq<char>,
    password: Seq<char>,
    prompt: bool,
    cached: Option<Token>,
    now: i64,
    step: TokenStep,
) -> bool {
    match cached {
        Some(t) => if !(t.expires_at < now) {
            step == TokenStep::Minted(t)
        } else {
            match step {
                TokenStep::Send(next, Request::PostForm { url, form }) => keeps(
                    next,
                    username,
                    password,
                    prompt,
                ) && next.stage is Refresh && url@ == c.token_url@ && pairs_view(form@)
                    == refresh_form_of(t.id_token.0@),
                _ => false,
            }
        },
        None => signs_in(c, username, password, prompt, step),
    }
}

/// The sign-in that a flow in the stage `SignIn { login }` runs.
pub open spec fn login_of(flow: TokenFlow, login: LoginStage) -> LoginFlow {
    LoginFlow { stage: login, username: flow.username, password: flow.password }
}

/// The step that minting at `flow` takes on `reply`, received at `now`.
pub open spec fn token_step_matches(
    flow: TokenFlow,
    c: Config,
    reply: Reply,
    now: i64,
    step: TokenStep,
) -> bool {
    match flow.stage {
        TokenStage::Refresh => if reply.success && holds_token(reply.body@, now) {
            match step {
                TokenStep::Minted(t) => token_reply_decodes(reply.body@, now, Ok(t)),
                _ => false,
            }
        } else {
            signs_in(c, flow.username@, flow.password@, flow.prompt, step)
        },
        TokenStage::SignIn { login } => if login is SignIn && !flagged_as_bot(
            text_view(reply.location),
        ) {
            authorizes(c, flow.username@, flow.password@, flow.prompt, step)
        } else {
            match step {
                TokenStep::Send(next, req) => match next.stage {
                    TokenStage::SignIn { login: next_login } => next.prompt == flow.prompt
                        && login_step_matches(
                        login_of(flow, login),
                        c,
                        reply,
                        LoginStep::Send(login_of(next, next_login), req),
                    ),
                    _ => false,
                },
                TokenStep::Failed(e) => login_step_matches(
                    login_of(flow, login),
                    c,
                    reply,
                    LoginStep::Failed(e),
                ),
                TokenStep::Minted(_) => false,
            }
        },
        TokenStage::Authorize { code_verifier } => match authorized_code(text_view(reply.location)) {
            Some(code) => match step {
                TokenStep::Send(next, Request::PostForm { url, form }) => keeps(
                    next,
                    flow.username@,
                    flow.password@,
                    flow.prompt,
                ) && next.stage is Exchange && url@ == c.token_url@ && pairs_view(form@)
                    == code_form_of(c, code, code_verifier@),
                _ => false,
            },
            None => match step {
                TokenStep::Failed(e) => authorization_matches(
                    text_view(reply.location),
                    code_verifier@,
                    Err(e),
                ),
                _ => false,
            },
        },
        TokenStage::Exchange => match step {
            TokenStep::Minted(t) => token_reply_decodes(reply.body@, now, Ok(t)),
            TokenStep::Failed(e) => token_reply_decodes(reply.body@, now, Err(e)),
            _ => false,
        },
    }
}

impl TokenFlow {
    fn sign_in(config: &Config, username: String, password: String, prompt: bool) -> (step:
        TokenStep)
        ensures
            signs_in(*config, username@, password@, prompt, step),
    {
        let next = TokenFlow {
            stage: TokenStage::SignIn { login: LoginStage::FetchPage },
            username,
            password,
            prompt,
        };
        TokenStep::Send(next, Request::Get { url: config.login_url.clone(), query: Vec::new() })
    }

    fn authorize(config: &Config, username: String, password: String, prompt: bool) -> (step:
        TokenStep)
        ensures
            authorizes(*config, username@, password@, prompt, step),
    {
        let params = AuthorizationParams::new();
        let query = authorization_query(
            config,
            params.code_challenge.as_str(),
            params.state.as_str(),
            prompt,
        );
        let next = TokenFlow {
            stage: TokenStage::Authorize { code_verifier: params.code_verifier },
            username,
            password,
            prompt,
        };
        TokenStep::Send(next, Request::Get { url: config.authorize_url.clone(), query })
    }

    /// Decides, at `now`, what the cached token `cached` calls for, on a
    /// session signed in with `username` and `password`.
    pub fn start(
        config: &Config,
        username: &str,
        password: &str,
        prompt: bool,
        cached: Option<Token>,
        now: i64,
    ) -> (step: TokenStep)
        ensures
            token_start_matches(*config, username@, password@, prompt, cached, now, step),
    {
        let username = String::from_str(username);
        let password = String::from_str(password);
        match cached {
            Some(t) => {
                if !t.need_refresh_at(now) {
                    TokenStep::Minted(t)
                } else {
                    let form = refresh_form(t.id_token.0.as_str());
                    TokenStep::Send(
                        TokenFlow { stage: TokenStage::Refresh, username, password, prompt },
                        Request::PostForm { url: config.token_url.clone(), form },
                    )
                }
            },
            None => Self::sign_in(config, username, password, prompt),
        }
    }

    /// Takes the reply to the last request, received at `now`, and decides what
    /// comes next.
    pub fn on_reply(self, config: &Config, reply: &Reply, now: i64) -> (step: TokenStep)
        ensures
            token_step_matches(self, *config, *reply, now, step),
    {
        let TokenFlow { stage, username, password, prompt } = self;
        match stage {
            TokenStage::Refresh => {
                if reply.success {
                    match decode_token_reply(reply.body.as_str(), now) {
                        Ok(t) => TokenStep::Minted(t),
                        Err(_) => Self::sign_in(config, username, password, prompt),
                    }
                } else {
                    Self::sign_in(config, username, password, prompt)
                }
            },
            TokenStage::SignIn { login } => {
                let flow = LoginFlow {
                    stage: login,
                    username: username.clone(),
                    password: password.clone(),
                };
                match flow.on_reply(config, reply) {
                    LoginStep::Send(next, request) => TokenStep::Send(
                        TokenFlow {
                            stage: TokenStage::SignIn { login: next.stage },
                            username: next.username,
                            password: next.password,
                            prompt,
                        },
                        request,
                    ),
                    LoginStep::LoggedIn(_) => Self::authorize(config, username, password, prompt),
                    LoginStep::Failed(e) => TokenStep::Failed(e),
                }
            },
            TokenStage::Authorize { code_verifier } => {
                match authorization_code_from_redirect(&reply.location, code_verifier) {
                    Err(e) => TokenStep::Failed(e),
                    Ok(code) => {
                        let form = code_form(config, code.code.as_str(), code.code_verifier.as_str());
                        TokenStep::Send(
                            TokenFlow { stage: TokenStage::Exchange, username, password, prompt },
                            Request::PostForm { url: config.token_url.clone(), form },
                        )
                    },
                }
            },
            TokenStage::Exchange => match decode_token_reply(reply.body.as_str(), now) {
                Ok(t) => TokenStep::Minted(t),
                Err(e) => TokenStep::Failed(e),
            },
        }
    }

    /// Decides, by the clock's current reading, what the cached token calls for.
    pub fn begin(
        config: &Config,
        username: &str,
        password: &str,
        prompt: bool,
        cached: Option<Token>,
    ) -> (step: TokenStep)
        ensures
            exists|now: i64|
                token_start_matches(*config, username@, password@, prompt, cached, now, step),
    {
        let now = now_millis();
        Self::start(config, username, password, prompt, cached, now)
    }

    /// Takes the reply to the last request, received now, and decides what comes next.
    pub fn advance(self, config: &Config, reply: &Reply) -> (step: TokenStep)
        ensures
            exists|now: i64| token_step_matches(self, *config, *reply, now, step),
    {
        let now = now_millis();
        self.on_reply(config, reply, now)
    }
}

/// A login page without the verification token pattern ends the sign-in with
/// `NoRequestValidationToken`, and no further request is sent.
pub proof fn lemma_missing_token_ends_sign_in(flow: LoginFlow, c: Config, reply: Reply, step: LoginStep)
    requires
        flow.stage is FetchPage,
        regex_group(VERIFICATION_TOKEN_PATTERN@, reply.body@, 1) is None,
        login_step_matches(flow, c, reply, step),
    ensures
        step == LoginStep::Failed(Error::NoRequestValidationToken),
        !(step is Send),
{
}

/// The reply to the credentials fails the sign-in with `Blocked` where its
/// redirect says that the session was taken for a bot, and with no other error.
pub proof fn lemma_sign_in_fails_only_when_blocked(
    flow: LoginFlow,
    c: Config,
    reply: Reply,
    step: LoginStep,
)
    requires
        flow.stage is SignIn,
        login_step_matches(flow, c, reply, step),
    ensures
        flagged_as_bot(text_view(reply.location)) ==> step == LoginStep::Failed(Error::Blocked),
        step matches LoginStep::Failed(e) ==> e is Blocked,
{
}

/// A lightweight refresh that fails, by its status or by its body, is never
/// reported: minting falls back to a full sign-in with the stored credentials.
pub proof fn lemma_failed_refresh_falls_back(
    flow: TokenFlow,
    c: Config,
    reply: Reply,
    now: i64,
    step: TokenStep,
)
    requires
        flow.stage is Refresh,
        token_step_matches(flow, c, reply, now, step),
    ensures
        !(step is Failed),
        !(reply.success && holds_token(reply.body@, now)) ==> signs_in(
            c,
            flow.username@,
            flow.password@,
            flow.prompt,
            step,
        ),
{
}

} // verus!
