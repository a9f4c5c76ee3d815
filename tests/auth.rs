use postnl::config::{AUTHORIZE_URL, LOGIN_URL, TOKEN_URL};
use postnl::flow::{LoginStage, TokenStage};
use postnl::pkce::{code_challenge, hex_random, to_url_safe, AuthorizationParams};
use postnl::redirect::{authorization_code_from_redirect, check_login_redirect, find_first, find_last};
use postnl::token::{decode_token_reply, expiry_instant, token_from_reply};
use postnl::verification::{
    check_verification_reply, fresh_sensor_payload, scrape_verification_info, sensor_payload,
};
use postnl::{Config, Error, LoginFlow, LoginStep, Reply, Request, Token, TokenFlow, TokenStep};

const LOGIN_PAGE: &str = "<form>\n<input name=\"__RequestVerificationToken\" type=\"hidden\" value=\"T1\" />\n</form>\n<script src=\"/static/abc\"></script>";

fn reply(success: bool, location: Option<&str>, body: &str) -> Reply {
    Reply { success, location: location.map(|l| l.to_string()), body: body.to_string() }
}

fn pair(k: &str, v: &str) -> (String, String) {
    (k.to_string(), v.to_string())
}

fn now() -> i64 {
    chrono::Utc::now().timestamp_millis()
}

fn is_hex(s: &str, n: usize) -> bool {
    s.len() == n && s.chars().all(|c| c.is_ascii_digit() || ('a'..='f').contains(&c))
}

#[test]
fn scrape_finds_token_and_static_path() {
    let info = scrape_verification_info(LOGIN_PAGE).unwrap();
    assert_eq!(info.token, "T1");
    assert_eq!(info.url, "/static/abc");
}

#[test]
fn scrape_without_token_fails() {
    let page = "<html><script src=\"/static/abc\"></script></html>";
    assert_eq!(scrape_verification_info(page), Err(Error::NoRequestValidationToken));
    assert_eq!(scrape_verification_info(""), Err(Error::NoRequestValidationToken));
}

#[test]
fn scrape_without_static_path_fails() {
    let page = "<input name=\"__RequestVerificationToken\" value=\"T1\" /><script src=\"/js/app.js\">";
    assert_eq!(scrape_verification_info(page), Err(Error::NoStaticUrl));
}

#[test]
fn login_page_without_token_ends_sign_in_without_request() {
    let config = Config::postnl("S".to_string());
    let (flow, _) = LoginFlow::start(&config, "user", "secret");
    match flow.on_reply(&config, &reply(true, None, "<html>no form here</html>")) {
        LoginStep::Failed(e) => assert_eq!(e, Error::NoRequestValidationToken),
        _ => panic!("expected the sign-in to fail"),
    }
}

#[test]
fn code_challenge_matches_known_vector() {
    // SHA-256 of the empty string is 47DEQpj8HBSa+/TImW+5JCeuQeRkm5NMpJWZG3hSuFU= in standard Base64.
    assert_eq!(code_challenge(""), "47DEQpj8HBSa-_TImW-5JCeuQeRkm5NMpJWZG3hSuFU");
    assert_eq!(
        code_challenge("dBjftJeZ4CVP-mJ92K27uhbUJU1p1r_wW1gFWFOEjXk"),
        "ngF5GsXcbwljx6u133FFr3Xht9xooA_DuaX_3QwODtc"
    );
}

#[test]
fn code_challenge_is_deterministic_and_url_safe() {
    for verifier in ["", "a", "0123456789abcdef", "~~~~????>>>>"] {
        let c = code_challenge(verifier);
        assert_eq!(c, code_challenge(verifier));
        assert_eq!(c.len(), 43);
        assert!(c.chars().all(|ch| ch.is_ascii_alphanumeric() || ch == '-' || ch == '_'));
    }
}

#[test]
fn url_safe_rewrite() {
    assert_eq!(to_url_safe("a+b/c=="), "a-b_c");
    assert_eq!(to_url_safe(""), "");
    assert_eq!(to_url_safe("++//"), "--__");
}

#[test]
fn authorization_params_are_fresh_hex() {
    let a = AuthorizationParams::new();
    let b = AuthorizationParams::new();
    assert!(is_hex(&a.code_verifier, 64));
    assert!(is_hex(&a.state, 64));
    assert_eq!(a.code_challenge, code_challenge(&a.code_verifier));
    assert_ne!(a.code_verifier, b.code_verifier);
}

#[test]
fn hex_random_lengths() {
    assert_eq!(hex_random(0), "");
    assert!(is_hex(&hex_random(22), 22));
}

#[test]
fn token_expiry_takes_margin_off() {
    let t0 = 1_000_000;
    let t = token_from_reply(t0, Some("a".into()), Some("b".into()), Some(100), None).unwrap();
    assert_eq!(t.expires_at, t0 + 85_000);
    assert!(!t.need_refresh_at(t0));
    assert!(!t.need_refresh_at(t.expires_at));
    assert!(t.need_refresh_at(t.expires_at + 1));
}

#[test]
fn freshly_minted_token_needs_no_refresh() {
    let t = decode_token_reply("{\"access_token\":\"a\",\"id_token\":\"b\",\"expires_in\":100}", now())
        .unwrap();
    assert!(!t.need_refresh());
    let stale = Token { expires_at: now() - 1, ..t };
    assert!(stale.need_refresh());
}

#[test]
fn expiry_out_of_range() {
    assert_eq!(expiry_instant(0, 100), Some(85_000));
    assert_eq!(expiry_instant(0, 0), Some(-15_000));
    assert_eq!(expiry_instant(i64::MAX, i64::MAX), None);
    assert!(matches!(
        token_from_reply(0, Some("a".into()), Some("b".into()), Some(i64::MAX), None),
        Err(Error::JSONError(_))
    ));
}

#[test]
fn token_reply_success_shape() {
    let t0 = 5_000;
    let t = decode_token_reply("{\"access_token\":\"a\",\"id_token\":\"b\",\"expires_in\":60}", t0)
        .unwrap();
    assert_eq!(t.access.0, "a");
    assert_eq!(t.id_token.0, "b");
    assert_eq!(t.expires_at, t0 + 45_000);
}

#[test]
fn token_reply_error_shape() {
    assert_eq!(
        decode_token_reply("{\"error\":\"invalid_grant\"}", 0),
        Err(Error::FailedToken("invalid_grant".to_string()))
    );
}

#[test]
fn token_reply_success_shape_wins() {
    let body = "{\"access_token\":\"a\",\"id_token\":\"b\",\"expires_in\":60,\"error\":\"x\"}";
    assert!(decode_token_reply(body, 0).is_ok());
    let partial = "{\"access_token\":\"a\",\"expires_in\":60,\"error\":\"x\"}";
    assert_eq!(decode_token_reply(partial, 0), Err(Error::FailedToken("x".to_string())));
}

#[test]
fn token_reply_malformed() {
    assert!(matches!(decode_token_reply("not json", 0), Err(Error::JSONError(_))));
    assert!(matches!(decode_token_reply("{\"expires_in\":\"60\"}", 0), Err(Error::JSONError(_))));
    assert!(matches!(
        decode_token_reply("{\"access_token\":\"a\",\"id_token\":\"b\",\"expires_in\":1.5}", 0),
        Err(Error::JSONError(_))
    ));
}

#[test]
fn bot_detected_redirect_is_blocked() {
    let loc = Some("https://jouw.postnl.nl/identity/Account/Login?botdetected=true".to_string());
    assert_eq!(check_login_redirect(&loc), Err(Error::Blocked));
    let loc = Some("https://jouw.postnl.nl/?a=1&botdetected=true&botdetected=false".to_string());
    assert_eq!(check_login_redirect(&loc), Err(Error::Blocked));
}

#[test]
fn redirect_without_bot_flag_passes() {
    for loc in [
        None,
        Some("https://jouw.postnl.nl/".to_string()),
        Some("https://jouw.postnl.nl/?botdetected=false".to_string()),
        Some("https://jouw.postnl.nl/?botdetected=TRUE".to_string()),
        Some("/relative?botdetected=true".to_string()),
    ] {
        assert_eq!(check_login_redirect(&loc), Ok(()));
    }
}

#[test]
fn sign_in_reply_flagged_as_bot_fails_blocked() {
    let config = Config::postnl("S".to_string());
    let flow = LoginFlow { stage: LoginStage::SignIn, username: "u".into(), password: "p".into() };
    match flow.on_reply(&config, &reply(false, Some("https://jouw.postnl.nl/?botdetected=true"), "")) {
        LoginStep::Failed(e) => assert_eq!(e, Error::Blocked),
        _ => panic!("expected Blocked"),
    }
}

#[test]
fn query_lookups_pick_first_and_last() {
    let pairs = vec![pair("a", "1"), pair("b", "2"), pair("a", "3")];
    assert_eq!(find_first(&pairs, "a"), Some("1".to_string()));
    assert_eq!(find_last(&pairs, "a"), Some("3".to_string()));
    assert_eq!(find_first(&pairs, "c"), None);
    assert_eq!(find_last(&vec![], "a"), None);
}

#[test]
fn authorization_redirect_outcomes() {
    let v = || "verifier".to_string();
    let ok = authorization_code_from_redirect(
        &Some("https://jouw.postnl.nl/silent-renew.html?code=XYZ&state=s".to_string()),
        v(),
    )
    .unwrap();
    assert_eq!(ok.code, "XYZ");
    assert_eq!(ok.code_verifier, "verifier");
    let decoded = authorization_code_from_redirect(
        &Some("https://h/?code=a%20b+c".to_string()),
        v(),
    )
    .unwrap();
    assert_eq!(decoded.code, "a b c");
    assert_eq!(
        authorization_code_from_redirect(&Some("https://h/?error=login_required&code=1".into()), v()),
        Err(Error::AuthorizationFailure("login_required".to_string()))
    );
    assert_eq!(
        authorization_code_from_redirect(&Some("https://h/?state=s".into()), v()),
        Err(Error::AuthorizationFailure("No code provided".to_string()))
    );
    assert_eq!(
        authorization_code_from_redirect(&None, v()),
        Err(Error::AuthorizationFailure("No or invalid redirect url".to_string()))
    );
    assert_eq!(
        authorization_code_from_redirect(&Some("not a url".into()), v()),
        Err(Error::AuthorizationFailure("No or invalid redirect url".to_string()))
    );
}

#[test]
fn verification_reply_outcomes() {
    assert_eq!(check_verification_reply("{\"success\":true,\"error\":null}"), Ok(()));
    assert_eq!(
        check_verification_reply("{\"success\":false,\"error\":\"bad sensor\"}"),
        Err(Error::VerificationFailure("bad sensor".to_string()))
    );
    assert_eq!(
        check_verification_reply("{\"success\":false}"),
        Err(Error::VerificationFailure("no error provided".to_string()))
    );
    assert!(matches!(check_verification_reply("<html>"), Err(Error::JSONError(_))));
    assert!(matches!(
        check_verification_reply("{\"success\":true,\"error\":5}"),
        Err(Error::JSONError(_))
    ));
    assert!(matches!(
        check_verification_reply("{\"success\":false,\"error\":[]}"),
        Err(Error::JSONError(_))
    ));
    assert!(matches!(check_verification_reply("{\"error\":\"x\"}"), Err(Error::JSONError(_))));
}

#[test]
fn sensor_payload_shape() {
    assert_eq!(sensor_payload("0a", "BLOB"), "{\"sensor_data\":\"'0a'BLOB\"}");
    let p = fresh_sensor_payload("BLOB");
    assert!(p.starts_with("{\"sensor_data\":\"'"));
    assert!(p.ends_with("'BLOB\"}"));
    assert!(is_hex(&p[17..39], 22));
}

#[test]
fn blocked_is_the_terminal_error() {
    assert!(Error::Blocked.is_terminal());
    assert!(!Error::NetworkError("timeout".into()).is_terminal());
}

fn flow(stage: TokenStage) -> TokenFlow {
    TokenFlow { stage, username: "user".into(), password: "secret".into(), prompt: false }
}

/// Feeds the replies of a full sign-in to a token flow that has just asked for
/// the login page, checking each request, and returns the authorization it
/// ends in with its verifier.
fn sign_in(config: &Config, flow: TokenFlow) -> (TokenFlow, String) {
    let flow = match flow.on_reply(config, &reply(true, None, LOGIN_PAGE), 0) {
        TokenStep::Send(f, Request::PostBody { url, body }) => {
            assert_eq!(url, "https://jouw.postnl.nl//static/abc");
            assert!(body.ends_with("'SENSOR\"}"));
            f
        }
        _ => panic!("expected the sensor data to be posted"),
    };
    let flow = match flow.on_reply(config, &reply(true, None, "{\"success\":true}"), 0) {
        TokenStep::Send(f, Request::PostForm { url, form }) => {
            assert_eq!(url, LOGIN_URL);
            assert_eq!(
                form,
                vec![
                    pair("__RequestVerificationToken", "T1"),
                    pair("ReturnUrl", ""),
                    pair("Username", "user"),
                    pair("Password", "secret"),
                ]
            );
            f
        }
        _ => panic!("expected the credentials to be posted"),
    };
    match flow.on_reply(config, &reply(false, Some("https://jouw.postnl.nl/account"), ""), 0) {
        TokenStep::Send(f, Request::Get { url, query }) => {
            assert_eq!(url, AUTHORIZE_URL);
            let verifier = match &f.stage {
                TokenStage::Authorize { code_verifier } => code_verifier.clone(),
                _ => panic!("expected an authorization"),
            };
            assert!(query.contains(&pair("code_challenge", &code_challenge(&verifier))));
            assert!(query.contains(&pair("prompt", "none")));
            assert!(query.contains(&pair("response_type", "code")));
            (f, verifier)
        }
        _ => panic!("expected an authorization request"),
    }
}

#[test]
fn sign_in_flow_alone() {
    let config = Config::postnl("SENSOR".to_string());
    let (flow, request) = LoginFlow::start(&config, "user", "secret");
    match request {
        Request::Get { url, query } => {
            assert_eq!(url, LOGIN_URL);
            assert!(query.is_empty());
        }
        _ => panic!("expected the login page to be fetched"),
    }
    let flow = match flow.on_reply(&config, &reply(true, None, LOGIN_PAGE)) {
        LoginStep::Send(f, Request::PostBody { .. }) => f,
        _ => panic!("expected the sensor data to be posted"),
    };
    let flow = match flow.on_reply(&config, &reply(true, None, "{\"success\":true}")) {
        LoginStep::Send(f, Request::PostForm { .. }) => f,
        _ => panic!("expected the credentials to be posted"),
    };
    match flow.on_reply(&config, &reply(false, Some("https://jouw.postnl.nl/account"), "")) {
        LoginStep::LoggedIn(_) => {}
        _ => panic!("expected to be signed in"),
    }
}

#[test]
fn end_to_end_sign_in_and_mint() {
    let config = Config::postnl("SENSOR".to_string());
    let flow = match TokenFlow::begin(&config, "user", "secret", false, None) {
        TokenStep::Send(f, Request::Get { url, query }) => {
            assert_eq!(url, LOGIN_URL);
            assert!(query.is_empty());
            f
        }
        _ => panic!("expected the login page to be fetched"),
    };
    let (flow, verifier) = sign_in(&config, flow);
    let location = "https://jouw.postnl.nl/silent-renew.html?code=XYZ&state=abc";
    let flow = match flow.advance(&config, &reply(false, Some(location), "")) {
        TokenStep::Send(f, Request::PostForm { url, form }) => {
            assert_eq!(url, TOKEN_URL);
            assert!(form.contains(&pair("code", "XYZ")));
            assert!(form.contains(&pair("code_verifier", &verifier)));
            assert!(form.contains(&pair("grant_type", "authorization_code")));
            f
        }
        _ => panic!("expected the code exchange"),
    };
    let body = "{\"access_token\":\"ACCESS\",\"id_token\":\"ID\",\"expires_in\":3600}";
    match flow.advance(&config, &reply(true, None, body)) {
        TokenStep::Minted(t) => {
            assert_eq!(t.access.0, "ACCESS");
            assert!(!t.need_refresh());
        }
        _ => panic!("expected a token"),
    }
}

#[test]
fn fresh_cached_token_is_used_as_is() {
    let t = Token {
        access: postnl::AccessToken("A".into()),
        id_token: postnl::RefreshToken("I".into()),
        expires_at: 10_000,
    };
    match TokenFlow::start(&Config::postnl(String::new()), "u", "p", false, Some(t.clone()), 10_000) {
        TokenStep::Minted(u) => assert_eq!(u, t),
        _ => panic!("expected the cached token"),
    }
}

#[test]
fn failed_refresh_falls_back_to_full_login() {
    let config = Config::postnl("SENSOR".to_string());
    let stale = Token {
        access: postnl::AccessToken("OLD".into()),
        id_token: postnl::RefreshToken("IDT".into()),
        expires_at: 1_000,
    };
    let flow = match TokenFlow::start(&config, "user", "secret", false, Some(stale), 2_000) {
        TokenStep::Send(f, Request::PostForm { url, form }) => {
            assert_eq!(url, TOKEN_URL);
            assert_eq!(form, vec![pair("grant_type", "id_token"), pair("id_token", "IDT")]);
            f
        }
        _ => panic!("expected a refresh"),
    };
    let flow = match flow.on_reply(&config, &reply(false, None, "{\"error\":\"invalid_grant\"}"), 2_000) {
        TokenStep::Send(f, Request::Get { url, query }) => {
            assert_eq!(url, LOGIN_URL);
            assert!(query.is_empty());
            f
        }
        TokenStep::Failed(e) => panic!("the failed refresh surfaced: {:?}", e),
        _ => panic!("expected a full sign-in"),
    };
    let (flow, _) = sign_in(&config, flow);
    let flow = match flow.on_reply(&config, &reply(false, Some("https://h/?code=C2"), ""), 2_000) {
        TokenStep::Send(f, Request::PostForm { url, .. }) => {
            assert_eq!(url, TOKEN_URL);
            f
        }
        _ => panic!("expected the code exchange"),
    };
    let body = "{\"access_token\":\"NEW\",\"id_token\":\"ID2\",\"expires_in\":600}";
    match flow.on_reply(&config, &reply(true, None, body), 2_000) {
        TokenStep::Minted(t) => {
            assert_eq!(t.access.0, "NEW");
            assert_eq!(t.expires_at, 2_000 + 585_000);
        }
        _ => panic!("expected a token"),
    }
}

#[test]
fn refresh_with_undecodable_body_falls_back_to_sign_in() {
    let config = Config::postnl(String::new());
    match flow(TokenStage::Refresh).on_reply(&config, &reply(true, None, "<html>"), 0) {
        TokenStep::Send(f, Request::Get { url, .. }) => {
            assert_eq!(url, LOGIN_URL);
            assert!(matches!(f.stage, TokenStage::SignIn { login: LoginStage::FetchPage }));
            assert_eq!(f.username, "user");
        }
        _ => panic!("expected a full sign-in"),
    }
}

#[test]
fn sign_in_failure_during_minting_is_reported() {
    let config = Config::postnl(String::new());
    let f = flow(TokenStage::SignIn { login: LoginStage::SignIn });
    match f.on_reply(&config, &reply(false, Some("https://h/?botdetected=true"), ""), 0) {
        TokenStep::Failed(e) => assert_eq!(e, Error::Blocked),
        _ => panic!("expected Blocked"),
    }
}

#[test]
fn interactive_prompt_is_requested() {
    let config = Config::postnl(String::new());
    let f = TokenFlow {
        stage: TokenStage::SignIn { login: LoginStage::SignIn },
        username: "u".into(),
        password: "p".into(),
        prompt: true,
    };
    match f.on_reply(&config, &reply(false, Some("https://h/"), ""), 0) {
        TokenStep::Send(_, Request::Get { url, query }) => {
            assert_eq!(url, AUTHORIZE_URL);
            assert!(query.contains(&pair("prompt", "prompt")));
        }
        _ => panic!("expected an authorization"),
    }
}

#[test]
fn successful_refresh_mints_directly() {
    let config = Config::postnl(String::new());
    let body = "{\"access_token\":\"R\",\"id_token\":\"I\",\"expires_in\":100}";
    match flow(TokenStage::Refresh).on_reply(&config, &reply(true, None, body), 0) {
        TokenStep::Minted(t) => assert_eq!(t.expires_at, 85_000),
        _ => panic!("expected a token"),
    }
}

#[test]
fn failed_exchange_reports_token_error() {
    let config = Config::postnl(String::new());
    match flow(TokenStage::Exchange).on_reply(&config, &reply(false, None, "{\"error\":\"invalid_grant\"}"), 0) {
        TokenStep::Failed(e) => assert_eq!(e, Error::FailedToken("invalid_grant".into())),
        _ => panic!("expected the error"),
    }
}

#[test]
fn authorization_error_reports_failure() {
    let config = Config::postnl(String::new());
    let f = flow(TokenStage::Authorize { code_verifier: "v".into() });
    match f.on_reply(&config, &reply(false, Some("https://h/?error=consent_required"), ""), 0) {
        TokenStep::Failed(e) => {
            assert_eq!(e, Error::AuthorizationFailure("consent_required".into()))
        }
        _ => panic!("expected the error"),
    }
}

#[test]
fn config_holds_provider_constants() {
    let c = Config::postnl("blob".to_string());
    assert_eq!(c.client_id, "pwb-web");
    assert_eq!(c.token_url, "https://jouw.postnl.nl/identity/connect/token");
    assert_eq!(c.redirect_uri, "https://jouw.postnl.nl/silent-renew.html");
    assert_eq!(c.sensor_data, "blob");
}
