use gemini_cli::auth::client::OAuthClient;
use gemini_cli::auth::device::device_code_form;
use gemini_cli::auth::device::next_poll;
use gemini_cli::auth::device::on_token_reply;
use gemini_cli::auth::device::open_session;
use gemini_cli::auth::device::token_from_grant;
use gemini_cli::auth::device::token_poll_form;
use gemini_cli::auth::device::verification_prompt;
use gemini_cli::auth::device::DeviceCodeReply;
use gemini_cli::auth::device::DeviceCodeResponse;
use gemini_cli::auth::device::DeviceCodeSession;
use gemini_cli::auth::device::PollOutcome;
use gemini_cli::auth::device::TokenErrorResponse;
use gemini_cli::auth::device::TokenReply;
use gemini_cli::auth::device::TokenSuccessResponse;
use gemini_cli::auth::device::DEFAULT_POLL_INTERVAL_SECS;
use gemini_cli::auth::device::DEVICE_CODE_GRANT;
use gemini_cli::auth::device::MIN_POLL_INTERVAL_SECS;
use gemini_cli::auth::device::SLOW_DOWN_STEP_SECS;
use gemini_cli::auth::error::AuthError;
use gemini_cli::auth::error::Endpoint;
use gemini_cli::auth::token::OAuthToken;

fn client(secret: Option<&str>, scopes: &[&str]) -> OAuthClient {
    OAuthClient::google_device_flow(
        "my-client".to_string(),
        secret.map(|s| s.to_string()),
        scopes.iter().map(|s| s.to_string()).collect(),
    )
    .unwrap()
}

fn pair(name: &str, value: &str) -> (String, String) {
    (name.to_string(), value.to_string())
}

fn response() -> DeviceCodeResponse {
    DeviceCodeResponse {
        device_code: "dev-code".to_string(),
        user_code: "ABCD-EFGH".to_string(),
        verification_url: "https://legacy.example/device".to_string(),
        verification_uri: None,
        verification_uri_complete: None,
        expires_in: 1_800,
        interval: None,
    }
}

fn ok_reply(response: DeviceCodeResponse) -> DeviceCodeReply {
    DeviceCodeReply { status: 200, body: "{}".to_string(), decoded: Ok(response) }
}

fn session(interval: u64, expires_at: u64) -> DeviceCodeSession {
    DeviceCodeSession {
        device_code: "dev-code".to_string(),
        user_code: "ABCD-EFGH".to_string(),
        verification_url: "https://example.com/device".to_string(),
        interval,
        expires_at,
    }
}

fn error_reply(status: u16, code: &str, description: Option<&str>) -> TokenReply {
    TokenReply {
        status,
        body: format!("{{\"error\":\"{}\"}}", code),
        token: Err("missing field `access_token`".to_string()),
        error: Some(TokenErrorResponse {
            error: code.to_string(),
            error_description: description.map(|s| s.to_string()),
        }),
    }
}

fn grant() -> TokenSuccessResponse {
    TokenSuccessResponse {
        access_token: "access".to_string(),
        token_type: "Bearer".to_string(),
        scope: Some("scope-a".to_string()),
        expires_in: Some(3_599),
        refresh_token: Some("refresh".to_string()),
    }
}

#[test]
fn device_code_form_joins_scopes_with_spaces() {
    let form = device_code_form(&client(None, &["a", "b", "c"]));
    assert_eq!(form, vec![pair("client_id", "my-client"), pair("scope", "a b c")]);
}

#[test]
fn device_code_form_with_no_scope_has_empty_scope() {
    let form = device_code_form(&client(Some("s"), &[]));
    assert_eq!(form, vec![pair("client_id", "my-client"), pair("scope", "")]);
}

#[test]
fn device_code_form_with_one_scope() {
    let form = device_code_form(&client(None, &["only"]));
    assert_eq!(form, vec![pair("client_id", "my-client"), pair("scope", "only")]);
}

#[test]
fn session_opens_with_defaults() {
    let s = open_session(ok_reply(response()), 1_000).unwrap();
    assert_eq!(
        s,
        DeviceCodeSession {
            device_code: "dev-code".to_string(),
            user_code: "ABCD-EFGH".to_string(),
            verification_url: "https://legacy.example/device".to_string(),
            interval: 5,
            expires_at: 2_800,
        }
    );
    assert_eq!(DEFAULT_POLL_INTERVAL_SECS, 5);
}

#[test]
fn session_prefers_the_url_that_carries_the_code() {
    let mut r = response();
    r.verification_uri = Some("https://example.com/device".to_string());
    r.verification_uri_complete = Some("https://example.com/device?code=ABCD".to_string());
    let s = open_session(ok_reply(r), 0).unwrap();
    assert_eq!(s.verification_url, "https://example.com/device?code=ABCD");
}

#[test]
fn session_falls_back_to_the_plain_url() {
    let mut r = response();
    r.verification_uri = Some("https://example.com/device".to_string());
    let s = open_session(ok_reply(r), 0).unwrap();
    assert_eq!(s.verification_url, "https://example.com/device");
}

#[test]
fn session_interval_is_at_least_one_second() {
    let mut r = response();
    r.interval = Some(0);
    assert_eq!(open_session(ok_reply(r), 0).unwrap().interval, 1);
    assert_eq!(MIN_POLL_INTERVAL_SECS, 1);
    let mut r = response();
    r.interval = Some(1);
    assert_eq!(open_session(ok_reply(r), 0).unwrap().interval, 1);
    let mut r = response();
    r.interval = Some(17);
    assert_eq!(open_session(ok_reply(r), 0).unwrap().interval, 17);
}

#[test]
fn session_is_refused_on_failure_status() {
    let reply = DeviceCodeReply {
        status: 403,
        body: "forbidden".to_string(),
        decoded: Ok(response()),
    };
    assert_eq!(
        open_session(reply, 0),
        Err(AuthError::AuthServer {
            endpoint: Endpoint::DeviceCode,
            status: 403,
            code: None,
            description: "forbidden".to_string(),
        })
    );
}

#[test]
fn session_is_refused_when_the_body_does_not_decode() {
    let reply = DeviceCodeReply {
        status: 200,
        body: "<html>".to_string(),
        decoded: Err("expected value".to_string()),
    };
    assert_eq!(
        open_session(reply, 0),
        Err(AuthError::Decode {
            endpoint: Endpoint::DeviceCode,
            detail: "expected value".to_string()
        })
    );
}

#[test]
fn session_is_refused_when_the_deadline_overflows() {
    let mut r = response();
    r.expires_in = 10;
    assert_eq!(open_session(ok_reply(r), u64::MAX - 9), Err(AuthError::TimeOverflow));
    let mut r = response();
    r.expires_in = 10;
    assert_eq!(open_session(ok_reply(r), u64::MAX - 10).unwrap().expires_at, u64::MAX);
}

#[test]
fn prompt_shows_url_and_code() {
    let lines = verification_prompt(&session(5, 100));
    assert_eq!(
        lines,
        vec![
            "Open this URL in your browser and complete sign-in:".to_string(),
            "  https://example.com/device".to_string(),
            "Then enter code:".to_string(),
            "  ABCD-EFGH".to_string(),
            "".to_string(),
        ]
    );
}

#[test]
fn poll_waits_for_the_interval_until_the_deadline() {
    assert_eq!(next_poll(&session(5, 100), 0), Ok(5));
    assert_eq!(next_poll(&session(7, 100), 100), Ok(7));
    assert_eq!(next_poll(&session(5, 100), 101), Err(AuthError::DeviceCodeExpired));
    assert_eq!(next_poll(&session(5, 100), u64::MAX), Err(AuthError::DeviceCodeExpired));
}

#[test]
fn poll_form_without_secret() {
    let form = token_poll_form(&client(None, &["a"]), &session(5, 100));
    assert_eq!(
        form,
        vec![
            pair("client_id", "my-client"),
            pair("device_code", "dev-code"),
            pair("grant_type", "urn:ietf:params:oauth:grant-type:device_code"),
        ]
    );
    assert_eq!(DEVICE_CODE_GRANT, "urn:ietf:params:oauth:grant-type:device_code");
}

#[test]
fn poll_form_with_secret() {
    let form = token_poll_form(&client(Some("shh"), &["a"]), &session(5, 100));
    assert_eq!(
        form,
        vec![
            pair("client_id", "my-client"),
            pair("device_code", "dev-code"),
            pair("grant_type", "urn:ietf:params:oauth:grant-type:device_code"),
            pair("client_secret", "shh"),
        ]
    );
}

#[test]
fn granted_token_is_stamped_with_now() {
    let t = token_from_grant(grant(), 12_345);
    assert_eq!(
        t,
        OAuthToken {
            access_token: "access".to_string(),
            token_type: "Bearer".to_string(),
            scope: Some("scope-a".to_string()),
            refresh_token: Some("refresh".to_string()),
            obtained_at: 12_345,
            expires_in: Some(3_599),
        }
    );
}

#[test]
fn success_reply_authorizes() {
    let reply = TokenReply {
        status: 200,
        body: "{}".to_string(),
        token: Ok(grant()),
        error: None,
    };
    match on_token_reply(session(5, 100), reply, 77) {
        PollOutcome::Authorized(t) => {
            assert_eq!(t.access_token, "access");
            assert_eq!(t.obtained_at, 77);
            assert_eq!(t.expires_in, Some(3_599));
            assert_eq!(t.refresh_token, Some("refresh".to_string()));
        }
        other => panic!("unexpected outcome: {:?}", other),
    }
}

#[test]
fn success_reply_that_does_not_decode_fails() {
    let reply = TokenReply {
        status: 200,
        body: "[]".to_string(),
        token: Err("invalid type".to_string()),
        error: None,
    };
    assert_eq!(
        on_token_reply(session(5, 100), reply, 0),
        PollOutcome::Failed(AuthError::Decode {
            endpoint: Endpoint::Token,
            detail: "invalid type".to_string()
        })
    );
}

#[test]
fn authorization_pending_keeps_polling_unchanged() {
    let out = on_token_reply(session(5, 100), error_reply(428, "authorization_pending", None), 9);
    assert_eq!(out, PollOutcome::Pending(session(5, 100)));
}

#[test]
fn slow_down_adds_exactly_five_seconds() {
    let out = on_token_reply(session(5, 100), error_reply(400, "slow_down", None), 9);
    assert_eq!(out, PollOutcome::Pending(session(10, 100)));
    let out = on_token_reply(session(1, 100), error_reply(400, "slow_down", Some("easy")), 9);
    assert_eq!(out, PollOutcome::Pending(session(6, 100)));
    assert_eq!(SLOW_DOWN_STEP_SECS, 5);
}

#[test]
fn slow_down_twice_adds_ten_seconds() {
    let first = on_token_reply(session(5, 100), error_reply(400, "slow_down", None), 9);
    let s = match first {
        PollOutcome::Pending(s) => s,
        other => panic!("unexpected outcome: {:?}", other),
    };
    let second = on_token_reply(s, error_reply(400, "slow_down", None), 20);
    assert_eq!(second, PollOutcome::Pending(session(15, 100)));
}

#[test]
fn slow_down_that_overflows_the_interval_fails() {
    let out = on_token_reply(session(u64::MAX - 4, 100), error_reply(400, "slow_down", None), 9);
    assert_eq!(out, PollOutcome::Failed(AuthError::TimeOverflow));
    let out = on_token_reply(session(u64::MAX - 5, 100), error_reply(400, "slow_down", None), 9);
    assert_eq!(out, PollOutcome::Pending(session(u64::MAX, 100)));
}

#[test]
fn expired_token_ends_with_device_code_expired() {
    let out = on_token_reply(session(5, 100), error_reply(400, "expired_token", None), 9);
    assert_eq!(out, PollOutcome::Failed(AuthError::DeviceCodeExpired));
}

#[test]
fn access_denied_ends_with_access_denied() {
    let out = on_token_reply(session(5, 100), error_reply(403, "access_denied", None), 9);
    assert_eq!(out, PollOutcome::Failed(AuthError::AccessDenied));
}

#[test]
fn other_error_code_ends_with_code_and_description() {
    let out =
        on_token_reply(session(5, 100), error_reply(400, "invalid_client", Some("who?")), 9);
    assert_eq!(
        out,
        PollOutcome::Failed(AuthError::AuthServer {
            endpoint: Endpoint::Token,
            status: 400,
            code: Some("invalid_client".to_string()),
            description: "who?".to_string(),
        })
    );
    let out = on_token_reply(session(5, 100), error_reply(400, "invalid_client", None), 9);
    assert_eq!(
        out,
        PollOutcome::Failed(AuthError::AuthServer {
            endpoint: Endpoint::Token,
            status: 400,
            code: Some("invalid_client".to_string()),
            description: "".to_string(),
        })
    );
}

#[test]
fn error_codes_are_matched_exactly() {
    let out = on_token_reply(session(5, 100), error_reply(400, "Slow_Down", None), 9);
    assert_eq!(
        out,
        PollOutcome::Failed(AuthError::AuthServer {
            endpoint: Endpoint::Token,
            status: 400,
            code: Some("Slow_Down".to_string()),
            description: "".to_string(),
        })
    );
}

#[test]
fn failure_without_json_ends_with_status_and_body() {
    let reply = TokenReply {
        status: 502,
        body: "Bad Gateway".to_string(),
        token: Err("expected value".to_string()),
        error: None,
    };
    assert_eq!(
        on_token_reply(session(5, 100), reply, 9),
        PollOutcome::Failed(AuthError::AuthServer {
            endpoint: Endpoint::Token,
            status: 502,
            code: None,
            description: "Bad Gateway".to_string(),
        })
    );
}

#[test]
fn success_status_wins_over_an_error_object() {
    let mut reply = error_reply(200, "slow_down", None);
    reply.token = Ok(grant());
    match on_token_reply(session(5, 100), reply, 3) {
        PollOutcome::Authorized(t) => assert_eq!(t.obtained_at, 3),
        other => panic!("unexpected outcome: {:?}", other),
    }
}

#[test]
fn a_misbehaving_server_cannot_move_the_deadline() {
    let mut s = session(1, 50);
    let mut now = 0;
    let mut polls = 0;
    loop {
        match next_poll(&s, now) {
            Err(e) => {
                assert_eq!(e, AuthError::DeviceCodeExpired);
                break;
            }
            Ok(wait) => {
                now += wait;
                polls += 1;
                match on_token_reply(s, error_reply(400, "authorization_pending", None), now) {
                    PollOutcome::Pending(next) => s = next,
                    other => panic!("unexpected outcome: {:?}", other),
                }
            }
        }
    }
    assert_eq!(polls, 51);
    assert_eq!(now, 51);
}
