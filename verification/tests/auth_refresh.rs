use gemini_cli::auth::client::OAuthClient;
use gemini_cli::auth::device::TokenReply;
use gemini_cli::auth::device::TokenSuccessResponse;
use gemini_cli::auth::error::AuthError;
use gemini_cli::auth::error::Endpoint;
use gemini_cli::auth::refresh::finish_refresh;
use gemini_cli::auth::refresh::refresh_if_needed;
use gemini_cli::auth::refresh::RefreshPlan;
use gemini_cli::auth::store::load_token;
use gemini_cli::auth::store::save_failed;
use gemini_cli::auth::store::save_token_atomic;
use gemini_cli::auth::store::tmp_path;
use gemini_cli::auth::store::SaveStep;
use gemini_cli::auth::store::StoreError;
use gemini_cli::auth::store::TokenFile;
use gemini_cli::auth::token::OAuthToken;

fn client(secret: Option<&str>) -> OAuthClient {
    OAuthClient::google_device_flow(
        "my-client".to_string(),
        secret.map(|s| s.to_string()),
        vec!["scope".to_string()],
    )
    .unwrap()
}

fn token(refresh_token: Option<&str>, obtained_at: u64, expires_in: Option<u64>) -> OAuthToken {
    OAuthToken {
        access_token: "old-access".to_string(),
        token_type: "Bearer".to_string(),
        scope: Some("old-scope".to_string()),
        refresh_token: refresh_token.map(|s| s.to_string()),
        obtained_at,
        expires_in,
    }
}

fn pair(name: &str, value: &str) -> (String, String) {
    (name.to_string(), value.to_string())
}

fn grant(refresh_token: Option<&str>) -> TokenReply {
    TokenReply {
        status: 200,
        body: "{}".to_string(),
        token: Ok(TokenSuccessResponse {
            access_token: "new-access".to_string(),
            token_type: "Bearer".to_string(),
            scope: None,
            expires_in: Some(3_600),
            refresh_token: refresh_token.map(|s| s.to_string()),
        }),
        error: None,
    }
}

#[test]
fn token_outside_the_skew_is_kept_without_a_request() {
    let t = token(Some("rt"), 1_000, Some(3_600));
    // 4569 + 30 < 4600
    let plan = refresh_if_needed(&client(None), t.clone(), 4_569).unwrap();
    assert_eq!(plan, RefreshPlan::Keep(t));
}

#[test]
fn token_within_the_skew_is_exchanged_with_one_request() {
    let t = token(Some("rt"), 1_000, Some(3_600));
    // 4570 + 30 == 4600: no longer before the expiry
    let plan = refresh_if_needed(&client(None), t.clone(), 4_570).unwrap();
    assert_eq!(
        plan,
        RefreshPlan::Exchange {
            form: vec![
                pair("client_id", "my-client"),
                pair("refresh_token", "rt"),
                pair("grant_type", "refresh_token"),
            ],
            prior: t,
        }
    );
}

#[test]
fn refresh_form_carries_the_client_secret() {
    let t = token(Some("rt"), 0, Some(10));
    match refresh_if_needed(&client(Some("shh")), t, 1_000).unwrap() {
        RefreshPlan::Exchange { form, .. } => assert_eq!(
            form,
            vec![
                pair("client_id", "my-client"),
                pair("refresh_token", "rt"),
                pair("grant_type", "refresh_token"),
                pair("client_secret", "shh"),
            ]
        ),
        other => panic!("unexpected plan: {:?}", other),
    }
}

#[test]
fn expired_token_without_refresh_token_cannot_be_refreshed() {
    let t = token(None, 0, Some(10));
    assert_eq!(refresh_if_needed(&client(None), t, 1_000), Err(AuthError::RefreshUnavailable));
}

#[test]
fn token_without_lifetime_is_never_refreshed() {
    let t = token(None, 0, None);
    assert_eq!(refresh_if_needed(&client(None), t.clone(), u64::MAX), Ok(RefreshPlan::Keep(t)));
}

#[test]
fn refresh_keeps_the_old_refresh_token_when_the_server_sends_none() {
    let prior = token(Some("old-rt"), 0, Some(10));
    let t = finish_refresh(prior, grant(None), 5_000).unwrap();
    assert_eq!(
        t,
        OAuthToken {
            access_token: "new-access".to_string(),
            token_type: "Bearer".to_string(),
            scope: None,
            refresh_token: Some("old-rt".to_string()),
            obtained_at: 5_000,
            expires_in: Some(3_600),
        }
    );
}

#[test]
fn refresh_takes_the_new_refresh_token_when_the_server_sends_one() {
    let prior = token(Some("old-rt"), 0, Some(10));
    let t = finish_refresh(prior, grant(Some("new-rt")), 5_000).unwrap();
    assert_eq!(t.refresh_token, Some("new-rt".to_string()));
    assert_eq!(t.access_token, "new-access");
}

#[test]
fn refresh_failure_carries_status_and_body() {
    let reply = TokenReply {
        status: 400,
        body: "{\"error\":\"invalid_grant\"}".to_string(),
        token: Err("missing field".to_string()),
        error: None,
    };
    assert_eq!(
        finish_refresh(token(Some("rt"), 0, Some(10)), reply, 1),
        Err(AuthError::AuthServer {
            endpoint: Endpoint::Refresh,
            status: 400,
            code: None,
            description: "{\"error\":\"invalid_grant\"}".to_string(),
        })
    );
}

#[test]
fn refresh_success_that_does_not_decode_fails() {
    let reply = TokenReply {
        status: 200,
        body: "oops".to_string(),
        token: Err("expected value".to_string()),
        error: None,
    };
    assert_eq!(
        finish_refresh(token(Some("rt"), 0, Some(10)), reply, 1),
        Err(AuthError::Decode { endpoint: Endpoint::Refresh, detail: "expected value".to_string() })
    );
}

#[test]
fn refreshed_token_is_valid_again() {
    let prior = token(Some("rt"), 0, Some(10));
    let t = finish_refresh(prior, grant(None), 5_000).unwrap();
    assert_eq!(refresh_if_needed(&client(None), t.clone(), 5_001), Ok(RefreshPlan::Keep(t)));
}

#[test]
fn missing_token_file_is_no_token_and_no_error() {
    assert_eq!(load_token("/state/token.json", TokenFile::Missing), Ok(None));
}

#[test]
fn found_token_is_returned_as_it_is() {
    let t = token(Some("rt"), 12, Some(34));
    assert_eq!(load_token("/state/token.json", TokenFile::Found(t.clone())), Ok(Some(t)));
}

#[test]
fn unreadable_token_file_is_an_error() {
    let r = load_token("/state/token.json", TokenFile::Unreadable("permission denied".to_string()));
    let e = r.unwrap_err();
    assert_eq!(
        e,
        StoreError::Read {
            path: "/state/token.json".to_string(),
            detail: "permission denied".to_string()
        }
    );
    assert_eq!(e.message(), "failed to read token: /state/token.json: permission denied");
}

#[test]
fn malformed_token_file_is_an_error() {
    let r = load_token("/state/token.json", TokenFile::Malformed("EOF".to_string()));
    let e = r.unwrap_err();
    assert_eq!(e, StoreError::Parse { detail: "EOF".to_string() });
    assert_eq!(e.message(), "failed to parse token JSON: EOF");
}

#[test]
fn temporary_file_is_the_name_with_tmp_behind() {
    assert_eq!(tmp_path(Some("google_oauth_token.json")), "google_oauth_token.json.tmp");
    assert_eq!(tmp_path(Some("t")), "t.tmp");
    assert_eq!(tmp_path(None), "token.json.tmp");
}

#[test]
fn save_plan_names_directory_and_temporary_file() {
    let plan = save_token_atomic(Some("/state".to_string()), Some("token.json"));
    assert_eq!(plan.dir, "/state");
    assert_eq!(plan.tmp_name, "token.json.tmp");
    assert_eq!(plan.first, SaveStep::CreateDir);
    let plan = save_token_atomic(None, None);
    assert_eq!(plan.dir, ".");
    assert_eq!(plan.tmp_name, "token.json.tmp");
}

#[test]
fn save_steps_end_with_the_rename() {
    let mut steps = vec![SaveStep::CreateDir];
    while let Some(next) = steps[steps.len() - 1].next() {
        steps.push(next);
    }
    assert_eq!(
        steps,
        vec![SaveStep::CreateDir, SaveStep::Encode, SaveStep::WriteTemp, SaveStep::Rename]
    );
}

#[test]
fn save_failures_name_the_step() {
    assert_eq!(
        save_failed(SaveStep::CreateDir, "/state", "denied".to_string()).message(),
        "failed to create token directory: /state: denied"
    );
    assert_eq!(
        save_failed(SaveStep::Encode, "", "bad".to_string()).message(),
        "failed to serialize token: bad"
    );
    assert_eq!(
        save_failed(SaveStep::WriteTemp, "/state/t.tmp", "full".to_string()).message(),
        "failed to write temp token: /state/t.tmp: full"
    );
    assert_eq!(
        save_failed(SaveStep::Rename, "/state/t", "busy".to_string()).message(),
        "failed to move token into place: /state/t: busy"
    );
}
