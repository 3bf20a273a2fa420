//! The device authorization flow: a session is opened with a device code,
//! shown to the user, and polled until the server grants a token, refuses,
//! or the code runs out.
//!
//! The caller sends the requests and sleeps; every decision is made here.

use vstd::prelude::*;
use vstd::string::*;

use crate::auth::client::OAuthClient;
use crate::auth::client::OAuthClientView;
use crate::auth::error::AuthError;
use crate::auth::error::AuthErrorView;
use crate::auth::error::Endpoint;
use crate::auth::token::OAuthToken;
use crate::auth::token::saturating_sum;
use crate::auth::token::OAuthTokenView;
use crate::text::first_of;
use crate::text::join;
use crate::text::joined;
use crate::text::opt_text;
use crate::text::result_view;
use crate::text::str_eq;
use crate::text::texts;
use crate::web::is_success;
use crate::web::success_status;

verus! {

/// The seconds between two polls where the server names none.
pub const DEFAULT_POLL_INTERVAL_SECS: u64 = 5;

/// The fewest seconds between two polls.
pub const MIN_POLL_INTERVAL_SECS: u64 = 1;

/// The seconds by which the server's `slow_down` lengthens the interval.
pub const SLOW_DOWN_STEP_SECS: u64 = 5;

/// The grant type of a poll for the token of a device code.
pub const DEVICE_CODE_GRANT: &'static str = "urn:ietf:params:oauth:grant-type:device_code";

/// One field of a form-encoded request: its name and its value.
pub type FormField = (String, String);

/// A form as names and values.
pub open spec fn form_view(form: Seq<FormField>) -> Seq<(Seq<char>, Seq<char>)> {
    Seq::new(form.len(), |i: int| (form[i].0@, form[i].1@))
}

/// What the device-code endpoint sends on success.
#[derive(Debug, PartialEq, Eq)]
pub struct DeviceCodeResponse {
    pub device_code: String,
    pub user_code: String,
    pub verification_url: String,
    pub verification_uri: Option<String>,
    pub verification_uri_complete: Option<String>,
    pub expires_in: u64,
    pub interval: Option<u64>,
}

/// A [`DeviceCodeResponse`] with its texts as sequences of characters.
pub struct DeviceCodeResponseView {
    pub device_code: Seq<char>,
    pub user_code: Seq<char>,
    pub verification_url: Seq<char>,
    pub verification_uri: Option<Seq<char>>,
    pub verification_uri_complete: Option<Seq<char>>,
    pub expires_in: u64,
    pub interval: Option<u64>,
}

impl View for DeviceCodeResponse {
    type V = DeviceCodeResponseView;

    open spec fn view(&self) -> DeviceCodeResponseView {
        DeviceCodeResponseView {
            device_code: self.device_code@,
            user_code: self.user_code@,
            verification_url: self.verification_url@,
            verification_uri: opt_text(self.verification_uri),
            verification_uri_complete: opt_text(self.verification_uri_complete),
            expires_in: self.expires_in,
            interval: self.interval,
        }
    }
}

/// The answer of the device-code endpoint: its status, its body as text, and
/// what the body decodes to, or why it does not decode.
#[derive(Debug, PartialEq, Eq)]
pub struct DeviceCodeReply {
    pub status: u16,
    pub body: String,
    pub decoded: Result<DeviceCodeResponse, String>,
}

/// A [`DeviceCodeReply`] with its texts as sequences of characters.
pub struct DeviceCodeReplyView {
    pub status: u16,
    pub body: Seq<char>,
    pub decoded: Result<DeviceCodeResponseView, Seq<char>>,
}

impl View for DeviceCodeReply {
    type V = DeviceCodeReplyView;

    open spec fn view(&self) -> DeviceCodeReplyView {
        DeviceCodeReplyView {
            status: self.status,
            body: self.body@,
            decoded: result_view(self.decoded),
        }
    }
}

/// A device authorization in progress. It lives in this process only.
#[derive(Debug, PartialEq, Eq)]
pub struct DeviceCodeSession {
    pub device_code: String,
    pub user_code: String,
    pub verification_url: String,
    /// The seconds to wait before the next poll.
    pub interval: u64,
    /// The last second, since the Unix epoch, at which a poll may start.
    pub expires_at: u64,
}

/// A [`DeviceCodeSession`] with its texts as sequences of characters.
pub struct DeviceCodeSessionView {
    pub device_code: Seq<char>,
    pub user_code: Seq<char>,
    pub verification_url: Seq<char>,
    pub interval: u64,
    pub expires_at: u64,
}

impl View for DeviceCodeSession {
    type V = DeviceCodeSessionView;

    open spec fn view(&self) -> DeviceCodeSessionView {
        DeviceCodeSessionView {
            device_code: self.device_code@,
            user_code: self.user_code@,
            verification_url: self.verification_url@,
            interval: self.interval,
            expires_at: self.expires_at,
        }
    }
}

/// What the token endpoint sends when it grants a token.
#[derive(Debug, PartialEq, Eq)]
pub struct TokenSuccessResponse {
    pub access_token: String,
    pub token_type: String,
    pub scope: Option<String>,
    pub expires_in: Option<u64>,
    pub refresh_token: Option<String>,
}

/// A [`TokenSuccessResponse`] with its texts as sequences of characters.
pub struct TokenSuccessResponseView {
    pub access_token: Seq<char>,
    pub token_type: Seq<char>,
    pub scope: Option<Seq<char>>,
    pub expires_in: Option<u64>,
    pub refresh_token: Option<Seq<char>>,
}

impl View for TokenSuccessResponse {
    type V = TokenSuccessResponseView;

    open spec fn view(&self) -> TokenSuccessResponseView {
        TokenSuccessResponseView {
            access_token: self.access_token@,
            token_type: self.token_type@,
            scope: opt_text(self.scope),
            expires_in: self.expires_in,
            refresh_token: opt_text(self.refresh_token),
        }
    }
}

/// The error object that the token endpoint sends when it grants none.
#[derive(Debug, PartialEq, Eq)]
pub struct TokenErrorResponse {
    pub error: String,
    pub error_description: Option<String>,
}

/// A [`TokenErrorResponse`] with its texts as sequences of characters.
pub struct TokenErrorResponseView {
    pub error: Seq<char>,
    pub error_description: Option<Seq<char>>,
}

impl View for TokenErrorResponse {
    type V = TokenErrorResponseView;

    open spec fn view(&self) -> TokenErrorResponseView {
        TokenErrorResponseView {
            error: self.error@,
            error_description: opt_text(self.error_description),
        }
    }
}

/// The answer of the token endpoint: its status, its body as text, what the
/// body decodes to as a granted token, or why it does not, and the error
/// object that the body holds, where it holds one.
#[derive(Debug, PartialEq, Eq)]
pub struct TokenReply {
    pub status: u16,
    pub body: String,
    pub token: Result<TokenSuccessResponse, String>,
    pub error: Option<TokenErrorResponse>,
}

/// A [`TokenReply`] with its texts as sequences of characters.
pub struct TokenReplyView {
    pub status: u16,
    pub body: Seq<char>,
    pub token: Result<TokenSuccessResponseView, Seq<char>>,
    pub error: Option<TokenErrorResponseView>,
}

impl View for TokenReply {
    type V = TokenReplyView;

    open spec fn view(&self) -> TokenReplyView {
        TokenReplyView {
            status: self.status,
            body: self.body@,
            token: result_view(self.token),
            error: match self.error {
                Some(e) => Some(e@),
                None => None,
            },
        }
    }
}

/// How a poll of the token endpoint ended.
#[derive(Debug, PartialEq, Eq)]
pub enum PollOutcome {
    /// The server granted this token.
    Authorized(OAuthToken),
    /// The user has not decided yet: poll again, with this session.
    Pending(DeviceCodeSession),
    /// The flow is over, without a token.
    Failed(AuthError),
}

/// A [`PollOutcome`] with its texts as sequences of characters.
pub enum PollOutcomeView {
    Authorized(OAuthTokenView),
    Pending(DeviceCodeSessionView),
    Failed(AuthErrorView),
}

impl View for PollOutcome {
    type V = PollOutcomeView;

    open spec fn view(&self) -> PollOutcomeView {
        match *self {
            PollOutcome::Authorized(token) => PollOutcomeView::Authorized(token@),
            PollOutcome::Pending(session) => PollOutcomeView::Pending(session@),
            PollOutcome::Failed(e) => PollOutcomeView::Failed(e@),
        }
    }
}

/// The form of the request for a device code.
pub open spec fn device_code_fields(client: OAuthClientView) -> Seq<(Seq<char>, Seq<char>)> {
    seq![("client_id"@, client.client_id), ("scope"@, joined(client.scopes, " "@))]
}

/// The form of a poll of the token endpoint.
pub open spec fn token_poll_fields(client: OAuthClientView, device_code: Seq<char>) -> Seq<
    (Seq<char>, Seq<char>),
> {
    let fixed = seq![
        ("client_id"@, client.client_id),
        ("device_code"@, device_code),
        ("grant_type"@, DEVICE_CODE_GRANT@),
    ];
    match client.client_secret {
        Some(secret) => fixed.push(("client_secret"@, secret)),
        None => fixed,
    }
}

/// The URL that the user is sent to: the one that carries the code where
/// the server gave one, else the plain one, else the one of the older field.
pub open spec fn verification_target(response: DeviceCodeResponseView) -> Seq<char> {
    match first_of(response.verification_uri_complete, response.verification_uri) {
        Some(url) => url,
        None => response.verification_url,
    }
}

/// The seconds between polls that a response asks for.
pub open spec fn poll_interval(response: DeviceCodeResponseView) -> u64 {
    let asked = match response.interval {
        Some(secs) => secs,
        None => DEFAULT_POLL_INTERVAL_SECS,
    };
    if asked < MIN_POLL_INTERVAL_SECS {
        MIN_POLL_INTERVAL_SECS
    } else {
        asked
    }
}

/// The session that an answer of the device-code endpoint opens at the
/// second `now`, or the failure that it is.
pub open spec fn session_opened(reply: DeviceCodeReplyView, now: u64) -> Result<
    DeviceCodeSessionView,
    AuthErrorView,
> {
    if !success_status(reply.status) {
        Err(
            AuthErrorView::AuthServer {
                endpoint: Endpoint::DeviceCode,
                status: reply.status,
                code: None,
                description: reply.body,
            },
        )
    } else {
        match reply.decoded {
            Err(detail) => Err(AuthErrorView::Decode { endpoint: Endpoint::DeviceCode, detail }),
            Ok(response) => if now + response.expires_in > u64::MAX {
                Err(AuthErrorView::TimeOverflow)
            } else {
                Ok(
                    DeviceCodeSessionView {
                        device_code: response.device_code,
                        user_code: response.user_code,
                        verification_url: verification_target(response),
                        interval: poll_interval(response),
                        expires_at: (now + response.expires_in) as u64,
                    },
                )
            },
        }
    }
}

/// The lines that tell the user where to go and what to enter.
pub open spec fn prompt_lines(session: DeviceCodeSessionView) -> Seq<Seq<char>> {
    seq![
        "Open this URL in your browser and complete sign-in:"@,
        "  "@ + session.verification_url,
        "Then enter code:"@,
        "  "@ + session.user_code,
        ""@,
    ]
}

/// The seconds to sleep before the poll that starts at `now`, or the end
/// of a session whose deadline has passed.
pub open spec fn poll_wait(session: DeviceCodeSessionView, now: u64) -> Result<u64, AuthErrorView> {
    if now > session.expires_at {
        Err(AuthErrorView::DeviceCodeExpired)
    } else {
        Ok(session.interval)
    }
}

/// The token that a grant received at the second `now` amounts to.
pub open spec fn granted_token(grant: TokenSuccessResponseView, now: u64) -> OAuthTokenView {
    OAuthTokenView {
        access_token: grant.access_token,
        token_type: grant.token_type,
        scope: grant.scope,
        refresh_token: grant.refresh_token,
        obtained_at: now,
        expires_in: grant.expires_in,
    }
}

/// What an error object of the token endpoint means for the session.
pub open spec fn error_outcome(
    session: DeviceCodeSessionView,
    status: u16,
    error: TokenErrorResponseView,
) -> PollOutcomeView {
    if error.error == "authorization_pending"@ {
        PollOutcomeView::Pending(session)
    } else if error.error == "slow_down"@ {
        if session.interval + SLOW_DOWN_STEP_SECS > u64::MAX {
            PollOutcomeView::Failed(AuthErrorView::TimeOverflow)
        } else {
            PollOutcomeView::Pending(
                DeviceCodeSessionView {
                    interval: (session.interval + SLOW_DOWN_STEP_SECS) as u64,
                    ..session
                },
            )
        }
    } else if error.error == "expired_token"@ {
        PollOutcomeView::Failed(AuthErrorView::DeviceCodeExpired)
    } else if error.error == "access_denied"@ {
        PollOutcomeView::Failed(AuthErrorView::AccessDenied)
    } else {
        PollOutcomeView::Failed(
            AuthErrorView::AuthServer {
                endpoint: Endpoint::Token,
                status,
                code: Some(error.error),
                description: match error.error_description {
                    Some(text) => text,
                    None => Seq::empty(),
                },
            },
        )
    }
}

/// What an answer of the token endpoint, received at the second `now`,
/// means for the session.
pub open spec fn poll_outcome(
    session: DeviceCodeSessionView,
    reply: TokenReplyView,
    now: u64,
) -> PollOutcomeView {
    if success_status(reply.status) {
        match reply.token {
            Ok(grant) => PollOutcomeView::Authorized(granted_token(grant, now)),
            Err(detail) => PollOutcomeView::Failed(
                AuthErrorView::Decode { endpoint: Endpoint::Token, detail },
            ),
        }
    } else {
        match reply.error {
            Some(error) => error_outcome(session, reply.status, error),
            None => PollOutcomeView::Failed(
                AuthErrorView::AuthServer {
                    endpoint: Endpoint::Token,
                    status: reply.status,
                    code: None,
                    description: reply.body,
                },
            ),
        }
    }
}

/// A form field with the given name.
pub fn field(name: &str, value: String) -> (r: FormField)
    ensures
        r.0@ == name@,
        r.1@ == value@,
{
    (String::from_str(name), value)
}

/// The form to send to the device-code endpoint: the client's id and its
/// scopes, separated by single spaces.
pub fn device_code_form(client: &OAuthClient) -> (r: Vec<FormField>)
    ensures
        form_view(r@) == device_code_fields(client@),
{
    let mut form: Vec<FormField> = Vec::new();
    form.push(field("client_id", client.client_id.clone()));
    form.push(field("scope", join(&client.scopes, " ")));
    assert(form_view(form@) =~= device_code_fields(client@));
    form
}

/// Opens a session from the answer of the device-code endpoint, received
/// at the second `now`.
pub fn open_session(reply: DeviceCodeReply, now: u64) -> (r: Result<DeviceCodeSession, AuthError>)
    ensures
        result_view(r) == session_opened(reply@, now),
{
    if !is_success(reply.status) {
        return Err(
            AuthError::AuthServer {
                endpoint: Endpoint::DeviceCode,
                status: reply.status,
                code: None,
                description: reply.body,
            },
        );
    }
    let response = match reply.decoded {
        Ok(response) => response,
        Err(detail) => {
            return Err(AuthError::Decode { endpoint: Endpoint::DeviceCode, detail });
        },
    };
    let expires_at = match now.checked_add(response.expires_in) {
        Some(deadline) => deadline,
        None => {
            return Err(AuthError::TimeOverflow);
        },
    };
    let asked = match response.interval {
        Some(secs) => secs,
        None => DEFAULT_POLL_INTERVAL_SECS,
    };
    let interval = if asked < MIN_POLL_INTERVAL_SECS {
        MIN_POLL_INTERVAL_SECS
    } else {
        asked
    };
    let verification_url = match response.verification_uri_complete {
        Some(url) => url,
        None => match response.verification_uri {
            Some(url) => url,
            None => response.verification_url,
        },
    };
    Ok(
        DeviceCodeSession {
            device_code: response.device_code,
            user_code: response.user_code,
            verification_url,
            interval,
            expires_at,
        },
    )
}

/// The lines to show the user before polling begins.
pub fn verification_prompt(session: &DeviceCodeSession) -> (r: Vec<String>)
    ensures
        texts(r@) == prompt_lines(session@),
{
    let mut lines: Vec<String> = Vec::new();
    lines.push(String::from_str("Open this URL in your browser and complete sign-in:"));
    let mut url_line = String::from_str("  ");
    url_line.append(session.verification_url.as_str());
    lines.push(url_line);
    lines.push(String::from_str("Then enter code:"));
    let mut code_line = String::from_str("  ");
    code_line.append(session.user_code.as_str());
    lines.push(code_line);
    lines.push(String::from_str(""));
    assert(texts(lines@) =~= prompt_lines(session@));
    lines
}

/// Decides, at the second `now`, whether the session may be polled once
/// more, and after how many seconds of sleep.
pub fn next_poll(session: &DeviceCodeSession, now: u64) -> (r: Result<u64, AuthError>)
    ensures
        result_view(r) == poll_wait(session@, now),
{
    if now > session.expires_at {
        Err(AuthError::DeviceCodeExpired)
    } else {
        Ok(session.interval)
    }
}

/// The form to send to the token endpoint when polling for the session.
pub fn token_poll_form(client: &OAuthClient, session: &DeviceCodeSession) -> (r: Vec<FormField>)
    ensures
        form_view(r@) == token_poll_fields(client@, session@.device_code),
{
    let mut form: Vec<FormField> = Vec::new();
    form.push(field("client_id", client.client_id.clone()));
    form.push(field("device_code", session.device_code.clone()));
    form.push(field("grant_type", String::from_str(DEVICE_CODE_GRANT)));
    match &client.client_secret {
        Some(secret) => {
            form.push(field("client_secret", secret.clone()));
        },
        None => {},
    }
    assert(form_view(form@) =~= token_poll_fields(client@, session@.device_code));
    form
}

/// The token that a grant received at the second `now` amounts to.
pub fn token_from_grant(grant: TokenSuccessResponse, now: u64) -> (r: OAuthToken)
    ensures
        r@ == granted_token(grant@, now),
{
    OAuthToken {
        access_token: grant.access_token,
        token_type: grant.token_type,
        scope: grant.scope,
        refresh_token: grant.refresh_token,
        obtained_at: now,
        expires_in: grant.expires_in,
    }
}

/// Takes the answer to a poll, received at the second `now`, and says how
/// the flow goes on.
///
/// `authorization_pending` leaves the session as it is; `slow_down` adds
/// five seconds to its interval; every other answer ends the flow.
pub fn on_token_reply(session: DeviceCodeSession, reply: TokenReply, now: u64) -> (r: PollOutcome)
    ensures
        r@ == poll_outcome(session@, reply@, now),
{
    if is_success(reply.status) {
        return match reply.token {
            Ok(grant) => PollOutcome::Authorized(token_from_grant(grant, now)),
            Err(detail) => PollOutcome::Failed(
                AuthError::Decode { endpoint: Endpoint::Token, detail },
            ),
        };
    }
    let error = match reply.error {
        Some(error) => error,
        None => {
            return PollOutcome::Failed(
                AuthError::AuthServer {
                    endpoint: Endpoint::Token,
                    status: reply.status,
                    code: None,
                    description: reply.body,
                },
            );
        },
    };
    if str_eq(error.error.as_str(), "authorization_pending") {
        PollOutcome::Pending(session)
    } else if str_eq(error.error.as_str(), "slow_down") {
        match session.interval.checked_add(SLOW_DOWN_STEP_SECS) {
            Some(interval) => PollOutcome::Pending(
                DeviceCodeSession {
                    device_code: session.device_code,
                    user_code: session.user_code,
                    verification_url: session.verification_url,
                    interval,
                    expires_at: session.expires_at,
                },
            ),
            None => PollOutcome::Failed(AuthError::TimeOverflow),
        }
    } else if str_eq(error.error.as_str(), "expired_token") {
        PollOutcome::Failed(AuthError::DeviceCodeExpired)
    } else if str_eq(error.error.as_str(), "access_denied") {
        PollOutcome::Failed(AuthError::AccessDenied)
    } else {
        let description = match error.error_description {
            Some(text) => text,
            None => String::new(),
        };
        PollOutcome::Failed(
            AuthError::AuthServer {
                endpoint: Endpoint::Token,
                status: reply.status,
                code: Some(error.error),
                description,
            },
        )
    }
}

/// A session that an answer opens polls no more often than once a second,
/// and every second that the answer allows.
pub proof fn lemma_session_bounds(reply: DeviceCodeReplyView, now: u64)
    ensures
        session_opened(reply, now) matches Ok(session) ==> {
            &&& session.interval >= MIN_POLL_INTERVAL_SECS
            &&& reply.decoded is Ok
            &&& session.expires_at == now + reply.decoded->Ok_0.expires_in
        },
{
}

/// `slow_down` lengthens the interval by exactly five seconds, changes
/// nothing else, and polling goes on.
pub proof fn lemma_slow_down_adds_five(
    session: DeviceCodeSessionView,
    reply: TokenReplyView,
    error: TokenErrorResponseView,
    now: u64,
)
    requires
        !success_status(reply.status),
        reply.error == Some(error),
        error.error == "slow_down"@,
        session.interval + 5 <= u64::MAX,
    ensures
        poll_outcome(session, reply, now) == PollOutcomeView::Pending(
            DeviceCodeSessionView { interval: (session.interval + 5) as u64, ..session },
        ),
{
    reveal_strlit("slow_down");
    reveal_strlit("authorization_pending");
    assert("slow_down"@.len() != "authorization_pending"@.len());
}

/// `authorization_pending` leaves the session as it was, and polling goes on.
pub proof fn lemma_pending_changes_nothing(
    session: DeviceCodeSessionView,
    reply: TokenReplyView,
    error: TokenErrorResponseView,
    now: u64,
)
    requires
        !success_status(reply.status),
        reply.error == Some(error),
        error.error == "authorization_pending"@,
    ensures
        poll_outcome(session, reply, now) == PollOutcomeView::Pending(session),
{
}

/// `expired_token` ends the flow: the device code has run out.
pub proof fn lemma_expired_token_ends(
    session: DeviceCodeSessionView,
    reply: TokenReplyView,
    error: TokenErrorResponseView,
    now: u64,
)
    requires
        !success_status(reply.status),
        reply.error == Some(error),
        error.error == "expired_token"@,
    ensures
        poll_outcome(session, reply, now) == PollOutcomeView::Failed(
            AuthErrorView::DeviceCodeExpired,
        ),
{
    reveal_strlit("expired_token");
    reveal_strlit("slow_down");
    reveal_strlit("authorization_pending");
    assert("expired_token"@.len() != "authorization_pending"@.len());
    assert("expired_token"@.len() != "slow_down"@.len());
}

/// `access_denied` ends the flow: the user refused.
pub proof fn lemma_access_denied_ends(
    session: DeviceCodeSessionView,
    reply: TokenReplyView,
    error: TokenErrorResponseView,
    now: u64,
)
    requires
        !success_status(reply.status),
        reply.error == Some(error),
        error.error == "access_denied"@,
    ensures
        poll_outcome(session, reply, now) == PollOutcomeView::Failed(AuthErrorView::AccessDenied),
{
    reveal_strlit("access_denied");
    reveal_strlit("expired_token");
    reveal_strlit("slow_down");
    reveal_strlit("authorization_pending");
    assert("access_denied"@.len() != "authorization_pending"@.len());
    assert("access_denied"@.len() != "slow_down"@.len());
    assert("access_denied"@[0] != "expired_token"@[0]);
}

/// No answer of the server moves the deadline or shortens the interval:
/// a session that goes on polling keeps its device code and its deadline.
pub proof fn lemma_polling_keeps_deadline(
    session: DeviceCodeSessionView,
    reply: TokenReplyView,
    now: u64,
)
    ensures
        poll_outcome(session, reply, now) matches PollOutcomeView::Pending(next) ==> {
            &&& next.expires_at == session.expires_at
            &&& next.interval >= session.interval
            &&& next.device_code == session.device_code
            &&& next.user_code == session.user_code
            &&& next.verification_url == session.verification_url
        },
{
}

/// Once the deadline has passed no further poll is made, whatever the
/// server has answered before.
pub proof fn lemma_deadline_ends_polling(session: DeviceCodeSessionView, now: u64)
    requires
        now > session.expires_at,
    ensures
        poll_wait(session, now) is Err,
        poll_wait(session, now)->Err_0 == AuthErrorView::DeviceCodeExpired,
{
}

/// The number of polls that are made of a server that answers with
/// `replies`, one after another, from the second `now` on, when every
/// sleep lasts as long as it was asked to: polling ends with the
/// deadline, with the first answer that ends the flow, or with the
/// last answer.
pub open spec fn polls_made(
    session: DeviceCodeSessionView,
    now: u64,
    replies: Seq<TokenReplyView>,
) -> nat
    decreases replies.len(),
{
    if replies.len() == 0 {
        0
    } else {
        match poll_wait(session, now) {
            Err(_) => 0,
            Ok(wait) => {
                let woke = saturating_sum(now, wait);
                match poll_outcome(session, replies[0], woke) {
                    PollOutcomeView::Pending(next) => 1 + polls_made(
                        next,
                        woke,
                        replies.drop_first(),
                    ),
                    _ => 1,
                }
            },
        }
    }
}

/// Polling ends, whatever the server answers: a session that waits at
/// least a second between polls is polled at most once for each second
/// up to its deadline, and once more at the deadline itself.
///
/// This speaks of the deadlines before the end of time, where the clock
/// can still move.
pub proof fn lemma_polling_ends(
    session: DeviceCodeSessionView,
    now: u64,
    replies: Seq<TokenReplyView>,
)
    requires
        session.interval >= MIN_POLL_INTERVAL_SECS,
        session.expires_at < u64::MAX,
    ensures
        now > session.expires_at ==> polls_made(session, now, replies) == 0,
        now <= session.expires_at ==> polls_made(session, now, replies) <= session.expires_at
            - now + 1,
    decreases replies.len(),
{
    if replies.len() > 0 && now <= session.expires_at {
        let woke = saturating_sum(now, session.interval);
        assert(woke > now);
        match poll_outcome(session, replies[0], woke) {
            PollOutcomeView::Pending(next) => {
                lemma_polling_keeps_deadline(session, replies[0], woke);
                lemma_polling_ends(next, woke, replies.drop_first());
            },
            _ => {},
        }
    }
}

} // verus!
