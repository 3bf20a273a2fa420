//! Refreshing a token that is about to run out.

use vstd::prelude::*;
use vstd::string::*;

use crate::auth::client::OAuthClient;
use crate::auth::client::OAuthClientView;
use crate::auth::device::field;
use crate::auth::device::form_view;
use crate::auth::device::FormField;
use crate::auth::device::TokenReply;
use crate::auth::device::TokenReplyView;
use crate::auth::device::TokenSuccessResponseView;
use crate::auth::error::AuthError;
use crate::auth::error::AuthErrorView;
use crate::auth::error::Endpoint;
use crate::auth::token::OAuthToken;
use crate::auth::token::OAuthTokenView;
use crate::auth::token::REFRESH_SKEW_SECS;
use crate::text::first_of;
use crate::text::first_present;
use crate::text::result_view;
use crate::web::is_success;
use crate::web::success_status;

verus! {

/// What to do about a token before it is used.
#[derive(Debug, PartialEq, Eq)]
pub enum RefreshPlan {
    /// The token is good as it is: no request is made.
    Keep(OAuthToken),
    /// The token must be exchanged: send `form` to the token endpoint, once,
    /// and hand the answer to [`finish_refresh`] together with `prior`.
    Exchange { form: Vec<FormField>, prior: OAuthToken },
}

/// A [`RefreshPlan`] with its texts as sequences of characters.
pub enum RefreshPlanView {
    Keep(OAuthTokenView),
    Exchange { form: Seq<(Seq<char>, Seq<char>)>, prior: OAuthTokenView },
}

impl View for RefreshPlan {
    type V = RefreshPlanView;

    open spec fn view(&self) -> RefreshPlanView {
        match *self {
            RefreshPlan::Keep(token) => RefreshPlanView::Keep(token@),
            RefreshPlan::Exchange { form, prior } => RefreshPlanView::Exchange {
                form: form_view(form@),
                prior: prior@,
            },
        }
    }
}

impl RefreshPlanView {
    /// The number of requests that carrying out the plan sends.
    pub open spec fn requests(self) -> nat {
        match self {
            RefreshPlanView::Keep(_) => 0,
            RefreshPlanView::Exchange { .. } => 1,
        }
    }
}

/// The form of a refresh exchange.
pub open spec fn refresh_fields(client: OAuthClientView, refresh_token: Seq<char>) -> Seq<
    (Seq<char>, Seq<char>),
> {
    let fixed = seq![
        ("client_id"@, client.client_id),
        ("refresh_token"@, refresh_token),
        ("grant_type"@, "refresh_token"@),
    ];
    match client.client_secret {
        Some(secret) => fixed.push(("client_secret"@, secret)),
        None => fixed,
    }
}

/// What is to be done about `token` at the second `now`.
pub open spec fn refresh_plan(client: OAuthClientView, token: OAuthTokenView, now: u64) -> Result<
    RefreshPlanView,
    AuthErrorView,
> {
    if token.valid_at(now, REFRESH_SKEW_SECS) {
        Ok(RefreshPlanView::Keep(token))
    } else {
        match token.refresh_token {
            None => Err(AuthErrorView::RefreshUnavailable),
            Some(refresh_token) => Ok(
                RefreshPlanView::Exchange {
                    form: refresh_fields(client, refresh_token),
                    prior: token,
                },
            ),
        }
    }
}

/// The token that takes the place of `prior` after a grant received at
/// the second `now`: the grant's, with the refresh token of `prior` where
/// the grant brings none.
pub open spec fn refreshed_token(
    prior: OAuthTokenView,
    grant: TokenSuccessResponseView,
    now: u64,
) -> OAuthTokenView {
    OAuthTokenView {
        access_token: grant.access_token,
        token_type: grant.token_type,
        scope: grant.scope,
        refresh_token: first_of(grant.refresh_token, prior.refresh_token),
        obtained_at: now,
        expires_in: grant.expires_in,
    }
}

/// What the answer to a refresh exchange, received at the second `now`,
/// makes of `prior`.
pub open spec fn refresh_result(prior: OAuthTokenView, reply: TokenReplyView, now: u64) -> Result<
    OAuthTokenView,
    AuthErrorView,
> {
    if !success_status(reply.status) {
        Err(
            AuthErrorView::AuthServer {
                endpoint: Endpoint::Refresh,
                status: reply.status,
                code: None,
                description: reply.body,
            },
        )
    } else {
        match reply.token {
            Err(detail) => Err(AuthErrorView::Decode { endpoint: Endpoint::Refresh, detail }),
            Ok(grant) => Ok(refreshed_token(prior, grant, now)),
        }
    }
}

/// Decides, at the second `now`, whether `token` can be used as it is.
///
/// A token that stays valid for more than thirty seconds is kept, and no
/// request is made. One that does not, and has a refresh token, is to be
/// exchanged, with one request. One that has none cannot be refreshed.
pub fn refresh_if_needed(client: &OAuthClient, token: OAuthToken, now: u64) -> (r: Result<
    RefreshPlan,
    AuthError,
>)
    ensures
        result_view(r) == refresh_plan(client@, token@, now),
{
    if token.is_valid_at(now, REFRESH_SKEW_SECS) {
        return Ok(RefreshPlan::Keep(token));
    }
    let refresh_token = match &token.refresh_token {
        Some(refresh_token) => refresh_token.clone(),
        None => {
            return Err(AuthError::RefreshUnavailable);
        },
    };
    let mut form: Vec<FormField> = Vec::new();
    form.push(field("client_id", client.client_id.clone()));
    form.push(field("refresh_token", refresh_token));
    form.push(field("grant_type", String::from_str("refresh_token")));
    match &client.client_secret {
        Some(secret) => {
            form.push(field("client_secret", secret.clone()));
        },
        None => {},
    }
    assert(form_view(form@) =~= refresh_fields(client@, token@.refresh_token->Some_0));
    Ok(RefreshPlan::Exchange { form, prior: token })
}

/// Builds the new token from the answer to a refresh exchange, received
/// at the second `now`. The old token is superseded, not changed.
pub fn finish_refresh(prior: OAuthToken, reply: TokenReply, now: u64) -> (r: Result<
    OAuthToken,
    AuthError,
>)
    ensures
        result_view(r) == refresh_result(prior@, reply@, now),
{
    if !is_success(reply.status) {
        return Err(
            AuthError::AuthServer {
                endpoint: Endpoint::Refresh,
                status: reply.status,
                code: None,
                description: reply.body,
            },
        );
    }
    match reply.token {
        Err(detail) => Err(AuthError::Decode { endpoint: Endpoint::Refresh, detail }),
        Ok(grant) => Ok(
            OAuthToken {
                access_token: grant.access_token,
                token_type: grant.token_type,
                scope: grant.scope,
                refresh_token: first_present(grant.refresh_token, prior.refresh_token),
                obtained_at: now,
                expires_in: grant.expires_in,
            },
        ),
    }
}

/// A token within thirty seconds of running out, with a refresh token,
/// costs exactly one request; a token further from it costs none, and
/// comes back as it went in.
pub proof fn lemma_refresh_requests(client: OAuthClientView, token: OAuthTokenView, now: u64)
    ensures
        token.valid_at(now, REFRESH_SKEW_SECS) ==> {
            &&& refresh_plan(client, token, now) is Ok
            &&& refresh_plan(client, token, now)->Ok_0 == RefreshPlanView::Keep(token)
            &&& refresh_plan(client, token, now)->Ok_0.requests() == 0
        },
        !token.valid_at(now, REFRESH_SKEW_SECS) && token.refresh_token is Some ==> {
            &&& refresh_plan(client, token, now) is Ok
            &&& refresh_plan(client, token, now)->Ok_0.requests() == 1
        },
        !token.valid_at(now, REFRESH_SKEW_SECS) && token.refresh_token is None ==> {
            &&& refresh_plan(client, token, now) is Err
            &&& refresh_plan(client, token, now)->Err_0 == AuthErrorView::RefreshUnavailable
        },
{
}

/// A refresh keeps the refresh token alive: the new token carries the
/// server's new one, or else the one that was spent on the exchange.
pub proof fn lemma_refresh_keeps_refresh_token(
    prior: OAuthTokenView,
    reply: TokenReplyView,
    now: u64,
)
    requires
        prior.refresh_token is Some,
    ensures
        refresh_result(prior, reply, now) matches Ok(token) ==> token.refresh_token is Some
            && token.obtained_at == now,
{
}

} // verus!
