//! What can go wrong between this client and the authorization server.

use vstd::prelude::*;
use vstd::string::*;

use crate::text::clone_opt;
use crate::text::opt_text;
use crate::web::status_line;
use crate::web::status_text;

verus! {

/// The three requests that the client makes of the authorization server.
#[derive(Clone, Copy, Debug, PartialEq, Eq, Structural)]
pub enum Endpoint {
    /// The request for a device code.
    DeviceCode,
    /// A poll of the token endpoint during device authorization.
    Token,
    /// The exchange of a refresh token.
    Refresh,
}

/// A failure of the device authorization flow or of a refresh.
#[derive(Debug, PartialEq, Eq)]
pub enum AuthError {
    /// The request did not reach the server, or its answer did not arrive.
    Transport { endpoint: Endpoint, detail: String },
    /// The server answered with a failure. `code` is the OAuth error code
    /// where the answer carried one; `description` is the server's
    /// description of it, or else the body of the answer.
    AuthServer { endpoint: Endpoint, status: u16, code: Option<String>, description: String },
    /// The device code ran out before the user approved it.
    DeviceCodeExpired,
    /// The user refused.
    AccessDenied,
    /// The access token has run out and there is no refresh token.
    RefreshUnavailable,
    /// A successful answer did not hold what it should.
    Decode { endpoint: Endpoint, detail: String },
    /// The deadline, or the poll interval, does not fit the clock.
    TimeOverflow,
    /// An endpoint of the authorization server is not a URL.
    InvalidEndpoint { url: String },
}

/// An [`AuthError`] with its texts as sequences of characters.
pub enum AuthErrorView {
    Transport { endpoint: Endpoint, detail: Seq<char> },
    AuthServer { endpoint: Endpoint, status: u16, code: Option<Seq<char>>, description: Seq<char> },
    DeviceCodeExpired,
    AccessDenied,
    RefreshUnavailable,
    Decode { endpoint: Endpoint, detail: Seq<char> },
    TimeOverflow,
    InvalidEndpoint { url: Seq<char> },
}

impl View for AuthError {
    type V = AuthErrorView;

    open spec fn view(&self) -> AuthErrorView {
        match *self {
            AuthError::Transport { endpoint, detail } => AuthErrorView::Transport {
                endpoint,
                detail: detail@,
            },
            AuthError::AuthServer { endpoint, status, code, description } => {
                AuthErrorView::AuthServer {
                    endpoint,
                    status,
                    code: opt_text(code),
                    description: description@,
                }
            },
            AuthError::DeviceCodeExpired => AuthErrorView::DeviceCodeExpired,
            AuthError::AccessDenied => AuthErrorView::AccessDenied,
            AuthError::RefreshUnavailable => AuthErrorView::RefreshUnavailable,
            AuthError::Decode { endpoint, detail } => AuthErrorView::Decode {
                endpoint,
                detail: detail@,
            },
            AuthError::TimeOverflow => AuthErrorView::TimeOverflow,
            AuthError::InvalidEndpoint { url } => AuthErrorView::InvalidEndpoint { url: url@ },
        }
    }
}

impl Clone for AuthError {
    fn clone(&self) -> (r: AuthError)
        ensures
            r@ == self@,
    {
        match self {
            AuthError::Transport { endpoint, detail } => AuthError::Transport {
                endpoint: *endpoint,
                detail: detail.clone(),
            },
            AuthError::AuthServer { endpoint, status, code, description } => AuthError::AuthServer {
                endpoint: *endpoint,
                status: *status,
                code: clone_opt(code),
                description: description.clone(),
            },
            AuthError::DeviceCodeExpired => AuthError::DeviceCodeExpired,
            AuthError::AccessDenied => AuthError::AccessDenied,
            AuthError::RefreshUnavailable => AuthError::RefreshUnavailable,
            AuthError::Decode { endpoint, detail } => AuthError::Decode {
                endpoint: *endpoint,
                detail: detail.clone(),
            },
            AuthError::TimeOverflow => AuthError::TimeOverflow,
            AuthError::InvalidEndpoint { url } => AuthError::InvalidEndpoint { url: url.clone() },
        }
    }
}

impl Endpoint {
    /// What the client was doing when the transport failed.
    pub open spec fn transport_context(self) -> Seq<char> {
        match self {
            Endpoint::DeviceCode => "failed to request device code"@,
            Endpoint::Token => "failed to poll token endpoint"@,
            Endpoint::Refresh => "failed to refresh token"@,
        }
    }

    /// How a failure status of this endpoint is announced.
    pub open spec fn failure_context(self) -> Seq<char> {
        match self {
            Endpoint::DeviceCode => "device code request failed: HTTP "@,
            Endpoint::Token => "token endpoint failed: HTTP "@,
            Endpoint::Refresh => "refresh failed: HTTP "@,
        }
    }

    /// What the client could not read in a successful answer.
    pub open spec fn decode_context(self) -> Seq<char> {
        match self {
            Endpoint::DeviceCode => "failed to parse device code JSON"@,
            Endpoint::Token => "failed to parse token JSON"@,
            Endpoint::Refresh => "failed to parse refresh token JSON"@,
        }
    }
}

impl AuthErrorView {
    /// The sentence that tells the user of this failure.
    pub open spec fn message(self) -> Seq<char> {
        match self {
            AuthErrorView::Transport { endpoint, detail } => endpoint.transport_context() + ": "@
                + detail,
            AuthErrorView::AuthServer { endpoint, status, code, description } => match code {
                Some(c) => "oauth error: "@ + c + ": "@ + description,
                None => endpoint.failure_context() + status_line(status) + ": "@ + description,
            },
            AuthErrorView::DeviceCodeExpired => "device code expired; please run login again"@,
            AuthErrorView::AccessDenied => "access denied by user"@,
            AuthErrorView::RefreshUnavailable =>
                "access token expired and no refresh_token is available; run `gemini login`"@,
            AuthErrorView::Decode { endpoint, detail } => endpoint.decode_context() + ": "@
                + detail,
            AuthErrorView::TimeOverflow => "time overflow"@,
            AuthErrorView::InvalidEndpoint { url } => "invalid endpoint URL: "@ + url,
        }
    }

    /// Whether the way out of this failure is to log in again.
    pub open spec fn needs_login(self) -> bool {
        self is DeviceCodeExpired || self is AccessDenied || self is RefreshUnavailable
    }
}

impl AuthError {
    /// The sentence that tells the user of this failure.
    pub fn message(&self) -> (r: String)
        ensures
            r@ == self@.message(),
    {
        match self {
            AuthError::Transport { endpoint, detail } => {
                let mut out = String::from_str(
                    match endpoint {
                        Endpoint::DeviceCode => "failed to request device code",
                        Endpoint::Token => "failed to poll token endpoint",
                        Endpoint::Refresh => "failed to refresh token",
                    },
                );
                out.append(": ");
                out.append(detail.as_str());
                out
            },
            AuthError::AuthServer { endpoint, status, code, description } => match code {
                Some(c) => {
                    let mut out = String::from_str("oauth error: ");
                    out.append(c.as_str());
                    out.append(": ");
                    out.append(description.as_str());
                    out
                },
                None => {
                    let mut out = String::from_str(
                        match endpoint {
                            Endpoint::DeviceCode => "device code request failed: HTTP ",
                            Endpoint::Token => "token endpoint failed: HTTP ",
                            Endpoint::Refresh => "refresh failed: HTTP ",
                        },
                    );
                    let shown = status_text(*status);
                    out.append(shown.as_str());
                    out.append(": ");
                    out.append(description.as_str());
                    out
                },
            },
            AuthError::DeviceCodeExpired => String::from_str(
                "device code expired; please run login again",
            ),
            AuthError::AccessDenied => String::from_str("access denied by user"),
            AuthError::RefreshUnavailable => String::from_str(
                "access token expired and no refresh_token is available; run `gemini login`",
            ),
            AuthError::Decode { endpoint, detail } => {
                let mut out = String::from_str(
                    match endpoint {
                        Endpoint::DeviceCode => "failed to parse device code JSON",
                        Endpoint::Token => "failed to parse token JSON",
                        Endpoint::Refresh => "failed to parse refresh token JSON",
                    },
                );
                out.append(": ");
                out.append(detail.as_str());
                out
            },
            AuthError::TimeOverflow => String::from_str("time overflow"),
            AuthError::InvalidEndpoint { url } => {
                let mut out = String::from_str("invalid endpoint URL: ");
                out.append(url.as_str());
                out
            },
        }
    }

    /// Whether the way out of this failure is to log in again.
    pub fn needs_login(&self) -> (r: bool)
        ensures
            r == self@.needs_login(),
    {
        match self {
            AuthError::DeviceCodeExpired => true,
            AuthError::AccessDenied => true,
            AuthError::RefreshUnavailable => true,
            _ => false,
        }
    }
}

} // verus!
