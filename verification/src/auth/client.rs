//! The client's registration with the authorization server.

use vstd::prelude::*;
use vstd::string::*;

use crate::auth::error::AuthError;
use crate::auth::error::AuthErrorView;
use crate::text::clone_opt;
use crate::text::clone_strings;
use crate::text::opt_text;
use crate::text::result_view;
use crate::text::texts;
use crate::web::normalize_url;
use crate::web::url_normalized;

verus! {

/// Where Google hands out device codes.
pub const GOOGLE_DEVICE_CODE_URL: &'static str = "https://oauth2.googleapis.com/device/code";

/// Where Google hands out and refreshes tokens.
pub const GOOGLE_TOKEN_URL: &'static str = "https://oauth2.googleapis.com/token";

/// A client as the authorization server knows it, and the server's two endpoints.
#[derive(Debug, PartialEq, Eq)]
pub struct OAuthClient {
    pub client_id: String,
    pub client_secret: Option<String>,
    pub scopes: Vec<String>,
    /// The device-code endpoint, a URL in normal form.
    pub device_code_url: String,
    /// The token endpoint, a URL in normal form.
    pub token_url: String,
}

/// An [`OAuthClient`] with its texts as sequences of characters.
pub struct OAuthClientView {
    pub client_id: Seq<char>,
    pub client_secret: Option<Seq<char>>,
    pub scopes: Seq<Seq<char>>,
    pub device_code_url: Seq<char>,
    pub token_url: Seq<char>,
}

impl View for OAuthClient {
    type V = OAuthClientView;

    open spec fn view(&self) -> OAuthClientView {
        OAuthClientView {
            client_id: self.client_id@,
            client_secret: opt_text(self.client_secret),
            scopes: texts(self.scopes@),
            device_code_url: self.device_code_url@,
            token_url: self.token_url@,
        }
    }
}

impl Clone for OAuthClient {
    fn clone(&self) -> (r: OAuthClient)
        ensures
            r@ == self@,
    {
        OAuthClient {
            client_id: self.client_id.clone(),
            client_secret: clone_opt(&self.client_secret),
            scopes: clone_strings(&self.scopes),
            device_code_url: self.device_code_url.clone(),
            token_url: self.token_url.clone(),
        }
    }
}

/// The client for an authorization server with the given endpoints, or
/// the endpoint that is no URL.
pub open spec fn client_for(
    client_id: Seq<char>,
    client_secret: Option<Seq<char>>,
    scopes: Seq<Seq<char>>,
    device_code_url: Seq<char>,
    token_url: Seq<char>,
) -> Result<OAuthClientView, AuthErrorView> {
    match url_normalized(device_code_url) {
        None => Err(AuthErrorView::InvalidEndpoint { url: device_code_url }),
        Some(device_code_url) => match url_normalized(token_url) {
            None => Err(AuthErrorView::InvalidEndpoint { url: token_url }),
            Some(token_url) => Ok(
                OAuthClientView { client_id, client_secret, scopes, device_code_url, token_url },
            ),
        },
    }
}

/// The client that [`OAuthClient::google_device_flow`] makes.
pub open spec fn google_client(
    client_id: Seq<char>,
    client_secret: Option<Seq<char>>,
    scopes: Seq<Seq<char>>,
) -> Result<OAuthClientView, AuthErrorView> {
    client_for(client_id, client_secret, scopes, GOOGLE_DEVICE_CODE_URL@, GOOGLE_TOKEN_URL@)
}

impl OAuthClient {
    /// A client of the device authorization flow of the server with the
    /// given endpoints. The endpoints are kept in normal form.
    pub fn for_endpoints(
        client_id: String,
        client_secret: Option<String>,
        scopes: Vec<String>,
        device_code_url: &str,
        token_url: &str,
    ) -> (r: Result<OAuthClient, AuthError>)
        ensures
            result_view(r) == client_for(
                client_id@,
                opt_text(client_secret),
                texts(scopes@),
                device_code_url@,
                token_url@,
            ),
    {
        let device_code_url = match normalize_url(device_code_url) {
            Some(url) => url,
            None => {
                return Err(AuthError::InvalidEndpoint { url: String::from_str(device_code_url) });
            },
        };
        let token_url = match normalize_url(token_url) {
            Some(url) => url,
            None => {
                return Err(AuthError::InvalidEndpoint { url: String::from_str(token_url) });
            },
        };
        Ok(OAuthClient { client_id, client_secret, scopes, device_code_url, token_url })
    }

    /// A client of Google's device authorization flow.
    pub fn google_device_flow(
        client_id: String,
        client_secret: Option<String>,
        scopes: Vec<String>,
    ) -> (r: Result<OAuthClient, AuthError>)
        ensures
            result_view(r) == google_client(client_id@, opt_text(client_secret), texts(scopes@)),
    {
        OAuthClient::for_endpoints(
            client_id,
            client_secret,
            scopes,
            GOOGLE_DEVICE_CODE_URL,
            GOOGLE_TOKEN_URL,
        )
    }
}

} // verus!
