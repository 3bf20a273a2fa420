//! From command line, configuration and environment to a provider and a
//! request: which model, which provider, which credential.
//!
//! What the environment holds comes in as plain values; a value from the
//! environment wins over one from the configuration.

use vstd::prelude::*;
use vstd::string::*;

use crate::auth::client::google_client;
use crate::auth::client::OAuthClient;
use crate::auth::client::OAuthClientView;
use crate::auth::error::AuthError;
use crate::auth::error::AuthErrorView;
use crate::auth::token::OAuthToken;
use crate::cli::Args;
use crate::config::config_view;
use crate::config::Config;
use crate::config::ConfigView;
use crate::provider::google::GoogleAuth;
use crate::provider::google::GoogleAuthView;
use crate::provider::types::ChatRequest;
use crate::provider::types::ChatRequestView;
use crate::text::clone_opt;
use crate::text::clone_strings;
use crate::text::first_of;
use crate::text::first_present;
use crate::text::is_blank;
use crate::text::join;
use crate::text::joined;
use crate::text::opt_text;
use crate::text::result_view;
use crate::text::str_eq;
use crate::text::texts;
use crate::text::trimmed;

verus! {

/// The model that is asked where neither command line nor configuration names one.
pub const DEFAULT_MODEL: &'static str = "gemini-1.5-flash";

/// The provider that is used where neither command line nor configuration names one.
pub const DEFAULT_PROVIDER: &'static str = "google";

/// The scope that is asked for where the configuration names none.
pub const DEFAULT_SCOPE: &'static str = "https://www.googleapis.com/auth/generative-language";

/// The providers that there are.
#[derive(Clone, Copy, Debug, PartialEq, Eq, Structural)]
pub enum ProviderKind {
    /// The hosted service.
    Google,
    /// The stand-in that needs no network.
    Stub,
}

/// Why a run cannot start.
#[derive(Debug, PartialEq, Eq)]
pub enum SetupError {
    /// There is no provider of this name.
    UnknownProvider { name: String },
    /// There is neither an API key nor a saved token.
    NoCredentials { token_path: String },
    /// Nothing names the OAuth client. `refreshing` tells whether the
    /// client was needed to refresh a token, or to log in.
    MissingClientId { refreshing: bool },
    /// The command line holds no question.
    NoPrompt,
    /// The OAuth client could not be made.
    Auth(AuthError),
}

/// A [`SetupError`] with its texts as sequences of characters.
pub enum SetupErrorView {
    UnknownProvider { name: Seq<char> },
    NoCredentials { token_path: Seq<char> },
    MissingClientId { refreshing: bool },
    NoPrompt,
    Auth(AuthErrorView),
}

impl View for SetupError {
    type V = SetupErrorView;

    open spec fn view(&self) -> SetupErrorView {
        match *self {
            SetupError::UnknownProvider { name } => SetupErrorView::UnknownProvider { name: name@ },
            SetupError::NoCredentials { token_path } => SetupErrorView::NoCredentials {
                token_path: token_path@,
            },
            SetupError::MissingClientId { refreshing } => SetupErrorView::MissingClientId {
                refreshing,
            },
            SetupError::NoPrompt => SetupErrorView::NoPrompt,
            SetupError::Auth(e) => SetupErrorView::Auth(e@),
        }
    }
}

impl SetupErrorView {
    /// The sentence that tells the user what to do.
    pub open spec fn message(self) -> Seq<char> {
        match self {
            SetupErrorView::UnknownProvider { name } => "unknown provider: "@ + name,
            SetupErrorView::NoCredentials { token_path } =>
                "No API key or OAuth token found. Set GEMINI_API_KEY or run `gemini login`. (token path: "@
                + token_path + ")"@,
            SetupErrorView::MissingClientId { refreshing } => if refreshing {
                "missing OAuth client id for refresh (set GEMINI_OAUTH_CLIENT_ID or config.toml)"@
            } else {
                "missing OAuth client id (set GEMINI_OAUTH_CLIENT_ID or config.toml google.oauth.client_id)"@
            },
            SetupErrorView::NoPrompt =>
                "No prompt provided. Try: gemini \"Hello\" or `gemini tui` (feature flag)"@,
            SetupErrorView::Auth(e) => e.message(),
        }
    }
}

impl SetupError {
    /// The sentence that tells the user what to do.
    pub fn message(&self) -> (r: String)
        ensures
            r@ == self@.message(),
    {
        match self {
            SetupError::UnknownProvider { name } => {
                let mut out = String::from_str("unknown provider: ");
                out.append(name.as_str());
                out
            },
            SetupError::NoCredentials { token_path } => {
                let mut out = String::from_str(
                    "No API key or OAuth token found. Set GEMINI_API_KEY or run `gemini login`. (token path: ",
                );
                out.append(token_path.as_str());
                out.append(")");
                out
            },
            SetupError::MissingClientId { refreshing } => if *refreshing {
                String::from_str(
                    "missing OAuth client id for refresh (set GEMINI_OAUTH_CLIENT_ID or config.toml)",
                )
            } else {
                String::from_str(
                    "missing OAuth client id (set GEMINI_OAUTH_CLIENT_ID or config.toml google.oauth.client_id)",
                )
            },
            SetupError::NoPrompt => String::from_str(
                "No prompt provided. Try: gemini \"Hello\" or `gemini tui` (feature flag)",
            ),
            SetupError::Auth(e) => e.message(),
        }
    }
}

/// A question and the provider that is to answer it.
#[derive(Debug, PartialEq, Eq)]
pub struct ChatPlan {
    pub provider: String,
    pub request: ChatRequest,
}

/// A [`ChatPlan`] with its texts as sequences of characters.
pub struct ChatPlanView {
    pub provider: Seq<char>,
    pub request: ChatRequestView,
}

impl View for ChatPlan {
    type V = ChatPlanView;

    open spec fn view(&self) -> ChatPlanView {
        ChatPlanView { provider: self.provider@, request: self.request@ }
    }
}

/// The kind of the provider of a name.
pub open spec fn kind_of(name: Seq<char>) -> Result<ProviderKind, SetupErrorView> {
    if name == "google"@ {
        Ok(ProviderKind::Google)
    } else if name == "stub"@ {
        Ok(ProviderKind::Stub)
    } else {
        Err(SetupErrorView::UnknownProvider { name })
    }
}

/// What [`provider_kind`] returns, with its texts as sequences of characters.
pub open spec fn kind_view(r: Result<ProviderKind, SetupError>) -> Result<
    ProviderKind,
    SetupErrorView,
> {
    match r {
        Ok(kind) => Ok(kind),
        Err(e) => Err(e@),
    }
}

/// `first` if it is there, else `second` if it is there, else `fallback`.
pub open spec fn chosen(
    first: Option<Seq<char>>,
    second: Option<Seq<char>>,
    fallback: Seq<char>,
) -> Seq<char> {
    match first_of(first, second) {
        Some(text) => text,
        None => fallback,
    }
}

/// The question that a command line asks, and of whom: the words of the
/// prompt joined by single spaces; model and provider from the command
/// line, else from the configuration, else the defaults.
pub open spec fn chat_planned(
    model: Option<Seq<char>>,
    provider: Option<Seq<char>>,
    include_directories: Seq<Seq<char>>,
    words: Seq<Seq<char>>,
    config: ConfigView,
) -> Result<ChatPlanView, SetupErrorView> {
    if trimmed(joined(words, " "@)).len() == 0 {
        Err(SetupErrorView::NoPrompt)
    } else {
        Ok(
            ChatPlanView {
                provider: chosen(provider, config.provider, DEFAULT_PROVIDER@),
                request: ChatRequestView {
                    model: chosen(model, config.model, DEFAULT_MODEL@),
                    prompt: joined(words, " "@),
                    include_directories,
                },
            },
        )
    }
}

/// The scopes to ask for: those of the configuration, else the default one.
pub open spec fn scopes_chosen(config: ConfigView) -> Seq<Seq<char>> {
    match config.oauth.scopes {
        Some(scopes) => scopes,
        None => seq![DEFAULT_SCOPE@],
    }
}

/// The OAuth client that environment and configuration describe.
pub open spec fn client_described(
    env_client_id: Option<Seq<char>>,
    env_client_secret: Option<Seq<char>>,
    config: ConfigView,
    refreshing: bool,
) -> Result<OAuthClientView, SetupErrorView> {
    match first_of(env_client_id, config.oauth.client_id) {
        None => Err(SetupErrorView::MissingClientId { refreshing }),
        Some(client_id) => match google_client(
            client_id,
            first_of(env_client_secret, config.oauth.client_secret),
            scopes_chosen(config),
        ) {
            Ok(client) => Ok(client),
            Err(e) => Err(SetupErrorView::Auth(e)),
        },
    }
}

/// `first` if it is there, else `second` if it is there, else `fallback`.
pub fn choose_text(first: Option<String>, second: Option<String>, fallback: &str) -> (r: String)
    ensures
        r@ == chosen(opt_text(first), opt_text(second), fallback@),
{
    match first_present(first, second) {
        Some(text) => text,
        None => String::from_str(fallback),
    }
}

/// Tells which provider a name stands for.
pub fn provider_kind(name: &str) -> (r: Result<ProviderKind, SetupError>)
    ensures
        kind_view(r) == kind_of(name@),
{
    if str_eq(name, "google") {
        Ok(ProviderKind::Google)
    } else if str_eq(name, "stub") {
        Ok(ProviderKind::Stub)
    } else {
        Err(SetupError::UnknownProvider { name: String::from_str(name) })
    }
}

/// Makes the question of a command line, and names its provider.
pub fn chat_plan(args: Args, config: Option<&Config>) -> (r: Result<ChatPlan, SetupError>)
    ensures
        result_view(r) == chat_planned(
            opt_text(args.model),
            opt_text(args.provider),
            texts(args.include_directories@),
            texts(args.prompt@),
            config_view(config),
        ),
{
    let prompt = join(&args.prompt, " ");
    if is_blank(prompt.as_str()) {
        return Err(SetupError::NoPrompt);
    }
    let (config_model, config_provider) = match config {
        Some(c) => (clone_opt(&c.model), clone_opt(&c.provider)),
        None => (None, None),
    };
    let model = choose_text(args.model, config_model, DEFAULT_MODEL);
    let provider = choose_text(args.provider, config_provider, DEFAULT_PROVIDER);
    Ok(
        ChatPlan {
            provider,
            request: ChatRequest { model, prompt, include_directories: args.include_directories },
        },
    )
}

/// The provider and the model of a chat in the terminal: the provider
/// from the configuration, else the default; the model from the command
/// line, else from the configuration, else the default.
pub fn tui_plan(config: Option<&Config>, model_override: Option<String>) -> (r: (String, String))
    ensures
        r.0@ == chosen(None, config_view(config).provider, DEFAULT_PROVIDER@),
        r.1@ == chosen(opt_text(model_override), config_view(config).model, DEFAULT_MODEL@),
{
    let (config_model, config_provider) = match config {
        Some(c) => (clone_opt(&c.model), clone_opt(&c.provider)),
        None => (None, None),
    };
    let provider = choose_text(None, config_provider, DEFAULT_PROVIDER);
    let model = choose_text(model_override, config_model, DEFAULT_MODEL);
    (provider, model)
}

/// Makes the OAuth client from `GEMINI_OAUTH_CLIENT_ID`,
/// `GEMINI_OAUTH_CLIENT_SECRET` and the configuration.
pub fn oauth_client(
    env_client_id: Option<String>,
    env_client_secret: Option<String>,
    config: Option<&Config>,
    refreshing: bool,
) -> (r: Result<OAuthClient, SetupError>)
    ensures
        result_view(r) == client_described(
            opt_text(env_client_id),
            opt_text(env_client_secret),
            config_view(config),
            refreshing,
        ),
{
    let (config_id, config_secret, config_scopes) = match config {
        Some(c) => (
            clone_opt(&c.google.oauth.client_id),
            clone_opt(&c.google.oauth.client_secret),
            match &c.google.oauth.scopes {
                Some(scopes) => Some(clone_strings(scopes)),
                None => None,
            },
        ),
        None => (None, None, None),
    };
    let client_id = match first_present(env_client_id, config_id) {
        Some(id) => id,
        None => {
            return Err(SetupError::MissingClientId { refreshing });
        },
    };
    let client_secret = first_present(env_client_secret, config_secret);
    let scopes = match config_scopes {
        Some(scopes) => scopes,
        None => {
            let mut scopes: Vec<String> = Vec::new();
            scopes.push(String::from_str(DEFAULT_SCOPE));
            assert(texts(scopes@) =~= seq![DEFAULT_SCOPE@]);
            scopes
        },
    };
    match OAuthClient::google_device_flow(client_id, client_secret, scopes) {
        Ok(client) => Ok(client),
        Err(e) => Err(SetupError::Auth(e)),
    }
}

/// The credential that an API key gives, from `GEMINI_API_KEY` and the
/// configuration; `None` where neither holds a key.
pub fn api_key_auth(env_api_key: Option<String>, config: Option<&Config>) -> (r: Option<GoogleAuth>)
    ensures
        match first_of(opt_text(env_api_key), config_view(config).api_key) {
            Some(key) => r matches Some(auth) && auth@ == GoogleAuthView::ApiKey(key),
            None => r is None,
        },
{
    let config_key = match config {
        Some(c) => clone_opt(&c.google.api_key),
        None => None,
    };
    match first_present(env_api_key, config_key) {
        Some(key) => Some(GoogleAuth::ApiKey(key)),
        None => None,
    }
}

/// The saved token, or the failure that tells the user how to get one.
pub fn stored_token(loaded: Option<OAuthToken>, token_path: &str) -> (r: Result<
    OAuthToken,
    SetupError,
>)
    ensures
        match loaded {
            Some(token) => r matches Ok(t) && t@ == token@,
            None => r matches Err(e) && e@ == (SetupErrorView::NoCredentials {
                token_path: token_path@,
            }),
        },
{
    match loaded {
        Some(token) => Ok(token),
        None => Err(SetupError::NoCredentials { token_path: String::from_str(token_path) }),
    }
}

/// The credential that a token gives: its access token, as a bearer token.
pub fn bearer_auth(token: &OAuthToken) -> (r: GoogleAuth)
    ensures
        r@ == GoogleAuthView::BearerToken(token@.access_token),
{
    GoogleAuth::BearerToken(token.access_token.clone())
}

/// What the environment says wins over what the configuration says,
/// and the default is used only where both are silent.
pub proof fn lemma_environment_wins(
    first: Option<Seq<char>>,
    second: Option<Seq<char>>,
    fallback: Seq<char>,
)
    ensures
        first matches Some(text) ==> chosen(first, second, fallback) == text,
        first is None ==> (second matches Some(text) ==> chosen(first, second, fallback) == text),
        first is None && second is None ==> chosen(first, second, fallback) == fallback,
{
}

} // verus!
