use gemini_cli::auth::error::AuthError;
use gemini_cli::auth::token::OAuthToken;
use gemini_cli::cli::Args;
use gemini_cli::config::Config;
use gemini_cli::config::ConfigError;
use gemini_cli::config::ConfigFile;
use gemini_cli::config::GoogleConfig;
use gemini_cli::config::OAuthConfig;
use gemini_cli::paths::config_dir;
use gemini_cli::paths::file_in;
use gemini_cli::paths::google_token_path;
use gemini_cli::paths::mcp_servers_path;
use gemini_cli::paths::state_dir;
use gemini_cli::paths::Location;
use gemini_cli::paths::PathError;
use gemini_cli::provider::google::GoogleAuth;
use gemini_cli::provider::types::ChatRequest;
use gemini_cli::setup::api_key_auth;
use gemini_cli::setup::bearer_auth;
use gemini_cli::setup::chat_plan;
use gemini_cli::setup::choose_text;
use gemini_cli::setup::oauth_client;
use gemini_cli::setup::provider_kind;
use gemini_cli::setup::stored_token;
use gemini_cli::setup::tui_plan;
use gemini_cli::setup::ChatPlan;
use gemini_cli::setup::ProviderKind;
use gemini_cli::setup::SetupError;
use gemini_cli::setup::DEFAULT_MODEL;
use gemini_cli::setup::DEFAULT_PROVIDER;
use gemini_cli::setup::DEFAULT_SCOPE;

fn s(text: &str) -> String {
    text.to_string()
}

fn some(text: &str) -> Option<String> {
    Some(text.to_string())
}

fn config() -> Config {
    Config {
        model: some("cfg-model"),
        provider: some("stub"),
        google: GoogleConfig {
            api_key: some("cfg-key"),
            oauth: OAuthConfig {
                client_id: some("cfg-id"),
                client_secret: some("cfg-secret"),
                scopes: Some(vec![s("cfg-scope-1"), s("cfg-scope-2")]),
            },
        },
    }
}

fn args(words: &[&str]) -> Args {
    Args {
        model: None,
        include_directories: vec![s("dir")],
        provider: None,
        cmd: None,
        prompt: words.iter().map(|w| w.to_string()).collect(),
    }
}

fn location(base: &str, below: &[&str]) -> Location {
    Location { base: s(base), below: below.iter().map(|b| b.to_string()).collect() }
}

#[test]
fn provider_names() {
    assert_eq!(provider_kind("google"), Ok(ProviderKind::Google));
    assert_eq!(provider_kind("stub"), Ok(ProviderKind::Stub));
    assert_eq!(provider_kind("Google"), Err(SetupError::UnknownProvider { name: s("Google") }));
    assert_eq!(provider_kind(""), Err(SetupError::UnknownProvider { name: s("") }));
}

#[test]
fn chat_plan_uses_defaults() {
    let plan = chat_plan(args(&["hello", "world"]), None).unwrap();
    assert_eq!(
        plan,
        ChatPlan {
            provider: s("google"),
            request: ChatRequest {
                model: s("gemini-1.5-flash"),
                prompt: s("hello world"),
                include_directories: vec![s("dir")],
            },
        }
    );
    assert_eq!(DEFAULT_MODEL, "gemini-1.5-flash");
    assert_eq!(DEFAULT_PROVIDER, "google");
}

#[test]
fn chat_plan_prefers_the_configuration_over_defaults() {
    let cfg = config();
    let plan = chat_plan(args(&["hi"]), Some(&cfg)).unwrap();
    assert_eq!(plan.provider, "stub");
    assert_eq!(plan.request.model, "cfg-model");
}

#[test]
fn chat_plan_prefers_the_command_line_over_the_configuration() {
    let cfg = config();
    let mut a = args(&["hi"]);
    a.model = some("arg-model");
    a.provider = some("google");
    let plan = chat_plan(a, Some(&cfg)).unwrap();
    assert_eq!(plan.provider, "google");
    assert_eq!(plan.request.model, "arg-model");
}

#[test]
fn chat_plan_needs_a_prompt() {
    assert_eq!(chat_plan(args(&[]), None), Err(SetupError::NoPrompt));
    assert_eq!(chat_plan(args(&["", " ", "\t"]), None), Err(SetupError::NoPrompt));
    assert!(chat_plan(args(&["", "x"]), None).is_ok());
}

#[test]
fn chat_plan_keeps_the_prompt_as_joined() {
    let plan = chat_plan(args(&[" a", "", "b "]), None).unwrap();
    assert_eq!(plan.request.prompt, " a  b ");
}

#[test]
fn tui_plan_ignores_nothing_but_takes_the_configured_provider() {
    let cfg = config();
    assert_eq!(tui_plan(Some(&cfg), None), (s("stub"), s("cfg-model")));
    assert_eq!(tui_plan(Some(&cfg), some("override")), (s("stub"), s("override")));
    assert_eq!(tui_plan(None, None), (s("google"), s("gemini-1.5-flash")));
    assert_eq!(tui_plan(None, some("m")), (s("google"), s("m")));
}

#[test]
fn choose_text_takes_the_first_that_is_there() {
    assert_eq!(choose_text(some("a"), some("b"), "c"), "a");
    assert_eq!(choose_text(None, some("b"), "c"), "b");
    assert_eq!(choose_text(some("a"), None, "c"), "a");
    assert_eq!(choose_text(None, None, "c"), "c");
}

#[test]
fn oauth_client_prefers_the_environment() {
    let cfg = config();
    let client = oauth_client(some("env-id"), some("env-secret"), Some(&cfg), false).unwrap();
    assert_eq!(client.client_id, "env-id");
    assert_eq!(client.client_secret, some("env-secret"));
    assert_eq!(client.scopes, vec![s("cfg-scope-1"), s("cfg-scope-2")]);
    assert_eq!(client.token_url, "https://oauth2.googleapis.com/token");
}

#[test]
fn oauth_client_falls_back_to_the_configuration() {
    let cfg = config();
    let client = oauth_client(None, None, Some(&cfg), true).unwrap();
    assert_eq!(client.client_id, "cfg-id");
    assert_eq!(client.client_secret, some("cfg-secret"));
}

#[test]
fn oauth_client_uses_the_default_scope() {
    let client = oauth_client(some("env-id"), None, None, false).unwrap();
    assert_eq!(client.client_secret, None);
    assert_eq!(client.scopes, vec![s("https://www.googleapis.com/auth/generative-language")]);
    assert_eq!(DEFAULT_SCOPE, "https://www.googleapis.com/auth/generative-language");
}

#[test]
fn oauth_client_needs_a_client_id() {
    let e = oauth_client(None, some("secret"), None, false).unwrap_err();
    assert_eq!(e, SetupError::MissingClientId { refreshing: false });
    assert_eq!(
        e.message(),
        "missing OAuth client id (set GEMINI_OAUTH_CLIENT_ID or config.toml google.oauth.client_id)"
    );
    let cfg = Config::default();
    let e = oauth_client(None, None, Some(&cfg), true).unwrap_err();
    assert_eq!(e, SetupError::MissingClientId { refreshing: true });
    assert_eq!(
        e.message(),
        "missing OAuth client id for refresh (set GEMINI_OAUTH_CLIENT_ID or config.toml)"
    );
}

#[test]
fn api_key_from_environment_or_configuration() {
    let cfg = config();
    assert_eq!(api_key_auth(some("env-key"), Some(&cfg)), Some(GoogleAuth::ApiKey(s("env-key"))));
    assert_eq!(api_key_auth(None, Some(&cfg)), Some(GoogleAuth::ApiKey(s("cfg-key"))));
    assert_eq!(api_key_auth(None, None), None);
    assert_eq!(api_key_auth(None, Some(&Config::default())), None);
}

#[test]
fn stored_token_or_instructions() {
    let t = OAuthToken {
        access_token: s("at"),
        token_type: s("Bearer"),
        scope: None,
        refresh_token: None,
        obtained_at: 1,
        expires_in: None,
    };
    assert_eq!(stored_token(Some(t.clone()), "/p"), Ok(t.clone()));
    let e = stored_token(None, "/state/google_oauth_token.json").unwrap_err();
    assert_eq!(e, SetupError::NoCredentials { token_path: s("/state/google_oauth_token.json") });
    assert_eq!(
        e.message(),
        "No API key or OAuth token found. Set GEMINI_API_KEY or run `gemini login`. (token path: /state/google_oauth_token.json)"
    );
    assert_eq!(bearer_auth(&t), GoogleAuth::BearerToken(s("at")));
}

#[test]
fn setup_error_messages() {
    assert_eq!(SetupError::UnknownProvider { name: s("x") }.message(), "unknown provider: x");
    assert_eq!(
        SetupError::NoPrompt.message(),
        "No prompt provided. Try: gemini \"Hello\" or `gemini tui` (feature flag)"
    );
    assert_eq!(SetupError::Auth(AuthError::AccessDenied).message(), "access denied by user");
}

#[test]
fn config_directory_choice() {
    assert_eq!(
        config_dir(some("/gh"), some("/xdg"), some("/home/u")),
        Ok(location("/gh", &["config"]))
    );
    assert_eq!(config_dir(None, some("/xdg"), some("/home/u")), Ok(location("/xdg", &["gemini"])));
    assert_eq!(
        config_dir(None, None, some("/home/u")),
        Ok(location("/home/u", &[".config", "gemini"]))
    );
    assert_eq!(config_dir(None, None, None), Err(PathError::HomeNotSet));
    assert_eq!(PathError::HomeNotSet.message(), "HOME is not set");
}

#[test]
fn state_directory_choice() {
    assert_eq!(
        state_dir(some("/gh"), some("/xdg"), some("/home/u")),
        Ok(location("/gh", &["state"]))
    );
    assert_eq!(state_dir(None, some("/xdg"), None), Ok(location("/xdg", &["gemini"])));
    assert_eq!(
        state_dir(None, None, some("/home/u")),
        Ok(location("/home/u", &[".local", "state", "gemini"]))
    );
    assert_eq!(state_dir(None, None, None), Err(PathError::HomeNotSet));
}

#[test]
fn files_in_the_state_directory() {
    let state = location("/home/u", &[".local", "state", "gemini"]);
    assert_eq!(
        google_token_path(state.clone()),
        location("/home/u", &[".local", "state", "gemini", "google_oauth_token.json"])
    );
    assert_eq!(
        mcp_servers_path(state.clone()),
        location("/home/u", &[".local", "state", "gemini", "mcp_servers.json"])
    );
    assert_eq!(file_in(location("/x", &[]), "f"), location("/x", &["f"]));
}

#[test]
fn missing_config_file_is_no_config() {
    assert_eq!(Config::load_optional("/c/config.toml", ConfigFile::Missing), Ok(None));
}

#[test]
fn found_config_is_returned() {
    let cfg = config();
    assert_eq!(
        Config::load_optional("/c/config.toml", ConfigFile::Found(cfg.clone())),
        Ok(Some(cfg))
    );
}

#[test]
fn config_failures() {
    let e = Config::load_optional("/c/config.toml", ConfigFile::Unreadable(s("denied")))
        .unwrap_err();
    assert_eq!(e, ConfigError::Read { path: s("/c/config.toml"), detail: s("denied") });
    assert_eq!(e.message(), "failed to read config: /c/config.toml: denied");
    let e = Config::load_optional("/c/config.toml", ConfigFile::NotText(s("byte 3"))).unwrap_err();
    assert_eq!(e, ConfigError::NotText { detail: s("byte 3") });
    assert_eq!(e.message(), "config is not valid UTF-8: byte 3");
    let e = Config::load_optional("/c/config.toml", ConfigFile::Malformed(s("line 1")))
        .unwrap_err();
    assert_eq!(e, ConfigError::Parse { path: s("/c/config.toml"), detail: s("line 1") });
    assert_eq!(e.message(), "failed to parse TOML: /c/config.toml: line 1");
}

#[test]
fn default_config_sets_nothing() {
    let cfg = Config::default();
    assert_eq!(cfg.model, None);
    assert_eq!(cfg.provider, None);
    assert_eq!(cfg.google.api_key, None);
    assert_eq!(cfg.google.oauth.client_id, None);
    assert_eq!(cfg.google.oauth.client_secret, None);
    assert_eq!(cfg.google.oauth.scopes, None);
}
