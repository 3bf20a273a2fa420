//! The configuration file: what it may set, and what a read of it amounts to.

use vstd::prelude::*;
use vstd::string::*;

use crate::text::clone_opt;
use crate::text::clone_strings;
use crate::text::opt_text;
use crate::text::texts;

verus! {

/// What the configuration says of the OAuth client.
#[derive(Debug, PartialEq, Eq)]
pub struct OAuthConfig {
    pub client_id: Option<String>,
    pub client_secret: Option<String>,
    pub scopes: Option<Vec<String>>,
}

/// What the configuration says of the hosted service.
#[derive(Debug, PartialEq, Eq)]
pub struct GoogleConfig {
    pub api_key: Option<String>,
    pub oauth: OAuthConfig,
}

/// The configuration. Everything in it is optional.
#[derive(Debug, PartialEq, Eq)]
pub struct Config {
    /// The model to ask where the command line names none.
    pub model: Option<String>,
    /// The provider to use where the command line names none.
    pub provider: Option<String>,
    /// Credentials for the hosted service.
    pub google: GoogleConfig,
}

/// An [`OAuthConfig`] with its texts as sequences of characters.
pub struct OAuthConfigView {
    pub client_id: Option<Seq<char>>,
    pub client_secret: Option<Seq<char>>,
    pub scopes: Option<Seq<Seq<char>>>,
}

/// A [`Config`] with its texts as sequences of characters.
pub struct ConfigView {
    pub model: Option<Seq<char>>,
    pub provider: Option<Seq<char>>,
    pub api_key: Option<Seq<char>>,
    pub oauth: OAuthConfigView,
}

impl View for OAuthConfig {
    type V = OAuthConfigView;

    open spec fn view(&self) -> OAuthConfigView {
        OAuthConfigView {
            client_id: opt_text(self.client_id),
            client_secret: opt_text(self.client_secret),
            scopes: match self.scopes {
                Some(scopes) => Some(texts(scopes@)),
                None => None,
            },
        }
    }
}

impl View for Config {
    type V = ConfigView;

    open spec fn view(&self) -> ConfigView {
        ConfigView {
            model: opt_text(self.model),
            provider: opt_text(self.provider),
            api_key: opt_text(self.google.api_key),
            oauth: self.google.oauth@,
        }
    }
}

impl ConfigView {
    /// The configuration that sets nothing.
    pub open spec fn empty() -> ConfigView {
        ConfigView {
            model: None,
            provider: None,
            api_key: None,
            oauth: OAuthConfigView { client_id: None, client_secret: None, scopes: None },
        }
    }
}

/// The view of a configuration that may not be there: one that is not
/// there sets nothing.
pub open spec fn config_view(config: Option<&Config>) -> ConfigView {
    match config {
        Some(c) => c@,
        None => ConfigView::empty(),
    }
}

impl Default for Config {
    fn default() -> (r: Config)
        ensures
            r@ == ConfigView::empty(),
    {
        Config {
            model: None,
            provider: None,
            google: GoogleConfig {
                api_key: None,
                oauth: OAuthConfig { client_id: None, client_secret: None, scopes: None },
            },
        }
    }
}

impl Clone for Config {
    fn clone(&self) -> (r: Config)
        ensures
            r@ == self@,
    {
        Config {
            model: clone_opt(&self.model),
            provider: clone_opt(&self.provider),
            google: GoogleConfig {
                api_key: clone_opt(&self.google.api_key),
                oauth: OAuthConfig {
                    client_id: clone_opt(&self.google.oauth.client_id),
                    client_secret: clone_opt(&self.google.oauth.client_secret),
                    scopes: match &self.google.oauth.scopes {
                        Some(scopes) => Some(clone_strings(scopes)),
                        None => None,
                    },
                },
            },
        }
    }
}

/// What a read of the configuration file gave.
#[derive(Debug, PartialEq, Eq)]
pub enum ConfigFile {
    /// There is no such file.
    Missing,
    /// The file could not be read, for the reason given.
    Unreadable(String),
    /// The file is not UTF-8, for the reason given.
    NotText(String),
    /// The file is not the TOML of a configuration, for the reason given.
    Malformed(String),
    /// The file holds this configuration.
    Found(Config),
}

/// A [`ConfigFile`] with its texts as sequences of characters.
pub enum ConfigFileView {
    Missing,
    Unreadable(Seq<char>),
    NotText(Seq<char>),
    Malformed(Seq<char>),
    Found(ConfigView),
}

impl View for ConfigFile {
    type V = ConfigFileView;

    open spec fn view(&self) -> ConfigFileView {
        match *self {
            ConfigFile::Missing => ConfigFileView::Missing,
            ConfigFile::Unreadable(detail) => ConfigFileView::Unreadable(detail@),
            ConfigFile::NotText(detail) => ConfigFileView::NotText(detail@),
            ConfigFile::Malformed(detail) => ConfigFileView::Malformed(detail@),
            ConfigFile::Found(config) => ConfigFileView::Found(config@),
        }
    }
}

/// Why the configuration could not be loaded.
#[derive(Debug, PartialEq, Eq)]
pub enum ConfigError {
    /// The file is there and could not be read.
    Read { path: String, detail: String },
    /// The file is not UTF-8.
    NotText { detail: String },
    /// The file is not the TOML of a configuration.
    Parse { path: String, detail: String },
}

/// A [`ConfigError`] with its texts as sequences of characters.
pub enum ConfigErrorView {
    Read { path: Seq<char>, detail: Seq<char> },
    NotText { detail: Seq<char> },
    Parse { path: Seq<char>, detail: Seq<char> },
}

impl View for ConfigError {
    type V = ConfigErrorView;

    open spec fn view(&self) -> ConfigErrorView {
        match *self {
            ConfigError::Read { path, detail } => ConfigErrorView::Read {
                path: path@,
                detail: detail@,
            },
            ConfigError::NotText { detail } => ConfigErrorView::NotText { detail: detail@ },
            ConfigError::Parse { path, detail } => ConfigErrorView::Parse {
                path: path@,
                detail: detail@,
            },
        }
    }
}

impl ConfigErrorView {
    /// The sentence that tells the user of this failure.
    pub open spec fn message(self) -> Seq<char> {
        match self {
            ConfigErrorView::Read { path, detail } => "failed to read config: "@ + path + ": "@
                + detail,
            ConfigErrorView::NotText { detail } => "config is not valid UTF-8: "@ + detail,
            ConfigErrorView::Parse { path, detail } => "failed to parse TOML: "@ + path + ": "@
                + detail,
        }
    }
}

impl ConfigError {
    /// The sentence that tells the user of this failure.
    pub fn message(&self) -> (r: String)
        ensures
            r@ == self@.message(),
    {
        match self {
            ConfigError::Read { path, detail } => {
                let mut out = String::from_str("failed to read config: ");
                out.append(path.as_str());
                out.append(": ");
                out.append(detail.as_str());
                out
            },
            ConfigError::NotText { detail } => {
                let mut out = String::from_str("config is not valid UTF-8: ");
                out.append(detail.as_str());
                out
            },
            ConfigError::Parse { path, detail } => {
                let mut out = String::from_str("failed to parse TOML: ");
                out.append(path.as_str());
                out.append(": ");
                out.append(detail.as_str());
                out
            },
        }
    }
}

/// What a read of the configuration file at `path` amounts to.
pub open spec fn config_loaded(path: Seq<char>, read: ConfigFileView) -> Result<
    Option<ConfigView>,
    ConfigErrorView,
> {
    match read {
        ConfigFileView::Missing => Ok(None),
        ConfigFileView::Unreadable(detail) => Err(ConfigErrorView::Read { path, detail }),
        ConfigFileView::NotText(detail) => Err(ConfigErrorView::NotText { detail }),
        ConfigFileView::Malformed(detail) => Err(ConfigErrorView::Parse { path, detail }),
        ConfigFileView::Found(config) => Ok(Some(config)),
    }
}

/// What [`Config::load_optional`] returns, with its texts as sequences of characters.
pub open spec fn config_load_view(r: Result<Option<Config>, ConfigError>) -> Result<
    Option<ConfigView>,
    ConfigErrorView,
> {
    match r {
        Ok(Some(config)) => Ok(Some(config@)),
        Ok(None) => Ok(None),
        Err(e) => Err(e@),
    }
}

impl Config {
    /// Says what a read of the configuration file at `path` amounts to:
    /// no configuration where there is no file, a failure where the file
    /// cannot be read or understood.
    pub fn load_optional(path: &str, read: ConfigFile) -> (r: Result<Option<Config>, ConfigError>)
        ensures
            config_load_view(r) == config_loaded(path@, read@),
    {
        match read {
            ConfigFile::Missing => Ok(None),
            ConfigFile::Unreadable(detail) => Err(
                ConfigError::Read { path: String::from_str(path), detail },
            ),
            ConfigFile::NotText(detail) => Err(ConfigError::NotText { detail }),
            ConfigFile::Malformed(detail) => Err(
                ConfigError::Parse { path: String::from_str(path), detail },
            ),
            ConfigFile::Found(config) => Ok(Some(config)),
        }
    }
}

} // verus!
