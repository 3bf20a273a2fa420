//! The OAuth life cycle of the bearer token: device authorization, validity,
//! refresh, and what the token file holds.

pub mod client;
pub mod device;
pub mod error;
pub mod refresh;
pub mod store;
pub mod token;

pub use client::OAuthClient;
pub use client::OAuthClientView;
pub use error::AuthError;
pub use error::AuthErrorView;
pub use error::Endpoint;
pub use token::OAuthToken;
pub use token::OAuthTokenView;
