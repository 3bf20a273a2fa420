//! Providers of model answers: the hosted service, and a stand-in that
//! needs no network.

pub mod google;
pub mod sse;
pub mod stream;
pub mod stub;
pub mod types;
pub mod wire;

pub use types::ChatChunk;
pub use types::ChatRequest;
pub use types::ChatRequestView;
pub use types::ProviderError;
pub use types::ProviderErrorView;
pub use types::Stage;
