//! Tool servers: the list of them, the framing of the messages that are
//! exchanged with them, and the register of the tools that they offer.

pub mod rpc;
pub mod servers;
pub mod stdio;
pub mod tools;

pub use servers::cmd_mcp;
pub use servers::McpError;
pub use servers::McpOutcome;
pub use servers::McpServerConfig;
pub use servers::McpServersFile;
pub use tools::McpTool;
pub use tools::RegisteredTool;
pub use tools::ToolRegistry;
