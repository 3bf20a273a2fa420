//! A client for a hosted generative-language service: the OAuth device
//! authorization life cycle of its bearer token, and the decoding of the
//! service's event stream into text chunks.
//!
//! The library decides and computes; it does not wait. Network, disk and
//! terminal belong to the caller, which performs what these functions
//! plan and hands back what it saw. Time comes in as a number of seconds,
//! but for [`auth::token::OAuthToken::is_valid_for`], which reads the clock.
//!
//! - [`auth`]: the token, the device authorization flow, refresh, and the
//!   token file.
//! - [`provider`]: the hosted service and its stand-in, the decoder of
//!   server-sent events, and the machine that turns a streamed answer
//!   into chunks.
//! - [`setup`], [`config`], [`cli`], [`paths`]: from command line,
//!   configuration and environment to a provider and a request.
//! - [`mcp`]: tool servers, the framing of their messages, and their tools.
//! - [`tui`]: the chat in the terminal, without the terminal.
//! - [`web`], [`text`], [`list`]: what the others share.

pub mod list;
pub mod text;
pub mod web;
pub mod auth;
pub mod provider;
pub mod cli;
pub mod config;
pub mod paths;
pub mod setup;
pub mod mcp;
pub mod tui;
