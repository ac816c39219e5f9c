//! Verified core of an MCP server that exposes a Qdrant collection through
//! semantic-search tools.
//!
//! - `config`: the server's settings, the port parser and the default `.env`.
//! - `auth`: the bearer-token decision taken before a request reaches MCP.
//! - `types`: tool arguments and their defaults.
//! - `keyword`: keyword extraction and filtering of search hits.
//! - `server`: server texts, resources, and the requests behind each tool.
//! - `embedding`: which embedding model a configured name loads.
//! - `startup`: the start-up protocol, one decision per outside result.
//! - `synthetic`: the sample documents of a newly created collection.
//! - `text`: text operations shared by the modules above.

pub mod auth;
pub mod config;
pub mod embedding;
pub mod keyword;
pub mod server;
pub mod startup;
pub mod synthetic;
pub mod text;
pub mod types;
