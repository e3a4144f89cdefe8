//! Client-side runtime for the Model Context Protocol: one connection per tool
//! server, and a registry that treats many servers as one pool of tools.
//!
//! - [`json`] holds JSON documents and their mathematical view, [`wire`] writes
//!   and reads them as lines with `serde_json`.
//! - [`types`] holds the records that a server sends and reads them from
//!   documents; [`protocol`] builds the JSON-RPC messages and says what a reply
//!   means.
//! - [`transport`] is the exchange of frames that a connection asks for;
//!   [`connection`] runs the handshake and the requests of one server;
//!   [`manager`] is the registry of connected servers.
//!
//! Every function states what it returns and changes, and is proved to do so;
//! what is taken on trust of `serde_json` and of std is said where it stands.

pub mod config;
pub mod connection;
pub mod error;
pub mod json;
pub mod manager;
pub mod protocol;
pub mod transport;
pub mod types;
pub mod wire;

pub use config::{McpServerConfig, TransportConfig};
pub use connection::{ConnectionState, ConnectionView, McpConnection};
pub use error::{McpError, McpErrorView};
pub use manager::{EntryView, McpManager};
pub use json::{Json, JsonDoc, JsonNumber, NumberDoc};
pub use transport::{create_transport, launch_parameters, Launch, McpTransport};
pub use types::{
    PromptsCapability, ResourcesCapability, SamplingCapability, ServerCapabilities, ServerHealth,
    ServerInfo, ServerInfoView, ToolSchema, ToolSchemaView, ToolsCapability,
};
