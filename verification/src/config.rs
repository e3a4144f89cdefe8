//! How a tool server is reached.

use vstd::prelude::*;

verus! {

/// The kind of transport to a server, with what is needed to open it.
#[derive(Debug, Clone, PartialEq)]
pub enum TransportConfig {
    /// A child process that speaks over its standard input and output.
    Stdio { command: String, args: Vec<String> },
    /// A socket at a path.
    Socket { path: String },
    /// An HTTP endpoint.
    Http { url: String },
}

/// One server: its id in the registry, a name to show, the transport, and the
/// environment variables to set for it.
#[derive(Debug, Clone, PartialEq)]
pub struct McpServerConfig {
    pub id: String,
    pub name: String,
    pub transport: TransportConfig,
    pub env: Vec<(String, String)>,
}

} // verus!
