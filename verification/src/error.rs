//! Failure taxonomy shared by every component.

use vstd::prelude::*;
use vstd::std_specs::convert::FromSpecImpl;
use vstd::string::{to_string_from_display_ensures, StringExecFns};

verus! {

/// `std::io::Error`, of which the library knows nothing.
#[verifier::external_type_specification]
#[verifier::external_body]
pub struct ExIoError(std::io::Error);

/// Everything that can go wrong while talking to a tool server.
#[derive(Debug)]
pub enum McpError {
    /// A call was routed to a server id that the registry does not hold.
    ServerNotFound(String),
    /// The connection is not in its ready state.
    NotConnected,
    /// The byte stream to the server failed.
    TransportError(String),
    /// The server answered with something that is not the protocol.
    ProtocolError(String),
    /// The server answered with a JSON-RPC error object.
    RpcError { code: i64, message: String },
    /// The call went through and the tool itself reported a failure.
    ToolError(String),
    /// A caller's deadline ran out.
    Timeout,
    /// A low-level I/O failure handed through unchanged.
    IoError(std::io::Error),
}

/// An error with its texts as character sequences.
pub enum McpErrorView {
    ServerNotFound(Seq<char>),
    NotConnected,
    TransportError(Seq<char>),
    ProtocolError(Seq<char>),
    RpcError { code: i64, message: Seq<char> },
    ToolError(Seq<char>),
    Timeout,
    IoError(std::io::Error),
}

impl View for McpError {
    type V = McpErrorView;

    open spec fn view(&self) -> McpErrorView {
        match *self {
            McpError::ServerNotFound(id) => McpErrorView::ServerNotFound(id@),
            McpError::NotConnected => McpErrorView::NotConnected,
            McpError::TransportError(text) => McpErrorView::TransportError(text@),
            McpError::ProtocolError(text) => McpErrorView::ProtocolError(text@),
            McpError::RpcError { code, message } => McpErrorView::RpcError { code, message: message@ },
            McpError::ToolError(text) => McpErrorView::ToolError(text@),
            McpError::Timeout => McpErrorView::Timeout,
            McpError::IoError(source) => McpErrorView::IoError(source),
        }
    }
}

/// What `message` owes for an error: its kind in words, followed by what the
/// error carries. A code is written as `i64` writes itself, an I/O failure as
/// it describes itself.
pub open spec fn message_of(e: McpError, text: Seq<char>) -> bool {
    match e {
        McpError::ServerNotFound(id) => text == "Server not found: "@ + id@,
        McpError::NotConnected => text == "Not connected to MCP server"@,
        McpError::TransportError(detail) => text == "Transport error: "@ + detail@,
        McpError::ProtocolError(detail) => text == "Protocol error: "@ + detail@,
        McpError::RpcError { code, message } => exists|digits: String|
            #[trigger] to_string_from_display_ensures::<i64>(&code, digits) && text == "RPC error "@
                + digits@ + ": "@ + message@,
        McpError::ToolError(detail) => text == "Tool error: "@ + detail@,
        McpError::Timeout => text == "Connection timeout"@,
        McpError::IoError(source) => exists|detail: String|
            #[trigger] to_string_from_display_ensures::<std::io::Error>(&source, detail) && text
                == "IO error: "@ + detail@,
    }
}

impl McpError {
    /// The error in words.
    pub fn message(&self) -> (text: String)
        ensures
            message_of(*self, text@),
    {
        match self {
            McpError::ServerNotFound(id) => {
                let mut text = "Server not found: ".to_owned();
                text.append(id.as_str());
                text
            },
            McpError::NotConnected => "Not connected to MCP server".to_owned(),
            McpError::TransportError(detail) => {
                let mut text = "Transport error: ".to_owned();
                text.append(detail.as_str());
                text
            },
            McpError::ProtocolError(detail) => {
                let mut text = "Protocol error: ".to_owned();
                text.append(detail.as_str());
                text
            },
            McpError::RpcError { code, message } => {
                let digits = code.to_string();
                let mut text = "RPC error ".to_owned();
                text.append(digits.as_str());
                text.append(": ");
                text.append(message.as_str());
                text
            },
            McpError::ToolError(detail) => {
                let mut text = "Tool error: ".to_owned();
                text.append(detail.as_str());
                text
            },
            McpError::Timeout => "Connection timeout".to_owned(),
            McpError::IoError(source) => {
                let detail = source.to_string();
                let mut text = "IO error: ".to_owned();
                text.append(detail.as_str());
                text
            },
        }
    }
}

impl From<std::io::Error> for McpError {
    fn from(source: std::io::Error) -> (e: McpError) {
        McpError::IoError(source)
    }
}

impl FromSpecImpl<std::io::Error> for McpError {
    open spec fn obeys_from_spec() -> bool {
        true
    }

    open spec fn from_spec(source: std::io::Error) -> McpError {
        McpError::IoError(source)
    }
}

} // verus!
