//! The transport to a server: what a connection asks of it, and how one is
//! chosen from a configuration.

use vstd::prelude::*;
use crate::config::{McpServerConfig, TransportConfig};
use crate::error::{McpError, McpErrorView};
use crate::json::Json;

verus! {

/// An exchange of frames with one server. A transport belongs to one
/// connection, which uses it for one exchange at a time.
///
/// Nothing is promised of what an implementation returns: whoever calls one
/// states what it was handed and what holds of every outcome.
pub trait McpTransport: Sized {
    /// Starts `command` with `args` and with `env` laid over the environment,
    /// and speaks to it over its standard input and output.
    fn spawn(command: &str, args: &Vec<String>, env: &Vec<(String, String)>) -> Result<Self, McpError>;

    /// Sends a request and waits for the next reply.
    fn send_request(&mut self, request: Json) -> Result<Json, McpError>;

    /// Sends a notification, to which no reply is awaited.
    fn send_notification(&mut self, notification: Json) -> Result<(), McpError>;

    /// Ends the exchange and releases what it held.
    fn close(self) -> Result<(), McpError>;
}

/// The refusal that a kind of transport meets, where it is one that cannot be
/// opened.
pub open spec fn transport_refusal(transport: TransportConfig) -> Option<McpErrorView> {
    match transport {
        TransportConfig::Stdio { .. } => None,
        TransportConfig::Socket { .. } => Some(
            McpErrorView::TransportError("Socket transport not implemented"@),
        ),
        TransportConfig::Http { .. } => Some(
            McpErrorView::TransportError("HTTP transport not implemented"@),
        ),
    }
}

/// What a server program is started with.
pub struct Launch {
    pub command: Seq<char>,
    pub args: Seq<Seq<char>>,
    /// The environment variables to set, each with its value.
    pub env: Seq<(Seq<char>, Seq<char>)>,
}

/// What `spawn` is handed, as mathematics.
pub open spec fn launch_view(command: Seq<char>, args: &Vec<String>, env: &Vec<(String, String)>) -> Launch {
    Launch {
        command,
        args: args@.map_values(|arg: String| arg@),
        env: env@.map_values(|pair: (String, String)| (pair.0@, pair.1@)),
    }
}

/// What the transport of a configuration is started with, where it is the
/// process transport: the command, the arguments and the environment of the
/// configuration, as they are.
pub open spec fn launch_of(config: McpServerConfig) -> Option<Launch> {
    match config.transport {
        TransportConfig::Stdio { command, args } => Some(
            launch_view(command@, &args, &config.env),
        ),
        _ => None,
    }
}

/// What is needed to open the transport of `config`: for the process
/// transport the command, the arguments and the environment of the
/// configuration, as they are; for a socket or an HTTP endpoint the refusal.
pub fn launch_parameters(config: &McpServerConfig) -> (r: Result<
    (&str, &Vec<String>, &Vec<(String, String)>),
    McpError,
>)
    ensures
        match r {
            Ok((command, args, env)) => launch_of(*config) == Some(launch_view(command@, args, env)),
            Err(e) => launch_of(*config) is None && transport_refusal(config.transport) == Some(e@),
        },
{
    match &config.transport {
        TransportConfig::Stdio { command, args } => Ok((command.as_str(), args, &config.env)),
        TransportConfig::Socket { .. } => Err(
            McpError::TransportError("Socket transport not implemented".to_owned()),
        ),
        TransportConfig::Http { .. } => Err(
            McpError::TransportError("HTTP transport not implemented".to_owned()),
        ),
    }
}

/// What `create_transport` owes: a socket or an HTTP endpoint is refused, and
/// for the process transport the result is what `spawn` returned for the
/// command, the arguments and the environment of the configuration.
pub open spec fn transport_created<T: McpTransport>(config: McpServerConfig, r: Result<T, McpError>) -> bool {
    match launch_of(config) {
        Some(launch) => exists|command: &str, args: &Vec<String>, env: &Vec<(String, String)>|
            launch_view(command@, args, env) == launch && #[trigger] call_ensures(
                T::spawn,
                (command, args, env),
                r,
            ),
        None => r matches Err(e) && transport_refusal(config.transport) == Some(e@),
    }
}

/// Opens the transport that `config` asks for. Only the process transport
/// exists: a socket or an HTTP endpoint is refused.
pub fn create_transport<T: McpTransport>(config: &McpServerConfig) -> (r: Result<T, McpError>)
    ensures
        transport_created(*config, r),
{
    match launch_parameters(config) {
        Ok((command, args, env)) => {
            let r = T::spawn(command, args, env);
            proof {
                // the result is what `spawn` returned for these three
                assert(call_ensures(T::spawn, (command, args, env), r));
            }
            r
        },
        Err(e) => Err(e),
    }
}

} // verus!
