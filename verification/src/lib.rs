//! Platform support library for the authentik agent: the wire formats spoken
//! between the agent, its system daemon and the SSH-agent tunnel, the
//! platform-specific path tables, the credential cache and the pure decision
//! logic of the transports that wrap them.

mod be32;
pub mod grpc_frame;
mod text;
pub mod tunnel_ext;
pub mod tunnel_dispatch;
pub mod agent_tunnel;
pub mod decimal;
pub mod method_caller;
pub mod platform_string;
pub mod paths;
pub mod config;
pub mod keyring;
pub mod cache;
pub mod logging;
pub mod proc_info;
pub mod encoding;
pub mod grpc_support;
pub mod keyring_backend;
pub mod hardware_key;
pub mod dpop;
pub mod device_flow;
pub mod local_transport;
pub mod pbjson;
pub mod pbjson_tables;
