//! Core of a Jupyter-protocol kernel host: wire framing and HMAC
//! authentication, the session and connection descriptor, the execution
//! coordinator's state machine and the shell worker's request envelope.

pub mod hex_codec;
pub mod wire;
pub mod text;
pub mod connection_file;
pub mod session;
pub mod kernel;
pub mod r_kernel;
pub mod shell;
pub mod handler;
pub mod verbs;
pub mod comm;
