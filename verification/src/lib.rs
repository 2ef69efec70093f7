//! Remote control of a managed server process over a one-byte wire protocol:
//! the command vocabulary, the registry of connection-scoped tasks, and the
//! decisions that the server and the client take while a session runs.

pub mod client;
pub mod command;
pub mod registry;
pub mod runner;
pub mod server;
pub mod session;
pub mod task;
