//! Resolves a saved host alias to a live server address: the decisions taken
//! between reading credentials and handing a command line to `ssh`.
//!
//! A run goes through the modules in this order. `credentials` and `connect`
//! settle who logs in and what is searched for. `session` logs in, following
//! the service to the shard that serves the account. `discovery` asks that
//! shard for the matching instances and reads its answer, which arrives as a
//! document of `json`. `selector` picks one address, and `ssh` writes the
//! call that opens the session. Nothing here touches the network, the
//! terminal or the file system: every function takes what was read and
//! returns what is to be sent, shown or run.

pub mod config;
pub mod connect;
pub mod credentials;
pub mod discovery;
pub mod error;
pub mod json;
pub mod request;
pub mod selector;
pub mod sequences;
pub mod session;
pub mod ssh;
pub mod text;
