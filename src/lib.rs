//! A small coordinator that turns a handful of networked machines into a task
//! execution cluster: a dispatcher queues shell tasks and routes each one to a
//! worker with spare capacity; workers run them under a timeout and report back.


pub mod api;
pub mod auth;
pub mod clock;
pub mod cmd;
pub mod crypto;
pub mod dispatcher;
pub mod executor;
mod ids;
pub mod persistence;
pub mod protocol;
pub mod sandbox;
pub mod scheduler;
pub mod security;
pub mod security_enhanced;
pub mod state;
pub mod text;
pub mod transport;
pub mod tui;
pub mod worker;
