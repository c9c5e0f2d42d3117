//! Verified core of `wrap-command`: the decisions that wrap the execution of a
//! command with locking, timeouts, retries, notifications and tmux delegation.
pub mod args;
pub mod child;
pub mod command;
pub mod duration;
pub mod laws;
pub mod lock;
pub mod notify;
pub mod session;
pub mod signal;
pub mod text;
