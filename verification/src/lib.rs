//! Request pipeline of a small server-rendered journal application: the error
//! envelope, the request context, the session guard and the connection lease,
//! together with the decisions that the handlers take between their I/O steps.

pub mod api;
pub mod config;
pub mod context;
pub mod db;
pub mod error;
pub mod extract;
pub mod ids;
pub mod infra;
pub mod journal;
pub mod lease;
pub mod login;
pub mod redirect;
pub mod session;
pub mod tasks;
pub mod templates;
pub mod text;
