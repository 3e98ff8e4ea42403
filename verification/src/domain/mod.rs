//! The models of the chat client and the services that act on them.

pub mod models;
pub mod services;
