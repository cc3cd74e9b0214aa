//! The client side of the CodebaseHQ API: the transport rules, the records
//! that responses decode to, and one module per family of resources.

pub mod activity;
pub mod body;
pub mod client;
pub mod codec;
pub mod config;
pub mod milestones;
pub mod models;
pub mod operation;
pub mod projects;
pub mod repositories;
pub mod tickets;
pub mod xml;
