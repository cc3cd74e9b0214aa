//! What the commands decide before anything is sent, shown or opened.

pub mod browse;
pub mod status;
pub mod tickets;
