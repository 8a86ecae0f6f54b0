//! Commands around the client.

pub mod post;
