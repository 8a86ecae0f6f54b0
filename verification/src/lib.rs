//! Block extraction from a chain node's JSON-RPC interface: request framing,
//! response parsing, the canonical block record and the polling engine that
//! turns fetched blocks into an ordered, checkpointed stream.
//!
//! The crate performs no I/O. Every network call, write and sleep is described
//! by a value that the caller carries out, and its outcome is handed back as a
//! value.

pub mod client;
pub mod cmd;
pub mod env;
pub mod json;
pub mod laws;
pub mod live;
pub mod pb;
pub mod polling;
pub mod result;
pub mod text;
pub mod types;
pub mod u256;
pub mod vecs;

pub use client::{Client, HttpRequest, Retry};
pub use cmd::post::Post;
pub use env::Env;
pub use live::{BlockInfo, LiveWindow, Observation};
pub use polling::{Action, Event, Phase, Polling, State};
pub use result::{Error, ErrorKind};
pub use types::{Block, FirehoseBlock, Transaction};
pub use u256::U256;
