//! Cosmos blocks as a source of subgraph triggers.
//!
//! A firehose delivers encoded blocks. This crate decodes them, finds in them what a subgraph
//! asked for, and says whether a block is to be processed or reverted.

pub mod adapter;
pub mod block;
pub mod chain;
pub mod chain_laws;
pub mod codec;
pub mod decode;
pub mod encode;
pub mod error;
pub mod fields;
pub mod firehose;
pub mod laws;
pub mod lookup;
pub mod message_laws;
pub mod parts;
pub mod read_back;
pub mod round_trip;
pub mod schema;
pub mod schema_laws;
pub mod sequences;
pub mod stream_laws;
pub mod trigger;
pub mod trigger_laws;
pub mod triggers;
pub mod view_laws;
pub mod wire;
