//! A client-side library for a schema-typed, column-oriented vector store:
//! collection schemas and their validation, the column codec between typed
//! record batches and the store's wire field data, the schema wire framing,
//! and the unification of transport, server and local failures into one
//! error taxonomy. The network transport itself lives outside this crate;
//! everything here is pure computation over plain values.

pub mod client;
pub mod common;
pub mod data;
pub mod error;
pub mod schema;
pub mod utils;
pub mod wire;
