//! An in-memory todo store and the request handling around it.
//!
//! The store maps server-generated identifiers to todo records. Each
//! handler performs one store operation and decides the HTTP reply.

pub mod item;
pub mod store;
pub mod handlers;
pub mod laws;
