//! Mirrors guild and member-presence metadata into a set of keyed document
//! collections, keeping a denormalized shadow copy of server state for
//! external consumption.
//!
//! The crate has three layers, leaf first:
//!
//! - [`store`]: flat documents over named fields, collections of such
//!   documents, and the check-then-act upsert primitive (`add_or_update`).
//! - [`models`] and [`gis`]: the snapshot builder, which flattens a cached
//!   guild or a presence event into an immutable record.
//! - [`handler`]: the event handler, which resolves the guild from the cache,
//!   builds the snapshots, and drives the upserts for both collections.

pub mod gis;
pub mod handler;
pub mod models;
pub mod store;
