//! Entity-keyed bookkeeping for a 2D rigid-body and particle physics engine.
//!
//! The physics engine itself is an outside collaborator: this crate keeps the
//! tables that tie host entities to the engine's opaque object handles, the
//! per-tick contact event log, and the ray-cast aggregation and filtering rules.
//! Host entities are identified by their 64-bit identity (`Entity::to_bits`),
//! native objects by an opaque 64-bit handle.
pub mod body;
pub mod contacts;
pub mod filter;
pub mod joint;
pub mod pair_table;
pub mod particles;
pub mod ray_cast;
pub mod registry;
pub mod stepping;
