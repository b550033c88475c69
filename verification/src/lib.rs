//! Core logic of a coordinate-frame visualization server.
//!
//! The crate keeps an authoritative store of named parent -> child spatial
//! transforms, each annotated with a free-form, dynamically typed attribute
//! map.  A single-writer actor serializes every read and mutation of the
//! store and hands out independent snapshots.  A tolerant decoder projects
//! the untyped attributes of a frame into a typed visualization descriptor
//! without ever failing.  A per-tick render pipeline classifies each frame,
//! assigns marker identities and partitions the output into four message
//! batches: active transforms, static transforms, zone markers and mesh
//! markers.
//!
//! Real-valued quantities (translations, rotations, radii, colors) are
//! carried as IEEE 754 binary64 bit patterns, so that the sentinel tests the
//! pipeline depends on (`zone == 0.0`, `mesh_scale == 0.0`) are exact
//! integer facts.  The transport that delivers the four batches, and the
//! process around the actor, live outside this crate.

pub mod fbits;
pub mod dynamic;
pub mod metadata;
pub mod store;
pub mod actor;
pub mod render;
