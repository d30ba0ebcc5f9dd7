//! A façade over an embedding-vector index engine.
//!
//! The library validates vector dimensions, enforces a metadata field
//! policy (only derived fields such as title, url and summary are ever
//! persisted, never the raw source content), and layers a CRUD-and-search
//! protocol over the engine.  Vectors cross the boundary as IEEE
//! single-precision bit patterns (`u32`), so that all of the façade's own
//! logic is verified integer code; the engine alone interprets them as
//! floating-point values.

pub mod bits;
pub mod engine;
pub mod facade;
pub mod laws;
