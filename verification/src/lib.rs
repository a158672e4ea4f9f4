//! A verified bidirectional codec between an in-memory triangle mesh and a
//! family of versioned mesh file layouts, with adapters to and from the
//! Wavefront polygon-text format.

pub mod convert;
pub mod error;
pub mod fbits;
pub mod filemesh;
pub mod importer;
pub mod laws;
pub mod layout;
pub mod mesh_types;
pub mod place;
pub mod ser;
pub mod text;
