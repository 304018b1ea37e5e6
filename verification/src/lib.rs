//! Resolves asset identifiers into model data.
//!
//! * `source` keeps asset records in a manifest document and looks them up by id.
//! * `importer` turns a line-oriented mesh description into a model with one
//!   vertex for every distinct composite reference and one index for every
//!   corner of a face.
//! * `model` holds the models, their materials, and the cache that shares an
//!   imported model among those who ask for the same id.
//!
//! Coordinates are kept as the decimal literals of their source; turning them
//! into machine numbers is left to the caller.

pub mod asset;
pub mod error;
pub mod importer;
pub mod model;
pub mod number;
pub mod path;
pub mod pattern;
pub mod source;
pub mod text;
