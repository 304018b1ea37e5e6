//! Importers turn a stored asset into a model.

use vstd::prelude::*;
use crate::error::ResultError;
use crate::model::Model;

pub mod indexing;
pub mod laws;
pub mod wavefront;

verus! {

/// What can produce the model that is stored at a location.
pub trait Importer {
    fn generate_model(&self, loc: &str) -> Result<Model, ResultError>;
}

} // verus!
