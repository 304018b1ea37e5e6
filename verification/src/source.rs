//! Where asset records are kept.

use vstd::prelude::*;
use crate::asset::Asset;
use crate::error::ResultError;

pub mod local_file;

verus! {

/// A catalog of asset records keyed by id.
pub trait AssetSource {
    /// Persists `assets`, in order.
    fn save(&mut self, assets: Vec<Asset>) -> Result<(), ResultError>;

    /// The record whose id is `id`.
    fn get_by_id(&self, id: &str) -> Result<Asset, ResultError>;
}

} // verus!
