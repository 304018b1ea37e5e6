//! Asset records: the metadata that the manifest keeps for each importable resource.

use vstd::prelude::*;
use crate::error::ResultError;
use crate::error::ResultErrorView;
use crate::text::owned;
use crate::text::same_text;
use vstd::string::StrSliceExecFns;

verus! {

/// The geometry formats that a model can be stored in.
#[derive(Clone, Copy, Debug, PartialEq, Eq, Structural)]
pub enum ModelType {
    Wavefront,
}

/// What an asset is: a model, with its geometry format where one is declared, or a texture.
#[derive(Clone, Copy, Debug, PartialEq, Eq)]
pub enum AssetType {
    Model(Option<ModelType>),
    Texture,
}

pub const ID_ATTRIBUTE: &'static str = "id";

pub const LOCATION_ATTRIBUTE: &'static str = "location";

pub const NAME_ATTRIBUTE: &'static str = "name";

pub const TYPE_ATTRIBUTE: &'static str = "type";

pub const SUB_TYPE_ATTRIBUTE: &'static str = "sub_type";

pub const MODEL_TYPE: &'static str = "model";

pub const TEXTURE_TYPE: &'static str = "texture";

pub const WAVEFRONT_TYPE: &'static str = "wavefront";

/// One entry of the manifest. `id` is its key; `location` must be present
/// before the asset can be saved or imported.
#[derive(Clone, Debug, PartialEq, Eq)]
pub struct Asset {
    pub location: Option<String>,
    pub asset_type: AssetType,
    pub name: String,
    pub id: String,
}

/// `Asset` with every text replaced by its sequence of characters.
pub ghost struct AssetView {
    pub location: Option<Seq<char>>,
    pub asset_type: AssetType,
    pub name: Seq<char>,
    pub id: Seq<char>,
}

impl View for Asset {
    type V = AssetView;

    open spec fn view(&self) -> AssetView {
        AssetView {
            location: match self.location {
                Some(location) => Some(location@),
                None => None,
            },
            asset_type: self.asset_type,
            name: self.name@,
            id: self.id@,
        }
    }
}

/// The kind that the attribute pair `type`, `sub_type` denotes.
pub open spec fn kind_of(tpe: Seq<char>, sub_type: Seq<char>) -> Result<AssetType, ResultErrorView> {
    if tpe == MODEL_TYPE@ {
        if sub_type == WAVEFRONT_TYPE@ {
            Ok(AssetType::Model(Some(ModelType::Wavefront)))
        } else {
            Err(ResultErrorView::UnknownSubtype(sub_type))
        }
    } else if tpe == TEXTURE_TYPE@ {
        Ok(AssetType::Texture)
    } else {
        Err(ResultErrorView::UnknownAssetKind(tpe))
    }
}

/// The record that the five attribute texts denote: an empty location stands for none.
pub open spec fn record_of(
    loc: Seq<char>,
    id: Seq<char>,
    name: Seq<char>,
    tpe: Seq<char>,
    sub_type: Seq<char>,
) -> Result<AssetView, ResultErrorView> {
    match kind_of(tpe, sub_type) {
        Ok(asset_type) => Ok(
            AssetView {
                location: if loc.len() == 0 {
                    None
                } else {
                    Some(loc)
                },
                asset_type,
                name,
                id,
            },
        ),
        Err(e) => Err(e),
    }
}

/// The view of a result that holds an asset or an error.
pub open spec fn asset_result_view(r: Result<Asset, ResultError>) -> Result<AssetView, ResultErrorView> {
    match r {
        Ok(asset) => Ok(asset@),
        Err(e) => Err(e@),
    }
}

impl AssetType {
    /// Reads a kind from its two attribute texts.
    pub fn new(tpe: &str, sub_type: &str) -> (r: Result<Self, ResultError>)
        ensures
            match r {
                Ok(kind) => kind_of(tpe@, sub_type@) == Ok::<AssetType, ResultErrorView>(kind),
                Err(e) => kind_of(tpe@, sub_type@) == Err::<AssetType, ResultErrorView>(e@),
            },
    {
        if same_text(tpe, MODEL_TYPE) {
            if same_text(sub_type, WAVEFRONT_TYPE) {
                return Ok(AssetType::Model(Some(ModelType::Wavefront)));
            }
            return Err(ResultError::UnknownSubtype(owned(sub_type)));
        }
        if same_text(tpe, TEXTURE_TYPE) {
            return Ok(AssetType::Texture);
        }
        Err(ResultError::UnknownAssetKind(owned(tpe)))
    }
}

impl Asset {
    /// Builds a record from the attribute texts of a manifest element.
    pub fn new(loc: &str, id: &str, name: &str, tpe: &str, sub_type: &str) -> (r: Result<
        Self,
        ResultError,
    >)
        ensures
            asset_result_view(r) == record_of(loc@, id@, name@, tpe@, sub_type@),
    {
        let asset_type = match AssetType::new(tpe, sub_type) {
            Ok(asset_type) => asset_type,
            Err(e) => {
                return Err(e);
            },
        };
        let location = if loc.unicode_len() == 0 {
            None
        } else {
            Some(owned(loc))
        };
        Ok(Asset { location, asset_type, name: owned(name), id: owned(id) })
    }
}

} // verus!
