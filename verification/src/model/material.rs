//! Materials. A material is one colour texture, decoded into pixels of red,
//! green, blue and alpha, a byte each.

use vstd::prelude::*;
use crate::error::ResultError;
use crate::error::ResultErrorView;

verus! {

/// A decoded image: `height` rows of `width` pixels, four bytes a pixel.
#[derive(Debug, PartialEq, Eq)]
pub struct TextureImage {
    pub width: u32,
    pub height: u32,
    pub pixels: Vec<u8>,
}

/// What colours a model: for now a single texture.
#[derive(Debug, PartialEq, Eq)]
pub struct Material {
    pub texture: TextureImage,
}

pub ghost struct TextureImageView {
    pub width: u32,
    pub height: u32,
    pub pixels: Seq<u8>,
}

impl View for TextureImage {
    type V = TextureImageView;

    open spec fn view(&self) -> TextureImageView {
        TextureImageView { width: self.width, height: self.height, pixels: self.pixels@ }
    }
}

impl View for Material {
    type V = TextureImageView;

    open spec fn view(&self) -> TextureImageView {
        self.texture@
    }
}

impl TextureImage {
    /// The buffer holds four bytes for each pixel of every row.
    pub open spec fn well_formed(&self) -> bool {
        self.pixels@.len() == 4 * self.width * self.height
    }
}

/// Whether a decoded image holds four bytes for each pixel of every row.
pub open spec fn fills(texture: TextureImageView) -> bool {
    texture.pixels.len() == 4 * texture.width * texture.height
}

/// The image that an encoded picture decodes to, or `None` where the bytes
/// are no picture that the decoder reads. The format is the one that the
/// first bytes of the picture announce.
pub uninterp spec fn decoded_rgba8(encoded: Seq<u8>) -> Option<TextureImageView>;

#[verifier::external_type_specification]
#[verifier::external_body]
pub struct ExImageError(image::ImageError);

/// Finds the format of a picture with image's `guess_format`, which goes by
/// the first bytes, decodes it with `load_from_memory_with_format` and
/// converts it with `to_rgba8`; width, height and the raw buffer are carried
/// over. Neither call looks at anything but its arguments, so whether the
/// bytes decode, and to what, is a function of the bytes alone.
#[verifier::external_body]
fn decode_rgba8(encoded: &[u8]) -> (r: Result<TextureImage, image::ImageError>)
    ensures
        match r {
            Ok(texture) => decoded_rgba8(encoded@) == Some(texture@),
            Err(_) => decoded_rgba8(encoded@) is None,
        },
{
    let format = image::guess_format(encoded)?;
    let picture = image::load_from_memory_with_format(encoded, format)?.to_rgba8();
    Ok(TextureImage { width: picture.width(), height: picture.height(), pixels: picture.into_raw() })
}

/// The view of a result that holds a material or an error.
pub open spec fn material_result_view(r: Result<Material, ResultError>) -> Result<
    TextureImageView,
    ResultErrorView,
> {
    match r {
        Ok(material) => Ok(material@),
        Err(e) => Err(e@),
    }
}

/// The texture that an encoded picture gives: what it decodes to, where
/// that holds four bytes for each pixel.
pub open spec fn texture_of(encoded: Seq<u8>) -> Option<TextureImageView> {
    match decoded_rgba8(encoded) {
        Some(texture) => if fills(texture) {
            Some(texture)
        } else {
            None
        },
        None => None,
    }
}

/// The material that an encoded picture gives.
pub open spec fn material_of(encoded: Seq<u8>) -> Result<TextureImageView, ResultErrorView> {
    match texture_of(encoded) {
        Some(texture) => Ok(texture),
        None => Err(ResultErrorView::MaterialDecodeError),
    }
}

/// The first of the candidates, at or after `from`, that is there and decodes.
pub open spec fn first_material(candidates: Seq<Option<Seq<u8>>>, from: int) -> Result<
    TextureImageView,
    ResultErrorView,
>
    decreases candidates.len() - from,
{
    if from < 0 || from >= candidates.len() {
        Err(ResultErrorView::MaterialDecodeError)
    } else {
        match candidates[from] {
            Some(encoded) => match texture_of(encoded) {
                Some(texture) => Ok(texture),
                None => first_material(candidates, from + 1),
            },
            None => first_material(candidates, from + 1),
        }
    }
}

/// The views of a sequence of candidates.
pub open spec fn candidates_view(candidates: Seq<Option<Vec<u8>>>) -> Seq<Option<Seq<u8>>> {
    Seq::new(
        candidates.len(),
        |i: int|
            match candidates[i] {
                Some(encoded) => Some(encoded@),
                None => None,
            },
    )
}

impl Material {
    /// Decodes an encoded picture into a material. A picture whose buffer
    /// does not hold four bytes for each pixel is no material.
    pub fn new(encoded: &[u8]) -> (r: Result<Material, ResultError>)
        ensures
            material_result_view(r) == material_of(encoded@),
            r matches Ok(material) ==> material.texture.well_formed(),
    {
        match decode_rgba8(encoded) {
            Ok(texture) => {
                assert(texture.width * texture.height <= 0xFFFF_FFFF * 0xFFFF_FFFF) by (nonlinear_arith)
                    requires
                        texture.width <= 0xFFFF_FFFF,
                        texture.height <= 0xFFFF_FFFF,
                ;
                let pixels: u128 = (texture.width as u128) * (texture.height as u128);
                let wanted: u128 = 4u128 * pixels;
                assert(wanted == 4 * texture.width * texture.height) by (nonlinear_arith)
                    requires
                        wanted == 4 * (texture.width * texture.height),
                ;
                if texture.pixels.len() as u128 == wanted {
                    Ok(Material { texture })
                } else {
                    Err(ResultError::MaterialDecodeError)
                }
            },
            Err(_) => Err(ResultError::MaterialDecodeError),
        }
    }

    /// The material of the first candidate that is there and decodes. The
    /// candidates are the pictures that a material description names, in its
    /// order; `None` stands for one that could not be read.
    pub fn first_of(candidates: &Vec<Option<Vec<u8>>>) -> (r: Result<Material, ResultError>)
        ensures
            material_result_view(r) == first_material(candidates_view(candidates@), 0),
            r matches Ok(material) ==> material.texture.well_formed(),
    {
        let ghost views = candidates_view(candidates@);
        let mut i: usize = 0;
        while i < candidates.len()
            invariant
                i <= candidates.len(),
                views == candidates_view(candidates@),
                first_material(views, 0) == first_material(views, i as int),
            decreases candidates.len() - i,
        {
            match &candidates[i] {
                Some(encoded) => {
                    match Material::new(encoded.as_slice()) {
                        Ok(material) => {
                            return Ok(material);
                        },
                        Err(_) => {},
                    }
                },
                None => {},
            }
            i += 1;
        }
        Err(ResultError::MaterialDecodeError)
    }
}

} // verus!
