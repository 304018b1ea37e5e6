//! The failures that the manifest store, the model cache and the geometry
//! importer report, with the mathematical view that contracts speak of.

use vstd::prelude::*;
use vstd::string::StringExecFns;

verus! {

/// The kind of vector that a line of a mesh source describes.
#[derive(Clone, Copy, Debug, PartialEq, Eq)]
pub enum LineCategory {
    Position,
    Texture,
    Normal,
}

/// Why an operation of this library failed.
#[derive(Clone, Debug, PartialEq, Eq)]
pub enum ResultError {
    /// No element of the manifest carries the requested id.
    NotFound(String),
    /// An element's `id` attribute differs from its tag.
    InconsistentId { tag: String, attribute: String },
    /// The `type` attribute is neither `model` nor `texture`.
    UnknownAssetKind(String),
    /// A model's `sub_type` attribute names no known geometry format.
    UnknownSubtype(String),
    /// The asset with this id has no location.
    LocationRequired(String),
    /// The asset with this id is not a model.
    NotAModel(String),
    /// The model with this id declares no geometry format that an importer serves.
    UnsupportedSubtype(String),
    /// The mesh source names no object.
    NameMissing,
    /// A vector line does not follow the pattern of its category.
    ParseError { line: String, category: LineCategory },
    /// A face line is not a triangle of three composite references.
    FaceParseError { line: String },
    /// A face refers to a position, texture coordinate or normal that was not loaded.
    IndexOutOfRange,
    /// The companion material description yields no decodable diffuse texture.
    MaterialDecodeError,
    /// The mesh needs more vertices than a 32-bit index can address.
    VertexLimitExceeded,
    /// The pattern engine refused one of the line patterns.
    PatternRejected,
    /// A cached model has as many holders as can be counted.
    HandleLimitExceeded,
    /// The store was opened for reading and has no sink to write to.
    NotWritable,
    /// The store was opened for writing and has no document to read.
    NotReadable,
    /// The manifest at this location does not exist.
    ManifestMissing(String),
    /// The element for the asset with this id could not be written.
    WriteFailed(String),
    /// The manifest document is not well formed; the text is the reader's message.
    Malformed(String),
    /// What was saved for the asset with this id does not read back as it was.
    NotReadBack(String),
    /// A file or a stream could not be read or written; the text is the system's message.
    IOError(String),
}

/// `ResultError` with every text replaced by its sequence of characters.
pub ghost enum ResultErrorView {
    NotFound(Seq<char>),
    InconsistentId { tag: Seq<char>, attribute: Seq<char> },
    UnknownAssetKind(Seq<char>),
    UnknownSubtype(Seq<char>),
    LocationRequired(Seq<char>),
    NotAModel(Seq<char>),
    UnsupportedSubtype(Seq<char>),
    NameMissing,
    ParseError { line: Seq<char>, category: LineCategory },
    FaceParseError { line: Seq<char> },
    IndexOutOfRange,
    MaterialDecodeError,
    VertexLimitExceeded,
    PatternRejected,
    HandleLimitExceeded,
    NotWritable,
    NotReadable,
    ManifestMissing(Seq<char>),
    WriteFailed(Seq<char>),
    Malformed(Seq<char>),
    NotReadBack(Seq<char>),
    IOError(Seq<char>),
}

impl View for ResultError {
    type V = ResultErrorView;

    open spec fn view(&self) -> ResultErrorView {
        match self {
            ResultError::NotFound(id) => ResultErrorView::NotFound(id@),
            ResultError::InconsistentId { tag, attribute } => ResultErrorView::InconsistentId {
                tag: tag@,
                attribute: attribute@,
            },
            ResultError::UnknownAssetKind(kind) => ResultErrorView::UnknownAssetKind(kind@),
            ResultError::UnknownSubtype(sub) => ResultErrorView::UnknownSubtype(sub@),
            ResultError::LocationRequired(id) => ResultErrorView::LocationRequired(id@),
            ResultError::NotAModel(id) => ResultErrorView::NotAModel(id@),
            ResultError::UnsupportedSubtype(id) => ResultErrorView::UnsupportedSubtype(id@),
            ResultError::NameMissing => ResultErrorView::NameMissing,
            ResultError::ParseError { line, category } => ResultErrorView::ParseError {
                line: line@,
                category: *category,
            },
            ResultError::FaceParseError { line } => ResultErrorView::FaceParseError { line: line@ },
            ResultError::IndexOutOfRange => ResultErrorView::IndexOutOfRange,
            ResultError::MaterialDecodeError => ResultErrorView::MaterialDecodeError,
            ResultError::VertexLimitExceeded => ResultErrorView::VertexLimitExceeded,
            ResultError::PatternRejected => ResultErrorView::PatternRejected,
            ResultError::HandleLimitExceeded => ResultErrorView::HandleLimitExceeded,
            ResultError::NotWritable => ResultErrorView::NotWritable,
            ResultError::NotReadable => ResultErrorView::NotReadable,
            ResultError::ManifestMissing(location) => ResultErrorView::ManifestMissing(location@),
            ResultError::WriteFailed(id) => ResultErrorView::WriteFailed(id@),
            ResultError::Malformed(message) => ResultErrorView::Malformed(message@),
            ResultError::NotReadBack(id) => ResultErrorView::NotReadBack(id@),
            ResultError::IOError(message) => ResultErrorView::IOError(message@),
        }
    }
}

/// The name of a category as it stands in a message.
pub open spec fn category_name(category: LineCategory) -> Seq<char> {
    match category {
        LineCategory::Position => "position"@,
        LineCategory::Texture => "texture"@,
        LineCategory::Normal => "normal"@,
    }
}

/// The text that says to a reader what went wrong.
pub open spec fn message_of(e: ResultErrorView) -> Seq<char> {
    match e {
        ResultErrorView::NotFound(id) => "could not find asset for id: "@ + id,
        ResultErrorView::InconsistentId { tag, attribute } => "id tag: '"@ + tag
            + "' does not match attribute id: '"@ + attribute + "'"@,
        ResultErrorView::UnknownAssetKind(kind) => "unknown asset type: '"@ + kind + "'"@,
        ResultErrorView::UnknownSubtype(sub) => "unknown subtype for asset type 'model': '"@ + sub
            + "'"@,
        ResultErrorView::LocationRequired(id) => "location required for asset: "@ + id,
        ResultErrorView::NotAModel(id) => "asset is not a model for id: "@ + id,
        ResultErrorView::UnsupportedSubtype(id) => "no importer serves the model with id: "@ + id,
        ResultErrorView::NameMissing => "could not determine the name of the model"@,
        ResultErrorView::ParseError { line, category } => "unable to parse wavefront "@
            + category_name(category) + " vector: "@ + line,
        ResultErrorView::FaceParseError { line } => "unable to parse wavefront index for "@ + line,
        ResultErrorView::IndexOutOfRange => "a face refers to a vector that was not loaded"@,
        ResultErrorView::MaterialDecodeError => "could not parse material file"@,
        ResultErrorView::VertexLimitExceeded => "the mesh has more vertices than an index can address"@,
        ResultErrorView::PatternRejected => "failed generating regex for a wavefront model parser"@,
        ResultErrorView::HandleLimitExceeded => "the model has too many holders"@,
        ResultErrorView::NotWritable => "write location must not be None"@,
        ResultErrorView::NotReadable => "manifest location unknown"@,
        ResultErrorView::ManifestMissing(location) => "manifest file: '"@ + location
            + "' does not exist"@,
        ResultErrorView::WriteFailed(id) => "could not write XML element: "@ + id,
        ResultErrorView::Malformed(message) => "error reading manifest file, '"@ + message + "'"@,
        ResultErrorView::NotReadBack(id) => "asset does not read back as it was saved: "@ + id,
        ResultErrorView::IOError(message) => "input or output failed: "@ + message,
    }
}

/// `head`, then `tail`.
fn after(head: &str, tail: &str) -> (text: String)
    ensures
        text@ == head@ + tail@,
{
    let mut text = String::from_str(head);
    text.append(tail);
    text
}

/// `head`, then `middle`, then `tail`.
fn around(head: &str, middle: &str, tail: &str) -> (text: String)
    ensures
        text@ == head@ + middle@ + tail@,
{
    let mut text = String::from_str(head);
    text.append(middle);
    text.append(tail);
    text
}

impl LineCategory {
    /// The name of the category as it stands in a message.
    pub fn name(&self) -> (name: &'static str)
        ensures
            name@ == category_name(*self),
    {
        match self {
            LineCategory::Position => "position",
            LineCategory::Texture => "texture",
            LineCategory::Normal => "normal",
        }
    }
}

impl ResultError {
    /// The text that says to a reader what went wrong.
    pub fn message(&self) -> (text: String)
        ensures
            text@ == message_of(self@),
    {
        match self {
            ResultError::NotFound(id) => after("could not find asset for id: ", id.as_str()),
            ResultError::InconsistentId { tag, attribute } => {
                let mut text = around("id tag: '", tag.as_str(), "' does not match attribute id: '");
                text.append(attribute.as_str());
                text.append("'");
                text
            },
            ResultError::UnknownAssetKind(kind) => around("unknown asset type: '", kind.as_str(), "'"),
            ResultError::UnknownSubtype(sub) => around(
                "unknown subtype for asset type 'model': '",
                sub.as_str(),
                "'",
            ),
            ResultError::LocationRequired(id) => after("location required for asset: ", id.as_str()),
            ResultError::NotAModel(id) => after("asset is not a model for id: ", id.as_str()),
            ResultError::UnsupportedSubtype(id) => after("no importer serves the model with id: ", id.as_str()),
            ResultError::NameMissing => String::from_str("could not determine the name of the model"),
            ResultError::ParseError { line, category } => {
                let mut text = around("unable to parse wavefront ", category.name(), " vector: ");
                text.append(line.as_str());
                text
            },
            ResultError::FaceParseError { line } => after("unable to parse wavefront index for ", line.as_str()),
            ResultError::IndexOutOfRange => String::from_str(
                "a face refers to a vector that was not loaded",
            ),
            ResultError::MaterialDecodeError => String::from_str("could not parse material file"),
            ResultError::VertexLimitExceeded => String::from_str(
                "the mesh has more vertices than an index can address",
            ),
            ResultError::PatternRejected => String::from_str(
                "failed generating regex for a wavefront model parser",
            ),
            ResultError::HandleLimitExceeded => String::from_str("the model has too many holders"),
            ResultError::NotWritable => String::from_str("write location must not be None"),
            ResultError::NotReadable => String::from_str("manifest location unknown"),
            ResultError::ManifestMissing(location) => around(
                "manifest file: '",
                location.as_str(),
                "' does not exist",
            ),
            ResultError::WriteFailed(id) => after("could not write XML element: ", id.as_str()),
            ResultError::Malformed(message) => around(
                "error reading manifest file, '",
                message.as_str(),
                "'",
            ),
            ResultError::NotReadBack(id) => after(
                "asset does not read back as it was saved: ",
                id.as_str(),
            ),
            ResultError::IOError(message) => after("input or output failed: ", message.as_str()),
        }
    }
}

} // verus!
