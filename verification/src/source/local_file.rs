//! The manifest as a document of one empty element per asset: the element's
//! tag is the asset's id, its attributes carry the rest of the record.

use vstd::prelude::*;
use vstd::string::StringExecFns;
use xml::reader::EventReader;
use xml::reader::XmlEvent as ReadEvent;
use xml::name::Name;
use xml::writer::EmitterConfig;
use xml::writer::XmlEvent as WriteEvent;
use crate::asset::record_of;
use crate::asset::asset_result_view;
use crate::asset::Asset;
use crate::asset::AssetType;
use crate::asset::AssetView;
use crate::asset::ModelType;
use crate::asset::ID_ATTRIBUTE;
use crate::asset::LOCATION_ATTRIBUTE;
use crate::asset::MODEL_TYPE;
use crate::asset::NAME_ATTRIBUTE;
use crate::asset::SUB_TYPE_ATTRIBUTE;
use crate::asset::TEXTURE_TYPE;
use crate::asset::TYPE_ATTRIBUTE;
use crate::asset::WAVEFRONT_TYPE;
use crate::error::ResultError;
use crate::error::ResultErrorView;
use crate::source::AssetSource;
use crate::text::owned;
use crate::text::same_text;
use crate::text::views;

verus! {

/// One attribute of an element, by its local name.
#[derive(Clone, Debug, PartialEq, Eq)]
pub struct Attribute {
    pub name: String,
    pub value: String,
}

/// An element of the manifest document, by its local name.
#[derive(Clone, Debug, PartialEq, Eq)]
pub struct Element {
    pub name: String,
    pub attributes: Vec<Attribute>,
}

/// What the reader meets while it walks a document.
#[derive(Clone, Debug, PartialEq, Eq)]
pub enum DocumentEvent {
    /// An element opens.
    Start(Element),
    /// Anything else that is well formed.
    Other,
    /// The document is not well formed here; the text is the reader's message.
    Failure(String),
}

pub ghost struct AttributeView {
    pub name: Seq<char>,
    pub value: Seq<char>,
}

pub ghost struct ElementView {
    pub name: Seq<char>,
    pub attributes: Seq<AttributeView>,
}

pub ghost enum DocumentEventView {
    Start(ElementView),
    Other,
    Failure(Seq<char>),
}

impl View for Attribute {
    type V = AttributeView;

    open spec fn view(&self) -> AttributeView {
        AttributeView { name: self.name@, value: self.value@ }
    }
}

impl View for Element {
    type V = ElementView;

    open spec fn view(&self) -> ElementView {
        ElementView { name: self.name@, attributes: views(self.attributes@) }
    }
}

impl View for DocumentEvent {
    type V = DocumentEventView;

    open spec fn view(&self) -> DocumentEventView {
        match self {
            DocumentEvent::Start(element) => DocumentEventView::Start(element@),
            DocumentEvent::Other => DocumentEventView::Other,
            DocumentEvent::Failure(message) => DocumentEventView::Failure(message@),
        }
    }
}

// ----------------------------------------------------------------------
// Writing: from records to elements
// ----------------------------------------------------------------------

/// The text of the `type` attribute for a kind.
pub open spec fn kind_text(kind: AssetType) -> Seq<char> {
    match kind {
        AssetType::Model(_) => MODEL_TYPE@,
        AssetType::Texture => TEXTURE_TYPE@,
    }
}

/// The element that stands for a record with a location: `name`, `location`
/// and `type`, then `sub_type` where the record is a model that declares one.
pub open spec fn element_of(asset: AssetView) -> ElementView
    recommends
        asset.location is Some,
{
    let fixed = seq![
        AttributeView { name: NAME_ATTRIBUTE@, value: asset.name },
        AttributeView { name: LOCATION_ATTRIBUTE@, value: asset.location->0 },
        AttributeView { name: TYPE_ATTRIBUTE@, value: kind_text(asset.asset_type) },
    ];
    ElementView {
        name: asset.id,
        attributes: match asset.asset_type {
            AssetType::Model(Some(ModelType::Wavefront)) => fixed.push(
                AttributeView { name: SUB_TYPE_ATTRIBUTE@, value: WAVEFRONT_TYPE@ },
            ),
            _ => fixed,
        },
    }
}

/// The elements that stand for records that all have a location.
pub open spec fn elements_of(assets: Seq<AssetView>) -> Seq<ElementView> {
    Seq::new(assets.len(), |i: int| element_of(assets[i]))
}

#[verifier::external_type_specification]
#[verifier::external_body]
#[verifier::reject_recursive_types(W)]
pub struct ExEventWriter<W>(xml::writer::EventWriter<W>);

#[verifier::external_type_specification]
#[verifier::external_body]
pub struct ExEmitterError(xml::writer::Error);

/// The elements that a writer was given so far, in their order.
pub uninterp spec fn given(writer: xml::writer::EventWriter<Vec<u8>>) -> Seq<ElementView>;

/// Whether a writer was made to set markup on lines of its own.
pub uninterp spec fn indenting(writer: xml::writer::EventWriter<Vec<u8>>) -> bool;

/// What a writer gives for a run of empty elements that it is given one
/// after the other, from a fresh document on and as far as it accepts them:
/// the bytes that it emits, and the place of the element that it refuses,
/// if it refuses one. With `indent`, markup is set on lines of its own.
pub uninterp spec fn xml_document_text(indent: bool, elements: Seq<ElementView>) -> (
    Seq<u8>,
    Option<int>,
);

/// Whether the writer refuses the record at `place`, after it has accepted
/// the records before it.
pub open spec fn refused_at(assets: Seq<AssetView>, place: int) -> bool {
    xml_document_text(true, elements_of(assets.take(place + 1))).1 is Some
}

/// The place at or after `from` where a call of `save` stops: at the first
/// record that has no location or whose element the writer refuses, or at
/// the end of the records.
pub open spec fn first_stop(assets: Seq<AssetView>, from: int) -> int
    decreases assets.len() - from,
{
    if from < 0 || from >= assets.len() {
        assets.len() as int
    } else if assets[from].location is None || refused_at(assets, from) {
        from
    } else {
        first_stop(assets, from + 1)
    }
}

/// How many records a call of `save` hands to the writer: those before the
/// place where it stops and, where it stops at a refusal, the refused one.
pub open spec fn handed(assets: Seq<AssetView>) -> int {
    let stop = first_stop(assets, 0);
    if stop < assets.len() && assets[stop].location is Some {
        stop + 1
    } else {
        stop
    }
}

/// What a call of `save` appends to the sink: what one writer emits for the
/// records that it is handed.
pub open spec fn written(assets: Seq<AssetView>) -> Seq<u8> {
    xml_document_text(true, elements_of(assets.take(handed(assets)))).0
}

/// What a call of `save` reports: the record without a location or the
/// element that was refused, whichever comes first.
pub open spec fn save_result(assets: Seq<AssetView>) -> Result<(), ResultErrorView> {
    let stop = first_stop(assets, 0);
    if stop >= assets.len() {
        Ok(())
    } else if assets[stop].location is None {
        Err(ResultErrorView::LocationRequired(assets[stop].id))
    } else {
        Err(ResultErrorView::WriteFailed(assets[stop].id))
    }
}

/// Makes an `EventWriter` of xml over an empty buffer with `EmitterConfig`,
/// with indentation as `indent` says. It was given nothing yet, so it has
/// refused nothing.
#[verifier::external_body]
fn open_document(indent: bool) -> (writer: xml::writer::EventWriter<Vec<u8>>)
    ensures
        given(writer) == Seq::<ElementView>::empty(),
        indenting(writer) == indent,
        xml_document_text(indent, given(writer)).1 is None,
{
    EmitterConfig::new().perform_indent(indent).create_writer(Vec::new())
}

/// Gives a writer that has refused nothing one more element, with
/// `EventWriter::write`: the start tag with the element's attributes, then
/// the end tag of that name. The call fails if and only if the writer
/// refuses the element, which depends on what it was given and on nothing
/// else.
#[verifier::external_body]
fn write_element(writer: &mut xml::writer::EventWriter<Vec<u8>>, element: &Element) -> (r: Result<
    (),
    xml::writer::Error,
>)
    requires
        xml_document_text(indenting(*old(writer)), given(*old(writer))).1 is None,
    ensures
        given(*final(writer)) == given(*old(writer)).push(element@),
        indenting(*final(writer)) == indenting(*old(writer)),
        r is Ok <==> xml_document_text(indenting(*old(writer)), given(*final(writer))).1 is None,
{
    let start = element.attributes.iter().fold(
        WriteEvent::start_element(element.name.as_str()),
        |tag, a| tag.attr(a.name.as_str(), a.value.as_str()),
    );
    let end = WriteEvent::EndElement { name: Some(Name::local(element.name.as_str())) };
    writer.write(start).and_then(|_| writer.write(end))
}

/// Takes the buffer out of a writer with `EventWriter::into_inner`: it holds
/// what the writer emitted for the elements that it was given.
#[verifier::external_body]
fn close_document(writer: xml::writer::EventWriter<Vec<u8>>) -> (emitted: Vec<u8>)
    ensures
        emitted@ == xml_document_text(indenting(writer), given(writer)).0,
{
    writer.into_inner()
}

/// The view of an element that may be absent.
pub open spec fn optional_element(element: Option<Element>) -> Option<ElementView> {
    match element {
        Some(element) => Some(element@),
        None => None,
    }
}

/// Builds the element for a record, where the record has a location.
pub fn encode_asset(asset: &Asset) -> (element: Option<Element>)
    ensures
        optional_element(element) == match asset@.location {
            Some(_) => Some(element_of(asset@)),
            None => None,
        },
{
    let location = match &asset.location {
        Some(location) => location,
        None => {
            return None;
        },
    };
    let mut attributes: Vec<Attribute> = Vec::new();
    attributes.push(Attribute { name: owned(NAME_ATTRIBUTE), value: asset.name.clone() });
    attributes.push(Attribute { name: owned(LOCATION_ATTRIBUTE), value: location.clone() });
    match asset.asset_type {
        AssetType::Model(sub_type) => {
            attributes.push(Attribute { name: owned(TYPE_ATTRIBUTE), value: owned(MODEL_TYPE) });
            match sub_type {
                Some(ModelType::Wavefront) => {
                    attributes.push(
                        Attribute { name: owned(SUB_TYPE_ATTRIBUTE), value: owned(WAVEFRONT_TYPE) },
                    );
                },
                None => {},
            }
        },
        AssetType::Texture => {
            attributes.push(Attribute { name: owned(TYPE_ATTRIBUTE), value: owned(TEXTURE_TYPE) });
        },
    }
    let element = Element { name: asset.id.clone(), attributes };
    assert(element@.attributes =~= element_of(asset@).attributes);
    Some(element)
}

/// The view of a result that holds nothing or an error.
pub open spec fn unit_result_view(r: Result<(), ResultError>) -> Result<(), ResultErrorView> {
    match r {
        Ok(()) => Ok(()),
        Err(e) => Err(e@),
    }
}

/// Writes the records to `sink` with one writer, one element each, until
/// one has no location or the writer refuses one.
pub fn write_assets(sink: &mut Vec<u8>, assets: &Vec<Asset>) -> (r: Result<(), ResultError>)
    ensures
        final(sink)@ == old(sink)@ + written(views(assets@)),
        unit_result_view(r) == save_result(views(assets@)),
{
    let ghost records = views(assets@);
    let mut writer = open_document(true);
    let mut outcome: Result<(), ResultError> = Ok(());
    let mut i: usize = 0;
    assert(records.take(0) =~= Seq::<AssetView>::empty());
    assert(elements_of(records.take(0)) =~= Seq::<ElementView>::empty());
    while i < assets.len() && outcome.is_ok()
        invariant
            i <= assets.len(),
            records == views(assets@),
            indenting(writer),
            outcome is Ok ==> given(writer) == elements_of(records.take(i as int)),
            outcome is Ok ==> xml_document_text(true, given(writer)).1 is None,
            outcome is Ok ==> first_stop(records, 0) == first_stop(records, i as int),
            outcome is Err ==> given(writer) == elements_of(records.take(handed(records))),
            outcome is Err ==> unit_result_view(outcome) == save_result(records),
        decreases assets.len() - i + (if outcome is Ok { 1int } else { 0int }),
    {
        let asset = &assets[i];
        match encode_asset(asset) {
            None => {
                outcome = Err(ResultError::LocationRequired(asset.id.clone()));
            },
            Some(element) => {
                assert(elements_of(records.take(i as int + 1)) =~= elements_of(
                    records.take(i as int),
                ).push(element@)) by {
                    assert(records.take(i as int + 1)[i as int] == asset@);
                }
                match write_element(&mut writer, &element) {
                    Ok(()) => {
                        i += 1;
                    },
                    Err(_) => {
                        outcome = Err(ResultError::WriteFailed(asset.id.clone()));
                    },
                }
            },
        }
    }
    let mut emitted = close_document(writer);
    sink.append(&mut emitted);
    outcome
}

// ----------------------------------------------------------------------
// Reading: from elements to a record
// ----------------------------------------------------------------------

/// The events that the reader yields for a document, up to and including
/// the end of the document or the first failure.
pub uninterp spec fn xml_events(document: Seq<u8>) -> Seq<DocumentEventView>;

/// Walks xml's `EventReader` over the document and keeps, of every event in
/// order, what the manifest reads: the local names and the attribute values
/// of a start tag, the message of a failure, and that there was an event
/// otherwise. The iterator ends after the end of the document or the first
/// failure; the events are a function of the document alone.
#[verifier::external_body]
fn read_events(document: &[u8]) -> (events: Vec<DocumentEvent>)
    ensures
        views(events@) == xml_events(document@),
{
    EventReader::new(document).into_iter().map(|event| match event {
        Ok(ReadEvent::StartElement { name, attributes, .. }) => DocumentEvent::Start(Element {
            name: name.local_name,
            attributes: attributes.into_iter().map(|a| Attribute {
                name: a.name.local_name,
                value: a.value,
            }).collect(),
        }),
        Ok(_) => DocumentEvent::Other,
        Err(e) => DocumentEvent::Failure(e.to_string()),
    }).collect()
}

/// The value of the last attribute named `key` among the first `upto`, or
/// the empty text where there is none.
pub open spec fn attribute_value_upto(
    attributes: Seq<AttributeView>,
    key: Seq<char>,
    upto: int,
) -> Seq<char>
    decreases upto,
{
    if upto <= 0 || upto > attributes.len() {
        Seq::empty()
    } else if attributes[upto - 1].name == key {
        attributes[upto - 1].value
    } else {
        attribute_value_upto(attributes, key, upto - 1)
    }
}

/// The value of the last attribute named `key`, or the empty text.
pub open spec fn attribute_value(attributes: Seq<AttributeView>, key: Seq<char>) -> Seq<char> {
    attribute_value_upto(attributes, key, attributes.len() as int)
}

/// The value of the first `id` attribute, at or after `from`, that differs
/// from the element's tag.
pub open spec fn foreign_id(attributes: Seq<AttributeView>, tag: Seq<char>, from: int) -> Option<
    Seq<char>,
>
    decreases attributes.len() - from,
{
    if from < 0 || from >= attributes.len() {
        None
    } else if attributes[from].name == ID_ATTRIBUTE@ && attributes[from].value != tag {
        Some(attributes[from].value)
    } else {
        foreign_id(attributes, tag, from + 1)
    }
}

/// The record that an element with the tag `id` and these attributes denotes.
pub open spec fn decoded(attributes: Seq<AttributeView>, id: Seq<char>) -> Result<
    AssetView,
    ResultErrorView,
> {
    match foreign_id(attributes, id, 0) {
        Some(attribute) => Err(ResultErrorView::InconsistentId { tag: id, attribute }),
        None => record_of(
            attribute_value(attributes, LOCATION_ATTRIBUTE@),
            id,
            attribute_value(attributes, NAME_ATTRIBUTE@),
            attribute_value(attributes, TYPE_ATTRIBUTE@),
            attribute_value(attributes, SUB_TYPE_ATTRIBUTE@),
        ),
    }
}

/// What a scan of the events from place `from` on finds for `id`: the record
/// of the first element with that tag, the first failure where it comes
/// before such an element, and `NotFound` where the events run out.
pub open spec fn found_from(events: Seq<DocumentEventView>, id: Seq<char>, from: int) -> Result<
    AssetView,
    ResultErrorView,
>
    decreases events.len() - from,
{
    if from < 0 || from >= events.len() {
        Err(ResultErrorView::NotFound(id))
    } else {
        match events[from] {
            DocumentEventView::Start(element) => if element.name == id {
                decoded(element.attributes, id)
            } else {
                found_from(events, id, from + 1)
            },
            DocumentEventView::Failure(message) => Err(ResultErrorView::Malformed(message)),
            DocumentEventView::Other => found_from(events, id, from + 1),
        }
    }
}

/// What a scan of all the events finds for `id`.
pub open spec fn found(events: Seq<DocumentEventView>, id: Seq<char>) -> Result<
    AssetView,
    ResultErrorView,
> {
    found_from(events, id, 0)
}

/// The value of the last attribute named `key`, or the empty text.
pub fn value_of(attributes: &Vec<Attribute>, key: &str) -> (value: String)
    ensures
        value@ == attribute_value(views(attributes@), key@),
{
    let ghost seen = views(attributes@);
    let mut i: usize = attributes.len();
    while i > 0
        invariant
            i <= attributes.len(),
            seen == views(attributes@),
            attribute_value(seen, key@) == attribute_value_upto(seen, key@, i as int),
        decreases i,
    {
        let attribute = &attributes[i - 1];
        if same_text(attribute.name.as_str(), key) {
            return attribute.value.clone();
        }
        i -= 1;
    }
    String::new()
}

/// Reads the record of an element whose tag is `id`.
pub fn decode_element(element: &Element, id: &str) -> (r: Result<Asset, ResultError>)
    ensures
        asset_result_view(r) == decoded(element@.attributes, id@),
{
    let ghost seen = views(element.attributes@);
    let mut i: usize = 0;
    while i < element.attributes.len()
        invariant
            i <= element.attributes.len(),
            seen == views(element.attributes@),
            foreign_id(seen, id@, 0) == foreign_id(seen, id@, i as int),
        decreases element.attributes.len() - i,
    {
        let attribute = &element.attributes[i];
        if same_text(attribute.name.as_str(), ID_ATTRIBUTE) && !same_text(
            attribute.value.as_str(),
            id,
        ) {
            return Err(
                ResultError::InconsistentId { tag: owned(id), attribute: attribute.value.clone() },
            );
        }
        i += 1;
    }
    let location = value_of(&element.attributes, LOCATION_ATTRIBUTE);
    let name = value_of(&element.attributes, NAME_ATTRIBUTE);
    let tpe = value_of(&element.attributes, TYPE_ATTRIBUTE);
    let sub_type = value_of(&element.attributes, SUB_TYPE_ATTRIBUTE);
    Asset::new(location.as_str(), id, name.as_str(), tpe.as_str(), sub_type.as_str())
}

/// Scans the events of a manifest document for the asset `id`.
pub fn find_asset(events: &Vec<DocumentEvent>, id: &str) -> (r: Result<Asset, ResultError>)
    ensures
        asset_result_view(r) == found(views(events@), id@),
{
    let ghost seen = views(events@);
    let mut i: usize = 0;
    while i < events.len()
        invariant
            i <= events.len(),
            seen == views(events@),
            found(seen, id@) == found_from(seen, id@, i as int),
        decreases events.len() - i,
    {
        match &events[i] {
            DocumentEvent::Start(element) => {
                if same_text(element.name.as_str(), id) {
                    return decode_element(element, id);
                }
            },
            DocumentEvent::Failure(message) => {
                return Err(ResultError::Malformed(message.clone()));
            },
            DocumentEvent::Other => {},
        }
        i += 1;
    }
    Err(ResultError::NotFound(owned(id)))
}

// ----------------------------------------------------------------------
// The store
// ----------------------------------------------------------------------

/// A manifest held in memory. A store made by `new` collects in `sink` what
/// `save` writes; a store made by `load` answers lookups from `document`.
pub struct LocalFile {
    pub sink: Option<Vec<u8>>,
    pub document: Option<Vec<u8>>,
}

impl LocalFile {
    /// A store to write to, with nothing written yet.
    pub fn new() -> (store: Self)
        ensures
            store.sink is Some,
            store.sink->0@.len() == 0,
            store.document is None,
    {
        LocalFile { sink: Some(Vec::new()), document: None }
    }

    /// A store to read from, over the contents of the manifest at
    /// `manifest`; `None` says that no such manifest exists.
    pub fn load(manifest: &str, contents: Option<Vec<u8>>) -> (r: Result<Self, ResultError>)
        ensures
            match contents {
                Some(document) => r is Ok && r->Ok_0.sink is None && r->Ok_0.document == Some(
                    document,
                ),
                None => r is Err && r->Err_0@ == ResultErrorView::ManifestMissing(manifest@),
            },
    {
        match contents {
            Some(document) => Ok(LocalFile { sink: None, document: Some(document) }),
            None => Err(ResultError::ManifestMissing(owned(manifest))),
        }
    }
}

/// The place of the first record at or after `from` that a lookup of its id
/// in `document` does not give back, or the number of records.
pub open spec fn first_unread(assets: Seq<AssetView>, document: Seq<u8>, from: int) -> int
    decreases assets.len() - from,
{
    if from < 0 || from >= assets.len() {
        assets.len() as int
    } else if found(xml_events(document), assets[from].id) != Ok::<AssetView, ResultErrorView>(
        assets[from],
    ) {
        from
    } else {
        first_unread(assets, document, from + 1)
    }
}

/// What `save_checked` reports: what `save` reports, and where that is
/// success, the first record that does not read back from what was written.
pub open spec fn checked_result(assets: Seq<AssetView>) -> Result<(), ResultErrorView> {
    match save_result(assets) {
        Err(e) => Err(e),
        Ok(()) => {
            let unread = first_unread(assets, written(assets), 0);
            if unread < assets.len() {
                Err(ResultErrorView::NotReadBack(assets[unread].id))
            } else {
                Ok(())
            }
        },
    }
}

/// Whether two records are the same.
pub fn same_asset(a: &Asset, b: &Asset) -> (same: bool)
    ensures
        same == (a@ == b@),
{
    let same_location = match &a.location {
        Some(first) => match &b.location {
            Some(second) => same_text(first.as_str(), second.as_str()),
            None => false,
        },
        None => b.location.is_none(),
    };
    let same_kind = match a.asset_type {
        AssetType::Texture => match b.asset_type {
            AssetType::Texture => true,
            AssetType::Model(_) => false,
        },
        AssetType::Model(first) => match b.asset_type {
            AssetType::Texture => false,
            AssetType::Model(second) => match first {
                None => second.is_none(),
                Some(format) => match second {
                    None => false,
                    Some(other) => format == other,
                },
            },
        },
    };
    let same_id = same_text(a.id.as_str(), b.id.as_str());
    let same_name = same_text(a.name.as_str(), b.name.as_str());
    assert(same_location == (a@.location == b@.location));
    assert(same_kind == (a@.asset_type == b@.asset_type));
    same_location && same_kind && same_id && same_name
}

/// The first record that a lookup of its id in the events does not give
/// back.
fn find_unread(assets: &Vec<Asset>, events: &Vec<DocumentEvent>, Ghost(document): Ghost<Seq<u8>>) -> (r:
    Option<usize>)
    requires
        views(events@) == xml_events(document),
    ensures
        match r {
            Some(place) => place < assets@.len() && first_unread(views(assets@), document, 0)
                == place,
            None => first_unread(views(assets@), document, 0) == assets@.len(),
        },
{
    let ghost records = views(assets@);
    let mut i: usize = 0;
    while i < assets.len()
        invariant
            i <= assets.len(),
            records == views(assets@),
            views(events@) == xml_events(document),
            first_unread(records, document, 0) == first_unread(records, document, i as int),
        decreases assets.len() - i,
    {
        let asset = &assets[i];
        assert(records[i as int] == asset@);
        let back = match find_asset(events, asset.id.as_str()) {
            Ok(read) => same_asset(&read, asset),
            Err(_) => false,
        };
        if !back {
            return Some(i);
        }
        i += 1;
    }
    None
}

impl LocalFile {
    /// Saves as `save` does, and where that succeeds reads back what it
    /// wrote: it reports success only if a lookup of the id of every record
    /// gives that record. What was written stays in the sink either way.
    pub fn save_checked(&mut self, assets: Vec<Asset>) -> (r: Result<(), ResultError>)
        ensures
            final(self).document == old(self).document,
            match old(self).sink {
                None => final(self).sink is None && unit_result_view(r) == Err::<
                    (),
                    ResultErrorView,
                >(ResultErrorView::NotWritable),
                Some(before) => final(self).sink is Some && final(self).sink->0@ == before@
                    + written(views(assets@)) && unit_result_view(r) == checked_result(
                    views(assets@),
                ),
            },
    {
        let sink = match &mut self.sink {
            None => {
                return Err(ResultError::NotWritable);
            },
            Some(sink) => sink,
        };
        let mut fresh: Vec<u8> = Vec::new();
        let saved = write_assets(&mut fresh, &assets);
        assert(fresh@ =~= written(views(assets@)));
        let unread = match saved {
            Ok(()) => {
                let events = read_events(fresh.as_slice());
                find_unread(&assets, &events, Ghost(fresh@))
            },
            Err(_) => None,
        };
        sink.append(&mut fresh);
        match saved {
            Err(e) => Err(e),
            Ok(()) => match unread {
                Some(place) => Err(ResultError::NotReadBack(assets[place].id.clone())),
                None => Ok(()),
            },
        }
    }
}

/// Round trip, checked. Where `save_checked` reports success, a lookup of
/// the id of any of the records in what it wrote gives that record: equal in
/// id, name, location and kind.
pub proof fn lemma_checked_round_trip(assets: Seq<AssetView>, k: int)
    requires
        0 <= k < assets.len(),
        checked_result(assets) is Ok,
    ensures
        found(xml_events(written(assets)), assets[k].id) == Ok::<AssetView, ResultErrorView>(
            assets[k],
        ),
{
    lemma_read_from(assets, written(assets), 0, k);
}

/// Records before the first one that does not read back do read back.
proof fn lemma_read_from(assets: Seq<AssetView>, document: Seq<u8>, from: int, k: int)
    requires
        0 <= from <= k < assets.len(),
        first_unread(assets, document, from) >= assets.len(),
    ensures
        found(xml_events(document), assets[k].id) == Ok::<AssetView, ResultErrorView>(assets[k]),
    decreases k - from,
{
    if from < k {
        lemma_read_from(assets, document, from + 1, k);
    }
}

impl AssetSource for LocalFile {
    /// Appends one element per record to the sink, in order. A record
    /// without a location ends the call with `LocationRequired`, an element
    /// that the writer refuses with `WriteFailed`; what was written before
    /// stays written.
    fn save(&mut self, assets: Vec<Asset>) -> (r: Result<(), ResultError>)
        ensures
            final(self).document == old(self).document,
            match old(self).sink {
                None => final(self).sink is None && unit_result_view(r) == Err::<
                    (),
                    ResultErrorView,
                >(ResultErrorView::NotWritable),
                Some(before) => final(self).sink is Some && final(self).sink->0@ == before@
                    + written(views(assets@)) && unit_result_view(r) == save_result(
                    views(assets@),
                ),
            },
    {
        match &mut self.sink {
            None => Err(ResultError::NotWritable),
            Some(sink) => write_assets(sink, &assets),
        }
    }

    /// The record of the first element of the document whose tag is `id`.
    fn get_by_id(&self, id: &str) -> (r: Result<Asset, ResultError>)
        ensures
            match self.document {
                None => asset_result_view(r) == Err::<AssetView, ResultErrorView>(
                    ResultErrorView::NotReadable,
                ),
                Some(document) => asset_result_view(r) == found(xml_events(document@), id@),
            },
    {
        match &self.document {
            None => Err(ResultError::NotReadable),
            Some(document) => {
                let events = read_events(document.as_slice());
                find_asset(&events, id)
            },
        }
    }
}

// ----------------------------------------------------------------------
// What is written can be read
// ----------------------------------------------------------------------

/// The elements that open in the events at or after `from`, in order.
pub open spec fn started_from(events: Seq<DocumentEventView>, from: int) -> Seq<ElementView>
    decreases events.len() - from,
{
    if from < 0 || from >= events.len() {
        Seq::empty()
    } else {
        match events[from] {
            DocumentEventView::Start(element) => seq![element] + started_from(events, from + 1),
            _ => started_from(events, from + 1),
        }
    }
}

/// Whether the reader met no failure.
pub open spec fn well_read(events: Seq<DocumentEventView>) -> bool {
    forall|i: int| 0 <= i < events.len() ==> !((#[trigger] events[i]) is Failure)
}

/// Whether a record can be read back as it was saved: it has a location
/// that is not empty, and, where it is a model, it declares its format.
pub open spec fn round_trips(asset: AssetView) -> bool {
    &&& asset.location is Some
    &&& asset.location->0.len() > 0
    &&& asset.asset_type != AssetType::Model(None)
}

/// The element of a record reads back as the record.
proof fn lemma_decode_encoded(asset: AssetView)
    requires
        round_trips(asset),
    ensures
        decoded(element_of(asset).attributes, asset.id) == Ok::<AssetView, ResultErrorView>(asset),
{
    reveal_strlit("id");
    reveal_strlit("location");
    reveal_strlit("name");
    reveal_strlit("type");
    reveal_strlit("sub_type");
    reveal_strlit("model");
    reveal_strlit("texture");
    reveal_strlit("wavefront");
    reveal_with_fuel(foreign_id, 6);
    reveal_with_fuel(attribute_value_upto, 6);
    let attributes = element_of(asset).attributes;
    assert(NAME_ATTRIBUTE@ != ID_ATTRIBUTE@) by {
        assert(NAME_ATTRIBUTE@.len() == 4);
        assert(ID_ATTRIBUTE@.len() == 2);
    }
    assert(LOCATION_ATTRIBUTE@.len() == 8);
    assert(TYPE_ATTRIBUTE@[0] == 't');
    assert(NAME_ATTRIBUTE@[0] == 'n');
    assert(SUB_TYPE_ATTRIBUTE@.len() == 8);
    assert(SUB_TYPE_ATTRIBUTE@[0] == 's');
    assert(LOCATION_ATTRIBUTE@[0] == 'l');
    assert(MODEL_TYPE@.len() == 5);
    assert(TEXTURE_TYPE@.len() == 7);
    match asset.asset_type {
        AssetType::Model(sub_type) => {
            assert(sub_type == Some(ModelType::Wavefront)) by {
                match sub_type {
                    Some(ModelType::Wavefront) => {},
                    None => {},
                }
            }
            assert(attributes.len() == 4);
            assert(foreign_id(attributes, asset.id, 0) is None);
            assert(attribute_value(attributes, SUB_TYPE_ATTRIBUTE@) == WAVEFRONT_TYPE@);
            assert(attribute_value(attributes, TYPE_ATTRIBUTE@) == MODEL_TYPE@);
            assert(attribute_value(attributes, LOCATION_ATTRIBUTE@) == asset.location->0);
            assert(attribute_value(attributes, NAME_ATTRIBUTE@) == asset.name);
        },
        AssetType::Texture => {
            assert(attributes.len() == 3);
            assert(foreign_id(attributes, asset.id, 0) is None);
            assert(attribute_value(attributes, SUB_TYPE_ATTRIBUTE@) == Seq::<char>::empty());
            assert(attribute_value(attributes, TYPE_ATTRIBUTE@) == TEXTURE_TYPE@);
            assert(attribute_value(attributes, LOCATION_ATTRIBUTE@) == asset.location->0);
            assert(attribute_value(attributes, NAME_ATTRIBUTE@) == asset.name);
        },
    }
}

/// A scan that has the elements of the records from `first` on before it
/// finds the record `k`.
proof fn lemma_find_encoded(
    assets: Seq<AssetView>,
    events: Seq<DocumentEventView>,
    k: int,
    from: int,
    first: int,
)
    requires
        0 <= first <= k < assets.len(),
        0 <= from <= events.len(),
        forall|i: int| 0 <= i < assets.len() ==> round_trips(#[trigger] assets[i]),
        forall|i: int, j: int|
            0 <= i < j < assets.len() ==> (#[trigger] assets[i]).id != (#[trigger] assets[j]).id,
        well_read(events),
        started_from(events, from) == elements_of(assets).skip(first),
    ensures
        found_from(events, assets[k].id, from) == Ok::<AssetView, ResultErrorView>(assets[k]),
    decreases events.len() - from,
{
    let rest = elements_of(assets).skip(first);
    assert(rest.len() > 0);
    assert(rest[0] == element_of(assets[first]));
    if from >= events.len() {
        assert(started_from(events, from).len() == 0);
    } else {
        match events[from] {
            DocumentEventView::Start(element) => {
                let later = started_from(events, from + 1);
                assert((seq![element] + later)[0] == element);
                assert(element == element_of(assets[first]));
                if first == k {
                    lemma_decode_encoded(assets[k]);
                } else {
                    assert(later =~= (seq![element] + later).skip(1));
                    assert(rest.skip(1) =~= elements_of(assets).skip(first + 1));
                    lemma_find_encoded(assets, events, k, from + 1, first + 1);
                }
            },
            DocumentEventView::Failure(_) => {
                assert(!(events[from] is Failure));
            },
            DocumentEventView::Other => {
                lemma_find_encoded(assets, events, k, from + 1, first);
            },
        }
    }
}

/// Where every record has a location and the writer refuses none, `save`
/// stops nowhere.
proof fn lemma_no_stop(assets: Seq<AssetView>, from: int)
    requires
        0 <= from <= assets.len(),
        forall|i: int| 0 <= i < assets.len() ==> (#[trigger] assets[i]).location is Some,
        forall|i: int| 0 <= i < assets.len() ==> !#[trigger] refused_at(assets, i),
    ensures
        first_stop(assets, from) == assets.len(),
    decreases assets.len() - from,
{
    if from < assets.len() {
        lemma_no_stop(assets, from + 1);
    }
}

/// Round trip. Take records with distinct ids that each have a location
/// that is not empty and, where they are models, a format, and let the
/// writer accept the element of each. Then `save` succeeds. If moreover the
/// document that it wrote into an empty sink reads without failure as the
/// elements that were written, then `get_by_id` on that document gives, for
/// the id of any of the records, that record: equal in id, name, location
/// and kind.
pub proof fn lemma_round_trip(assets: Seq<AssetView>, k: int)
    requires
        0 <= k < assets.len(),
        forall|i: int| 0 <= i < assets.len() ==> round_trips(#[trigger] assets[i]),
        forall|i: int, j: int|
            0 <= i < j < assets.len() ==> (#[trigger] assets[i]).id != (#[trigger] assets[j]).id,
        forall|i: int| 0 <= i < assets.len() ==> !#[trigger] refused_at(assets, i),
        well_read(xml_events(xml_document_text(true, elements_of(assets)).0)),
        started_from(xml_events(xml_document_text(true, elements_of(assets)).0), 0) == elements_of(
            assets,
        ),
    ensures
        save_result(assets) == Ok::<(), ResultErrorView>(()),
        written(assets) == xml_document_text(true, elements_of(assets)).0,
        found(xml_events(written(assets)), assets[k].id) == Ok::<AssetView, ResultErrorView>(
            assets[k],
        ),
{
    lemma_no_stop(assets, 0);
    assert(assets.take(assets.len() as int) =~= assets);
    assert(elements_of(assets).skip(0) =~= elements_of(assets));
    lemma_find_encoded(assets, xml_events(written(assets)), k, 0, 0);
}

} // verus!
