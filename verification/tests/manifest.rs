use asset_pipeline::asset::Asset;
use asset_pipeline::asset::AssetType;
use asset_pipeline::asset::ModelType;
use asset_pipeline::error::ResultError;
use asset_pipeline::source::local_file::same_asset;
use asset_pipeline::source::local_file::decode_element;
use asset_pipeline::source::local_file::encode_asset;
use asset_pipeline::source::local_file::find_asset;
use asset_pipeline::source::local_file::value_of;
use asset_pipeline::source::local_file::write_assets;
use asset_pipeline::source::local_file::Attribute;
use asset_pipeline::source::local_file::DocumentEvent;
use asset_pipeline::source::local_file::Element;
use asset_pipeline::source::local_file::LocalFile;
use asset_pipeline::source::AssetSource;

fn model(id: &str, name: &str, location: &str) -> Asset {
    Asset {
        location: Some(location.to_string()),
        asset_type: AssetType::Model(Some(ModelType::Wavefront)),
        name: name.to_string(),
        id: id.to_string(),
    }
}

fn texture(id: &str, name: &str, location: &str) -> Asset {
    Asset {
        location: Some(location.to_string()),
        asset_type: AssetType::Texture,
        name: name.to_string(),
        id: id.to_string(),
    }
}

fn attribute(name: &str, value: &str) -> Attribute {
    Attribute { name: name.to_string(), value: value.to_string() }
}

fn saved(assets: Vec<Asset>) -> Vec<u8> {
    let mut store = LocalFile::new();
    store.save(assets).unwrap();
    store.sink.unwrap()
}

fn reader(document: &[u8]) -> LocalFile {
    LocalFile::load("manifest.xml", Some(document.to_vec())).unwrap()
}

/// What xml's writer gives when it is kept open over all the records, up to
/// the first one that it refuses.
fn written_in_one_go(assets: &[Asset]) -> Vec<u8> {
    let mut writer = xml::writer::EmitterConfig::new().perform_indent(true).create_writer(Vec::new());
    for asset in assets {
        let location = asset.location.clone().unwrap();
        let mut start = xml::writer::XmlEvent::start_element(asset.id.as_str())
            .attr("name", asset.name.as_str())
            .attr("location", location.as_str());
        start = match asset.asset_type {
            AssetType::Model(Some(ModelType::Wavefront)) => {
                start.attr("type", "model").attr("sub_type", "wavefront")
            }
            AssetType::Model(None) => start.attr("type", "model"),
            AssetType::Texture => start.attr("type", "texture"),
        };
        let end = xml::writer::XmlEvent::EndElement {
            name: Some(xml::name::Name::local(asset.id.as_str())),
        };
        if writer.write(start).is_err() || writer.write(end).is_err() {
            break;
        }
    }
    writer.into_inner()
}

#[test]
fn asset_new_reads_a_wavefront_model() {
    let asset = Asset::new("models/cube.obj", "cube", "Cube", "model", "wavefront").unwrap();
    assert_eq!(asset, model("cube", "Cube", "models/cube.obj"));
}

#[test]
fn asset_new_reads_a_texture_and_ignores_its_sub_type() {
    let asset = Asset::new("textures/wood.png", "wood", "Wood", "texture", "anything").unwrap();
    assert_eq!(asset, texture("wood", "Wood", "textures/wood.png"));
}

#[test]
fn asset_new_takes_an_empty_location_for_none() {
    let asset = Asset::new("", "wood", "Wood", "texture", "").unwrap();
    assert_eq!(asset.location, None);
}

#[test]
fn asset_new_rejects_an_unknown_kind() {
    assert_eq!(
        Asset::new("a", "b", "c", "sound", "wavefront"),
        Err(ResultError::UnknownAssetKind("sound".to_string()))
    );
}

#[test]
fn asset_new_rejects_an_unknown_sub_type() {
    assert_eq!(
        Asset::new("a", "b", "c", "model", "collada"),
        Err(ResultError::UnknownSubtype("collada".to_string()))
    );
    assert_eq!(
        Asset::new("a", "b", "c", "model", ""),
        Err(ResultError::UnknownSubtype(String::new()))
    );
}

#[test]
fn asset_type_new_is_case_sensitive() {
    assert_eq!(
        AssetType::new("Model", "wavefront"),
        Err(ResultError::UnknownAssetKind("Model".to_string()))
    );
    assert_eq!(AssetType::new("texture", ""), Ok(AssetType::Texture));
}

#[test]
fn encode_asset_lists_the_attributes_in_order() {
    let asset = model("cube", "Cube", "models/cube.obj");
    let element = encode_asset(&asset).unwrap();
    assert_eq!(
        element,
        Element {
            name: "cube".to_string(),
            attributes: vec![
                attribute("name", "Cube"),
                attribute("location", "models/cube.obj"),
                attribute("type", "model"),
                attribute("sub_type", "wavefront"),
            ],
        }
    );
}

#[test]
fn encode_asset_gives_a_texture_no_sub_type() {
    let asset = texture("wood", "Wood", "wood.png");
    let element = encode_asset(&asset).unwrap();
    assert_eq!(
        element.attributes,
        vec![attribute("name", "Wood"), attribute("location", "wood.png"), attribute("type", "texture")]
    );
}

#[test]
fn encode_asset_gives_a_model_without_format_no_sub_type() {
    let mut asset = model("cube", "Cube", "cube.obj");
    asset.asset_type = AssetType::Model(None);
    let element = encode_asset(&asset).unwrap();
    assert_eq!(
        element.attributes,
        vec![attribute("name", "Cube"), attribute("location", "cube.obj"), attribute("type", "model")]
    );
}

#[test]
fn encode_asset_needs_a_location() {
    let mut asset = model("cube", "Cube", "cube.obj");
    asset.location = None;
    assert_eq!(encode_asset(&asset), None);
}

#[test]
fn save_writes_one_element_per_record() {
    let text = String::from_utf8(saved(vec![
        model("cube", "Cube", "models/cube.obj"),
        texture("wood", "Wood", "textures/wood.png"),
    ]))
    .unwrap();
    assert_eq!(
        text,
        "<?xml version=\"1.0\" encoding=\"UTF-8\"?>\n\
         <cube name=\"Cube\" location=\"models/cube.obj\" type=\"model\" sub_type=\"wavefront\" />\n\
         <wood name=\"Wood\" location=\"textures/wood.png\" type=\"texture\" />"
    );
}

#[test]
fn save_writes_what_a_writer_kept_open_writes() {
    let assets = vec![
        model("cube", "A \"quoted\" <name> & more", "models/cube.obj"),
        texture("wood", "Wood", "textures/wood's.png"),
        model("sphere", "", "models/sphere.obj"),
    ];
    assert_eq!(saved(assets.clone()), written_in_one_go(&assets));
}

#[test]
fn save_of_nothing_writes_nothing() {
    assert_eq!(saved(vec![]), Vec::<u8>::new());
}

#[test]
fn save_twice_starts_a_second_document() {
    let mut store = LocalFile::new();
    store.save(vec![texture("a", "A", "a.png")]).unwrap();
    store.save(vec![texture("b", "B", "b.png")]).unwrap();
    let mut expected = written_in_one_go(&[texture("a", "A", "a.png")]);
    expected.extend(written_in_one_go(&[texture("b", "B", "b.png")]));
    assert_eq!(store.sink.unwrap(), expected);
}

#[test]
fn save_stops_at_a_record_without_location_and_keeps_what_is_written() {
    let mut missing = model("ghost", "Ghost", "unused");
    missing.location = None;
    let mut store = LocalFile::new();
    let result = store.save(vec![
        texture("wood", "Wood", "wood.png"),
        missing,
        texture("stone", "Stone", "stone.png"),
    ]);
    assert_eq!(result, Err(ResultError::LocationRequired("ghost".to_string())));
    assert_eq!(store.sink.unwrap(), written_in_one_go(&[texture("wood", "Wood", "wood.png")]));
}

#[test]
fn save_needs_a_sink() {
    let mut store = reader(b"<a/>");
    assert_eq!(store.save(vec![texture("a", "A", "a.png")]), Err(ResultError::NotWritable));
    assert_eq!(store.sink, None);
}

#[test]
fn write_assets_appends_to_what_the_sink_holds() {
    let mut sink = b"before".to_vec();
    write_assets(&mut sink, &vec![texture("a", "A", "a.png")]).unwrap();
    let mut expected = b"before".to_vec();
    expected.extend(written_in_one_go(&[texture("a", "A", "a.png")]));
    assert_eq!(sink, expected);
}

#[test]
fn save_reports_a_refusal_before_a_later_record_without_location() {
    let mut missing = model("ghost", "Ghost", "unused");
    missing.location = None;
    let assets = vec![texture("pre:fixed", "Prefixed", "p.png"), missing];
    let mut store = LocalFile::new();
    assert_eq!(store.save(assets.clone()), Err(ResultError::WriteFailed("pre:fixed".to_string())));
    assert_eq!(store.sink.unwrap(), written_in_one_go(&assets[..1]));
}

#[test]
fn save_reports_an_element_that_the_writer_refuses() {
    let assets = vec![
        texture("wood", "Wood", "wood.png"),
        texture("pre:fixed", "Prefixed", "p.png"),
        texture("stone", "Stone", "stone.png"),
    ];
    let mut store = LocalFile::new();
    assert_eq!(store.save(assets.clone()), Err(ResultError::WriteFailed("pre:fixed".to_string())));
    let sink = store.sink.unwrap();
    assert_eq!(sink, written_in_one_go(&assets));
    assert_eq!(
        String::from_utf8(sink).unwrap(),
        "<?xml version=\"1.0\" encoding=\"UTF-8\"?>\n\
         <wood name=\"Wood\" location=\"wood.png\" type=\"texture\" />\n\
         <pre:fixed name=\"Prefixed\" location=\"p.png\" type=\"texture\""
    );
}

#[test]
fn save_reports_a_refused_first_element() {
    let assets = vec![texture("pre:fixed", "Prefixed", "p.png")];
    let mut store = LocalFile::new();
    assert_eq!(store.save(assets.clone()), Err(ResultError::WriteFailed("pre:fixed".to_string())));
    assert_eq!(store.sink.unwrap(), written_in_one_go(&assets));
}

#[test]
fn load_needs_the_manifest_to_exist() {
    match LocalFile::load("assets/manifest.xml", None) {
        Err(e) => assert_eq!(e, ResultError::ManifestMissing("assets/manifest.xml".to_string())),
        Ok(_) => panic!("a manifest that does not exist was loaded"),
    }
}

#[test]
fn new_store_cannot_be_read() {
    let store = LocalFile::new();
    assert_eq!(store.get_by_id("cube"), Err(ResultError::NotReadable));
    assert_eq!(store.sink, Some(Vec::new()));
}

#[test]
fn records_come_back_as_they_were_saved() {
    let assets = vec![
        model("cube", "A \"quoted\" <name> & more", "models/cube.obj"),
        texture("wood", "Wood", "textures/wood's.png"),
        model("sphere", "", "models/sphere.obj"),
        texture("caf\u{e9}", "Caf\u{e9} \u{1F600}", "textures/caf\u{e9}.png"),
    ];
    let store = reader(&saved(assets.clone()));
    for asset in &assets {
        assert_eq!(store.get_by_id(asset.id.as_str()), Ok(asset.clone()));
    }
}

#[test]
fn a_model_without_format_does_not_come_back() {
    let mut asset = model("cube", "Cube", "cube.obj");
    asset.asset_type = AssetType::Model(None);
    let store = reader(&saved(vec![asset]));
    assert_eq!(store.get_by_id("cube"), Err(ResultError::UnknownSubtype(String::new())));
}

#[test]
fn get_by_id_takes_the_first_element_with_the_tag() {
    let store = reader(
        b"<root><cube name=\"first\" location=\"a.obj\" type=\"model\" sub_type=\"wavefront\"/>\
          <cube name=\"second\" location=\"b.obj\" type=\"model\" sub_type=\"wavefront\"/></root>",
    );
    assert_eq!(store.get_by_id("cube"), Ok(model("cube", "first", "a.obj")));
}

#[test]
fn get_by_id_reports_an_id_that_is_not_there() {
    let store = reader(&saved(vec![texture("wood", "Wood", "wood.png")]));
    assert_eq!(store.get_by_id("stone"), Err(ResultError::NotFound("stone".to_string())));
}

#[test]
fn get_by_id_of_an_empty_document_fails() {
    let store = reader(b"");
    match store.get_by_id("stone") {
        Err(ResultError::Malformed(_)) => {}
        other => panic!("unexpected: {:?}", other),
    }
}

#[test]
fn get_by_id_checks_the_id_attribute_against_the_tag() {
    let store = reader(b"<cube id=\"sphere\" name=\"n\" location=\"l\" type=\"texture\"/>");
    assert_eq!(
        store.get_by_id("cube"),
        Err(ResultError::InconsistentId { tag: "cube".to_string(), attribute: "sphere".to_string() })
    );
    let same = reader(b"<cube id=\"cube\" name=\"n\" location=\"l\" type=\"texture\"/>");
    assert_eq!(same.get_by_id("cube"), Ok(texture("cube", "n", "l")));
}

#[test]
fn get_by_id_checks_the_id_before_the_kind() {
    let store = reader(b"<cube type=\"sound\" id=\"sphere\"/>");
    assert_eq!(
        store.get_by_id("cube"),
        Err(ResultError::InconsistentId { tag: "cube".to_string(), attribute: "sphere".to_string() })
    );
}

#[test]
fn get_by_id_rejects_unknown_kinds_and_sub_types() {
    let store = reader(
        b"<r><a name=\"n\" location=\"l\" type=\"sound\"/>\
          <b name=\"n\" location=\"l\" type=\"model\" sub_type=\"collada\"/>\
          <c name=\"n\" location=\"l\"/></r>",
    );
    assert_eq!(store.get_by_id("a"), Err(ResultError::UnknownAssetKind("sound".to_string())));
    assert_eq!(store.get_by_id("b"), Err(ResultError::UnknownSubtype("collada".to_string())));
    assert_eq!(store.get_by_id("c"), Err(ResultError::UnknownAssetKind(String::new())));
}

#[test]
fn get_by_id_stops_at_malformed_text_before_the_element() {
    let store = reader(b"<a name=\"n\" location=\"l\" type=\"texture\"/><b <c/>");
    assert_eq!(store.get_by_id("a"), Ok(texture("a", "n", "l")));
    match store.get_by_id("c") {
        Err(ResultError::Malformed(message)) => assert!(!message.is_empty()),
        other => panic!("unexpected: {:?}", other),
    }
}

#[test]
fn get_by_id_reads_each_call_from_the_document() {
    let mut store = reader(&saved(vec![texture("wood", "Wood", "wood.png")]));
    assert_eq!(store.get_by_id("wood"), Ok(texture("wood", "Wood", "wood.png")));
    store.document = Some(saved(vec![texture("wood", "Oak", "oak.png")]));
    assert_eq!(store.get_by_id("wood"), Ok(texture("wood", "Oak", "oak.png")));
}

#[test]
fn find_asset_scans_in_order() {
    let events = vec![
        DocumentEvent::Other,
        DocumentEvent::Start(Element {
            name: "a".to_string(),
            attributes: vec![attribute("type", "texture"), attribute("name", "A")],
        }),
        DocumentEvent::Failure("broken".to_string()),
        DocumentEvent::Start(Element {
            name: "b".to_string(),
            attributes: vec![attribute("type", "texture")],
        }),
    ];
    assert_eq!(
        find_asset(&events, "a"),
        Ok(Asset {
            location: None,
            asset_type: AssetType::Texture,
            name: "A".to_string(),
            id: "a".to_string()
        })
    );
    assert_eq!(find_asset(&events, "b"), Err(ResultError::Malformed("broken".to_string())));
    assert_eq!(find_asset(&vec![], "b"), Err(ResultError::NotFound("b".to_string())));
}

#[test]
fn value_of_takes_the_last_attribute_of_the_name() {
    let attributes =
        vec![attribute("name", "first"), attribute("other", "x"), attribute("name", "second")];
    assert_eq!(value_of(&attributes, "name"), "second");
    assert_eq!(value_of(&attributes, "other"), "x");
    assert_eq!(value_of(&attributes, "missing"), "");
}

#[test]
fn decode_element_reports_the_first_foreign_id() {
    let element = Element {
        name: "cube".to_string(),
        attributes: vec![
            attribute("id", "cube"),
            attribute("id", "one"),
            attribute("id", "two"),
            attribute("type", "texture"),
        ],
    };
    assert_eq!(
        decode_element(&element, "cube"),
        Err(ResultError::InconsistentId { tag: "cube".to_string(), attribute: "one".to_string() })
    );
}

#[test]
fn save_checked_succeeds_where_every_record_reads_back() {
    let assets = vec![
        model("cube", "A \"quoted\" <name> & more", "models/cube.obj"),
        texture("wood", "Wood", "textures/wood's.png"),
    ];
    let mut store = LocalFile::new();
    assert_eq!(store.save_checked(assets.clone()), Ok(()));
    let written = store.sink.clone().unwrap();
    assert_eq!(written, saved(assets.clone()));
    let back = reader(&written);
    for asset in &assets {
        assert_eq!(back.get_by_id(asset.id.as_str()), Ok(asset.clone()));
    }
    assert_eq!(LocalFile::new().save_checked(vec![]), Ok(()));
}

#[test]
fn save_checked_names_the_first_record_that_does_not_read_back() {
    let mut formless = model("cube", "Cube", "cube.obj");
    formless.asset_type = AssetType::Model(None);
    let mut store = LocalFile::new();
    let assets = vec![texture("wood", "Wood", "wood.png"), formless, texture("two words", "T", "t.png")];
    assert_eq!(store.save_checked(assets.clone()), Err(ResultError::NotReadBack("cube".to_string())));
    assert_eq!(store.sink.unwrap(), saved(assets));

    let unnamed = vec![texture("wood", "Wood", "wood.png"), texture("two words", "T", "t.png")];
    assert_eq!(
        LocalFile::new().save_checked(unnamed),
        Err(ResultError::NotReadBack("two words".to_string()))
    );

    let twice = vec![texture("wood", "Wood", "wood.png"), texture("wood", "Oak", "oak.png")];
    assert_eq!(LocalFile::new().save_checked(twice), Err(ResultError::NotReadBack("wood".to_string())));

    let empty_location = vec![texture("wood", "Wood", "")];
    assert_eq!(
        LocalFile::new().save_checked(empty_location),
        Err(ResultError::NotReadBack("wood".to_string()))
    );
}

#[test]
fn save_checked_reports_what_save_reports() {
    let mut missing = model("ghost", "Ghost", "unused");
    missing.location = None;
    let mut store = LocalFile::new();
    assert_eq!(
        store.save_checked(vec![texture("wood", "Wood", "wood.png"), missing]),
        Err(ResultError::LocationRequired("ghost".to_string()))
    );
    assert_eq!(store.sink.unwrap(), written_in_one_go(&[texture("wood", "Wood", "wood.png")]));
    assert_eq!(
        LocalFile::new().save_checked(vec![texture("pre:fixed", "P", "p.png")]),
        Err(ResultError::WriteFailed("pre:fixed".to_string()))
    );
    let mut closed = reader(b"<a/>");
    assert_eq!(closed.save_checked(vec![]), Err(ResultError::NotWritable));
}

#[test]
fn same_asset_compares_every_field() {
    let cube = model("cube", "Cube", "cube.obj");
    assert!(same_asset(&cube, &cube.clone()));
    let mut other = cube.clone();
    other.name = "Box".to_string();
    assert!(!same_asset(&cube, &other));
    let mut other = cube.clone();
    other.id = "box".to_string();
    assert!(!same_asset(&cube, &other));
    let mut other = cube.clone();
    other.location = None;
    assert!(!same_asset(&cube, &other));
    assert!(same_asset(&other, &other.clone()));
    let mut other = cube.clone();
    other.location = Some("box.obj".to_string());
    assert!(!same_asset(&cube, &other));
    let mut other = cube.clone();
    other.asset_type = AssetType::Model(None);
    assert!(!same_asset(&cube, &other));
    assert!(same_asset(&other, &other.clone()));
    let mut other = cube.clone();
    other.asset_type = AssetType::Texture;
    assert!(!same_asset(&cube, &other));
    assert!(!same_asset(&other, &cube));
    assert!(same_asset(&other, &other.clone()));
}
