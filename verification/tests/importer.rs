use asset_pipeline::error::LineCategory;
use asset_pipeline::error::ResultError;
use asset_pipeline::importer::wavefront::decode_homogeneous;
use asset_pipeline::importer::wavefront::decode_pairs;
use asset_pipeline::importer::wavefront::diffuse_paths;
use asset_pipeline::importer::wavefront::find_name;
use asset_pipeline::importer::wavefront::sort_lines;
use asset_pipeline::importer::wavefront::Wavefront;
use asset_pipeline::importer::wavefront::WavefrontLineType;
use asset_pipeline::model::material::Material;
use asset_pipeline::model::Mesh;
use asset_pipeline::model::Model;
use asset_pipeline::model::NormalVertex;
use asset_pipeline::model::Vector2;
use asset_pipeline::model::Vector4;
use asset_pipeline::number::Decimal;

const SQUARE: &str = "# a square of two triangles\n\
o square\n\
v 0.0 0.0 0.0\n\
v 1.0 0.0 0.0\n\
v 1.0 1.0 0.0\n\
v 0.0 1.0 0.0\n\
vt 0.0 0.0\n\
vt 1.0 0.0\n\
vt 1.0 1.0\n\
vt 0.0 1.0\n\
vn 0.0 0.0 1.0\n\
s off\n\
f 1/1/1 2/2/1 3/3/1\n\
f 1/1/1 3/3/1 4/4/1\n";

fn lines(text: &[&str]) -> Vec<String> {
    text.iter().map(|line| line.to_string()).collect()
}

fn decimal(text: &str) -> Decimal {
    Decimal::parse(text).unwrap()
}

fn vector4(x: &str, y: &str, z: &str) -> Vector4 {
    Vector4::new(decimal(x), decimal(y), decimal(z), Decimal::one())
}

fn vector2(x: &str, y: &str) -> Vector2 {
    Vector2::new(decimal(x), decimal(y))
}

fn number(d: &Decimal) -> f32 {
    d.as_str().parse::<f32>().unwrap()
}

fn vertices(model: &Model) -> &Vec<NormalVertex> {
    match &model.mesh {
        Mesh::NormalMesh(vertices) => vertices,
        _ => panic!("not a mesh of normal vertices"),
    }
}

/// An importer with `positions` positions, `textures` texture coordinates
/// and `normals` normals.
fn loaded(positions: usize, textures: usize, normals: usize) -> Wavefront {
    let mut wavefront = Wavefront::new(Some("loaded".to_string()));
    let pos: Vec<String> = (0..positions).map(|i| format!("v {}.0 0.5 -0.25", i)).collect();
    let uv: Vec<String> = (0..textures).map(|i| format!("vt 0.{} 1.0", i)).collect();
    let norm: Vec<String> = (0..normals).map(|i| format!("vn 0.0 {}.0 1.0", i)).collect();
    wavefront.load_position_vector(&pos).unwrap();
    wavefront.load_texture_vector(&uv).unwrap();
    wavefront.load_normal_vector(&norm).unwrap();
    wavefront
}

#[test]
fn line_types_go_by_the_directive() {
    assert_eq!(WavefrontLineType::get("v 1.0 2.0 3.0"), Some(WavefrontLineType::Position));
    assert_eq!(WavefrontLineType::get("vn 1.0 2.0 3.0"), Some(WavefrontLineType::Normal));
    assert_eq!(WavefrontLineType::get("vt 1.0 2.0"), Some(WavefrontLineType::Texture));
    assert_eq!(WavefrontLineType::get("f 1/1/1 2/2/2 3/3/3"), Some(WavefrontLineType::Face));
    assert_eq!(WavefrontLineType::get("o cube"), Some(WavefrontLineType::Name));
}

#[test]
fn line_types_ignore_white_space_around_the_line() {
    assert_eq!(WavefrontLineType::get("  \tv 1.0 2.0 3.0 \r"), Some(WavefrontLineType::Position));
    assert_eq!(WavefrontLineType::get("\u{a0}o cube"), Some(WavefrontLineType::Name));
}

#[test]
fn other_lines_have_no_type() {
    assert_eq!(WavefrontLineType::get(""), None);
    assert_eq!(WavefrontLineType::get("v"), None);
    assert_eq!(WavefrontLineType::get("v\t1.0"), None);
    assert_eq!(WavefrontLineType::get("vp 1.0 2.0"), None);
    assert_eq!(WavefrontLineType::get("# v 1.0"), None);
    assert_eq!(WavefrontLineType::get("mtllib cube.mtl"), None);
}

#[test]
fn new_importer_is_empty_and_named() {
    let unnamed = Wavefront::new(None);
    assert_eq!(unnamed.name, "unnamed");
    assert!(unnamed.pos.is_empty() && unnamed.uv.is_empty() && unnamed.norm.is_empty());
    assert_eq!(Wavefront::new(Some("cube".to_string())).name, "cube");
}

#[test]
fn positions_are_homogeneous() {
    let mut wavefront = Wavefront::new(None);
    wavefront
        .load_position_vector(&lines(&["v 0.000000 3.080803 3.080803", "  v -2.178457 -3.080803 -2.178457  "]))
        .unwrap();
    assert_eq!(wavefront.pos.len(), 2);
    assert_eq!(wavefront.pos[0], vector4("0.000000", "3.080803", "3.080803"));
    assert_eq!(wavefront.pos[1], vector4("-2.178457", "-3.080803", "-2.178457"));
    assert_eq!(number(&wavefront.pos[0].x), 0.0);
    assert_eq!(number(&wavefront.pos[0].y), 3.080803);
    assert_eq!(number(&wavefront.pos[1].z), -2.178457);
    assert_eq!(number(&wavefront.pos[1].w), 1.0);
}

#[test]
fn texture_coordinates_have_two_components() {
    let mut wavefront = Wavefront::new(None);
    wavefront.load_texture_vector(&lines(&["vt 0.656250 0.500000", "vt 0.203178 0.014612"])).unwrap();
    assert_eq!(wavefront.uv, vec![vector2("0.656250", "0.500000"), vector2("0.203178", "0.014612")]);
    assert_eq!(number(&wavefront.uv[0].x), 0.656250);
    assert_eq!(number(&wavefront.uv[1].y), 0.014612);
}

#[test]
fn normals_are_homogeneous() {
    let mut wavefront = Wavefront::new(None);
    wavefront.load_normal_vector(&lines(&["vn -0.4714 -0.0000 -0.8819", "vn 0.8819 -0.0000 -0.4714"])).unwrap();
    assert_eq!(wavefront.norm[0], vector4("-0.4714", "-0.0000", "-0.8819"));
    assert_eq!(number(&wavefront.norm[0].x), -0.4714);
    assert_eq!(number(&wavefront.norm[0].y), -0.0);
    assert_eq!(number(&wavefront.norm[1].x), 0.8819);
    assert_eq!(number(&wavefront.norm[1].w), 1.0);
}

#[test]
fn loading_replaces_what_was_loaded() {
    let mut wavefront = loaded(3, 2, 1);
    wavefront.load_position_vector(&lines(&["v 9.0 9.0 9.0"])).unwrap();
    assert_eq!(wavefront.pos, vec![vector4("9.0", "9.0", "9.0")]);
    assert_eq!(wavefront.uv.len(), 2);
    assert_eq!(wavefront.norm.len(), 1);
}

#[test]
fn a_bad_position_line_fails_the_load_and_keeps_the_buffer() {
    let mut wavefront = loaded(2, 0, 0);
    let before = wavefront.pos.clone();
    let result = wavefront.load_position_vector(&lines(&["v 1.0 2.0 3.0", "v 1.0 2.0", "v x y z"]));
    assert_eq!(
        result,
        Err(ResultError::ParseError { line: "v 1.0 2.0".to_string(), category: LineCategory::Position })
    );
    assert_eq!(wavefront.pos, before);
}

#[test]
fn a_bad_texture_line_is_reported_as_it_stands() {
    let mut wavefront = Wavefront::new(None);
    let result = wavefront.load_texture_vector(&lines(&["vt 0.656250 0.500000", " vt 0.593750 0.500000 0.1 "]));
    assert_eq!(
        result,
        Err(ResultError::ParseError {
            line: " vt 0.593750 0.500000 0.1 ".to_string(),
            category: LineCategory::Texture
        })
    );
    assert!(wavefront.uv.is_empty());
}

#[test]
fn a_bad_normal_line_fails_the_load() {
    let mut wavefront = Wavefront::new(None);
    let result = wavefront.load_normal_vector(&lines(&["vn 1 0 0"]));
    assert_eq!(
        result,
        Err(ResultError::ParseError { line: "vn 1 0 0".to_string(), category: LineCategory::Normal })
    );
}

#[test]
fn numbers_need_digits_on_both_sides_of_the_point() {
    let mut wavefront = Wavefront::new(None);
    for line in ["v 1. 2.0 3.0", "v .5 2.0 3.0", "v 1.0 2.0 3.0e2", "v +1.0 2.0 3.0", "v 1.0  2.0 3.0", "v 1.0 2.0 3.0 4.0"] {
        let result = wavefront.load_position_vector(&lines(&[line]));
        assert_eq!(
            result,
            Err(ResultError::ParseError { line: line.to_string(), category: LineCategory::Position })
        );
    }
}

#[test]
fn digits_of_other_scripts_are_no_numbers() {
    let mut wavefront = Wavefront::new(None);
    let line = "v \u{661}.\u{662} 2.0 3.0";
    assert_eq!(
        wavefront.load_position_vector(&lines(&[line])),
        Err(ResultError::ParseError { line: line.to_string(), category: LineCategory::Position })
    );
}

#[test]
fn decoders_go_by_what_the_pattern_captured() {
    let given = lines(&["first", "second"]);
    let groups = |texts: &[&str]| Some(texts.iter().map(|t| Some(t.to_string())).collect::<Vec<_>>());
    let found = vec![groups(&["whole", "1.0", "-2.5", "3.25"]), groups(&["whole", "0.0", "0.5", "1.0"])];
    assert_eq!(
        decode_homogeneous(&given, &found, LineCategory::Normal),
        Ok(vec![vector4("1.0", "-2.5", "3.25"), vector4("0.0", "0.5", "1.0")])
    );
    assert_eq!(decode_pairs(&given, &found), Ok(vec![vector2("1.0", "-2.5"), vector2("0.0", "0.5")]));
    let short = vec![groups(&["whole", "1.0", "2.0", "3.0"]), groups(&["whole", "1.0"])];
    assert_eq!(
        decode_homogeneous(&given, &short, LineCategory::Position),
        Err(ResultError::ParseError { line: "second".to_string(), category: LineCategory::Position })
    );
    let unmatched = vec![None, groups(&["whole", "1.0", "2.0"])];
    assert_eq!(
        decode_pairs(&given, &unmatched),
        Err(ResultError::ParseError { line: "first".to_string(), category: LineCategory::Texture })
    );
    let absent = vec![groups(&["whole", "1.0", "2.0"]), Some(vec![Some("whole".to_string()), None, Some("1.0".to_string())])];
    assert_eq!(
        decode_pairs(&given, &absent),
        Err(ResultError::ParseError { line: "second".to_string(), category: LineCategory::Texture })
    );
}

#[test]
fn two_triangles_share_two_vertices() {
    let mut wavefront = Wavefront::new(Some("square".to_string()));
    wavefront
        .load_position_vector(&lines(&["v 0.0 0.0 0.0", "v 1.0 0.0 0.0", "v 1.0 1.0 0.0", "v 0.0 1.0 0.0"]))
        .unwrap();
    wavefront.load_texture_vector(&lines(&["vt 0.0 0.0", "vt 1.0 0.0", "vt 1.0 1.0", "vt 0.0 1.0"])).unwrap();
    wavefront.load_normal_vector(&lines(&["vn 0.0 0.0 1.0"])).unwrap();
    let model = wavefront.generate_model(&lines(&["f 1/1/1 2/2/1 3/3/1", "f 1/1/1 3/3/1 4/4/1"])).unwrap();
    assert_eq!(vertices(&model).len(), 4);
    assert_eq!(model.indeces, vec![0, 1, 2, 0, 2, 3]);
    assert_eq!(model.name, "square");
    assert!(model.materials.is_empty());
    let normal = vector4("0.0", "0.0", "1.0");
    assert_eq!(
        vertices(&model)[3],
        NormalVertex::new(vector4("0.0", "1.0", "0.0"), vector2("0.0", "1.0"), normal.clone())
    );
    assert_eq!(
        vertices(&model)[1],
        NormalVertex::new(vector4("1.0", "0.0", "0.0"), vector2("1.0", "0.0"), normal)
    );
}

#[test]
fn a_source_becomes_a_model() {
    let model = Wavefront::import(SQUARE).unwrap();
    assert_eq!(model.name, "square");
    assert_eq!(vertices(&model).len(), 4);
    assert_eq!(model.indeces, vec![0, 1, 2, 0, 2, 3]);
    assert!(model.materials.is_empty());
    assert_eq!(model.get_vertices().len(), 4);
    assert_eq!(model.get_vertices()[2].pos, vector4("1.0", "1.0", "0.0"));
}

#[test]
fn line_endings_of_either_kind_are_read() {
    let source = SQUARE.replace('\n', "\r\n");
    let model = Wavefront::import(source.as_str()).unwrap();
    assert_eq!(model.indeces, vec![0, 1, 2, 0, 2, 3]);
    assert_eq!(model.name, "square");
}

#[test]
fn one_vertex_for_each_distinct_reference() {
    let wavefront = loaded(3, 3, 2);
    let faces = lines(&[
        "f 1/1/1 2/2/1 3/3/1",
        "f 3/3/1 2/2/1 1/1/1",
        "f 1/1/2 2/2/2 1/1/2",
        "f 1/2/1 01/1/1 3/3/1",
    ]);
    let model = wavefront.generate_model(&faces).unwrap();
    // 1/1/1 2/2/1 3/3/1 1/1/2 2/2/2 1/2/1 01/1/1
    assert_eq!(vertices(&model).len(), 7);
    assert_eq!(model.indeces.len(), 3 * faces.len());
    assert_eq!(model.indeces, vec![0, 1, 2, 2, 1, 0, 3, 4, 3, 5, 6, 2]);
    // the same vertex under two spellings of its reference
    assert_eq!(vertices(&model)[6], vertices(&model)[0]);
}

#[test]
fn indices_follow_the_corners_of_each_face() {
    let wavefront = loaded(4, 4, 1);
    let model = wavefront.generate_model(&lines(&["f 4/4/1 3/3/1 2/2/1", " f 2/2/1 1/1/1 4/4/1 "])).unwrap();
    assert_eq!(model.indeces, vec![0, 1, 2, 2, 3, 0]);
    let at = |corner: usize| &vertices(&model)[model.indeces[corner] as usize];
    assert_eq!(at(0).pos, wavefront.pos[3]);
    assert_eq!(at(1).pos, wavefront.pos[2]);
    assert_eq!(at(2).pos, wavefront.pos[1]);
    assert_eq!(at(3).pos, wavefront.pos[1]);
    assert_eq!(at(4).pos, wavefront.pos[0]);
    assert_eq!(at(5).pos, wavefront.pos[3]);
    assert_eq!(at(4).uv, wavefront.uv[0]);
    assert_eq!(at(4).norm, wavefront.norm[0]);
}

#[test]
fn no_faces_give_an_empty_mesh() {
    let model = loaded(1, 1, 1).generate_model(&vec![]).unwrap();
    assert!(vertices(&model).is_empty());
    assert!(model.indeces.is_empty());
}

#[test]
fn an_index_of_zero_is_out_of_range() {
    let wavefront = loaded(3, 3, 3);
    for face in ["f 0/1/1 2/2/2 3/3/3", "f 1/0/1 2/2/2 3/3/3", "f 1/1/1 2/2/2 3/3/0"] {
        assert_eq!(wavefront.generate_model(&lines(&[face])), Err(ResultError::IndexOutOfRange));
    }
}

#[test]
fn an_index_above_the_buffer_is_out_of_range() {
    let wavefront = loaded(3, 2, 1);
    for face in ["f 4/1/1 2/2/1 3/1/1", "f 1/3/1 2/2/1 3/1/1", "f 1/1/1 2/2/2 3/1/1"] {
        assert_eq!(wavefront.generate_model(&lines(&[face])), Err(ResultError::IndexOutOfRange));
    }
    assert!(wavefront.generate_model(&lines(&["f 3/2/1 3/2/1 3/2/1"])).is_ok());
}

#[test]
fn an_index_too_large_for_the_machine_is_out_of_range() {
    let wavefront = loaded(3, 3, 3);
    let face = "f 1/1/1 2/2/2 99999999999999999999999999999999999999/3/3";
    assert_eq!(wavefront.generate_model(&lines(&[face])), Err(ResultError::IndexOutOfRange));
}

#[test]
fn an_index_out_of_range_in_a_later_face_leaves_no_model() {
    let wavefront = loaded(3, 3, 3);
    let result = wavefront.generate_model(&lines(&["f 1/1/1 2/2/2 3/3/3", "f 1/1/1 2/2/2 4/3/3"]));
    assert_eq!(result, Err(ResultError::IndexOutOfRange));
}

#[test]
fn an_empty_buffer_has_no_index_in_range() {
    assert_eq!(
        Wavefront::new(None).generate_model(&lines(&["f 1/1/1 1/1/1 1/1/1"])),
        Err(ResultError::IndexOutOfRange)
    );
}

#[test]
fn a_face_must_be_a_triangle_of_full_references() {
    let wavefront = loaded(4, 4, 4);
    for face in ["f 1/1/1 2/2/2 3/3/3 4/4/4", "f 1/1/1 2/2/2", "f 1//1 2//2 3//3", "f 1 2 3", "f 1/1/1 2/2/2 3/3/-3", "f 1/1/1  2/2/2 3/3/3"] {
        assert_eq!(
            wavefront.generate_model(&lines(&[face])),
            Err(ResultError::FaceParseError { line: face.to_string() })
        );
    }
}

#[test]
fn the_first_failure_among_the_faces_is_reported() {
    let wavefront = loaded(3, 3, 3);
    assert_eq!(
        wavefront.generate_model(&lines(&["f 1/1/1 2/2/2 9/3/3", "f 1 2 3"])),
        Err(ResultError::IndexOutOfRange)
    );
    assert_eq!(
        wavefront.generate_model(&lines(&["f 1 2 3", "f 1/1/1 2/2/2 9/3/3"])),
        Err(ResultError::FaceParseError { line: "f 1 2 3".to_string() })
    );
}

#[test]
fn index_faces_goes_by_what_the_pattern_captured() {
    let wavefront = loaded(2, 2, 2);
    let face = |corners: [[&str; 3]; 3]| {
        let mut groups = vec![Some("whole".to_string())];
        for corner in corners {
            groups.push(Some(corner.join("/")));
            for text in corner {
                groups.push(Some(text.to_string()));
            }
        }
        Some(groups)
    };
    let given = lines(&["first", "second"]);
    let found = vec![
        face([["1", "1", "1"], ["2", "2", "2"], ["1", "1", "1"]]),
        face([["2", "2", "2"], ["2", "1", "2"], ["1", "1", "1"]]),
    ];
    let model = wavefront.index_faces(&given, &found).unwrap();
    assert_eq!(model.indeces, vec![0, 1, 0, 1, 2, 0]);
    assert_eq!(vertices(&model).len(), 3);
    assert_eq!(vertices(&model)[0].pos, wavefront.pos[0]);
    assert_eq!(vertices(&model)[1].pos, wavefront.pos[1]);
    assert_eq!(vertices(&model)[2].uv, wavefront.uv[0]);
    let broken = vec![found[0].clone(), Some(vec![Some("whole".to_string())])];
    assert_eq!(
        wavefront.index_faces(&given, &broken),
        Err(ResultError::FaceParseError { line: "second".to_string() })
    );
    let unmatched = vec![None, found[1].clone()];
    assert_eq!(
        wavefront.index_faces(&given, &unmatched),
        Err(ResultError::FaceParseError { line: "first".to_string() })
    );
}

#[test]
fn the_key_of_a_vertex_is_made_of_its_three_indices() {
    let wavefront = loaded(12, 12, 12);
    // 1/11/1 and 11/1/1 and 1/1/11 share digits but no vertex
    let model = wavefront.generate_model(&lines(&["f 1/11/1 11/1/1 1/1/11", "f 1/1/11 1/11/1 11/1/1"])).unwrap();
    assert_eq!(vertices(&model).len(), 3);
    assert_eq!(model.indeces, vec![0, 1, 2, 2, 0, 1]);
    assert_eq!(vertices(&model)[0].uv, wavefront.uv[10]);
    assert_eq!(vertices(&model)[1].pos, wavefront.pos[10]);
    assert_eq!(vertices(&model)[2].norm, wavefront.norm[10]);
}

#[test]
fn a_source_without_object_line_has_no_name() {
    let source = SQUARE.replace("o square\n", "");
    assert_eq!(Wavefront::import(source.as_str()), Err(ResultError::NameMissing));
    assert_eq!(Wavefront::import(""), Err(ResultError::NameMissing));
}

#[test]
fn the_name_is_a_single_word() {
    let source = SQUARE.replace("o square\n", "o two words\n");
    assert_eq!(Wavefront::import(source.as_str()), Err(ResultError::NameMissing));
    let indented = SQUARE.replace("o square\n", "  o square\n");
    assert_eq!(Wavefront::import(indented.as_str()), Err(ResultError::NameMissing));
    let trailing = SQUARE.replace("o square\n", "o W\u{fc}rfel_2 \t\n");
    assert_eq!(Wavefront::import(trailing.as_str()).unwrap().name, "W\u{fc}rfel_2");
}

#[test]
fn the_first_object_line_that_names_gives_the_name() {
    let source = SQUARE.replace("o square\n", "o not a name\no first\no second\n");
    assert_eq!(Wavefront::import(source.as_str()).unwrap().name, "first");
}

#[test]
fn the_name_is_missing_before_any_line_is_decoded() {
    let source = "v broken\nf 1 2 3\n";
    assert_eq!(Wavefront::import(source), Err(ResultError::NameMissing));
}

#[test]
fn failures_come_in_the_order_position_normal_texture_face() {
    let all = "o x\nf 1 2 3\nvt bad\nvn bad\nv bad\n";
    assert_eq!(
        Wavefront::import(all),
        Err(ResultError::ParseError { line: "v bad".to_string(), category: LineCategory::Position })
    );
    let no_position = "o x\nf 1 2 3\nvt bad\nvn bad\n";
    assert_eq!(
        Wavefront::import(no_position),
        Err(ResultError::ParseError { line: "vn bad".to_string(), category: LineCategory::Normal })
    );
    let no_normal = "o x\nf 1 2 3\nvt bad\n";
    assert_eq!(
        Wavefront::import(no_normal),
        Err(ResultError::ParseError { line: "vt bad".to_string(), category: LineCategory::Texture })
    );
    assert_eq!(
        Wavefront::import("o x\nf 1 2 3\n"),
        Err(ResultError::FaceParseError { line: "f 1 2 3".to_string() })
    );
}

#[test]
fn sort_lines_keeps_the_order_within_a_kind() {
    let sorted = sort_lines(&lines(&["v a", "vt b", "junk", "v c", "o d", "f e", "vn f", " v g", "", "vn h"]));
    assert_eq!(sorted.positions, lines(&["v a", "v c", " v g"]));
    assert_eq!(sorted.textures, lines(&["vt b"]));
    assert_eq!(sorted.normals, lines(&["vn f", "vn h"]));
    assert_eq!(sorted.faces, lines(&["f e"]));
    assert_eq!(sorted.names, lines(&["o d"]));
}

#[test]
fn find_name_takes_group_one_of_the_first_match() {
    let found = vec![
        None,
        Some(vec![Some("o cube".to_string())]),
        Some(vec![Some("o cube".to_string()), None]),
        Some(vec![Some("o cube".to_string()), Some("cube".to_string())]),
        Some(vec![Some("o ball".to_string()), Some("ball".to_string())]),
    ];
    assert_eq!(find_name(&found), Some("cube".to_string()));
    assert_eq!(find_name(&vec![None, None]), None);
    assert_eq!(find_name(&vec![]), None);
}

#[test]
fn diffuse_paths_follow_the_directive() {
    let description = "newmtl wood\nKd 0.8 0.8 0.8\n  map_Kd textures/wood.png  \nmap_Kd  second one.png\nmap_Ks other.png\nmap_Kd\nmap_Kd\tx.png\n";
    assert_eq!(
        diffuse_paths(description),
        vec!["textures/wood.png".to_string(), " second one.png".to_string()]
    );
    assert!(diffuse_paths("").is_empty());
}

fn picture(width: u32, height: u32, pixels: Vec<u8>, format: image::ImageFormat) -> Vec<u8> {
    let picture = image::RgbaImage::from_raw(width, height, pixels).unwrap();
    let mut encoded = std::io::Cursor::new(Vec::new());
    picture.write_to(&mut encoded, format).unwrap();
    encoded.into_inner()
}

#[test]
fn a_picture_decodes_to_its_pixels() {
    let pixels = vec![255, 0, 0, 255, 0, 255, 0, 128, 0, 0, 255, 0, 10, 20, 30, 40, 1, 2, 3, 4, 5, 6, 7, 8];
    let material = Material::new(&picture(3, 2, pixels.clone(), image::ImageFormat::Png)).unwrap();
    assert_eq!(material.texture.width, 3);
    assert_eq!(material.texture.height, 2);
    assert_eq!(material.texture.pixels, pixels);
}

#[test]
fn bytes_that_are_no_picture_give_no_material() {
    assert_eq!(Material::new(b"not a picture"), Err(ResultError::MaterialDecodeError));
    assert_eq!(Material::new(b""), Err(ResultError::MaterialDecodeError));
}

#[test]
fn the_first_candidate_that_decodes_is_the_material() {
    let red = picture(1, 1, vec![255, 0, 0, 255], image::ImageFormat::Png);
    let blue = picture(1, 1, vec![0, 0, 255, 255], image::ImageFormat::Png);
    let material = Material::first_of(&vec![None, Some(b"broken".to_vec()), Some(red), Some(blue)]).unwrap();
    assert_eq!(material.texture.pixels, vec![255, 0, 0, 255]);
    assert_eq!(Material::first_of(&vec![None, Some(b"broken".to_vec())]), Err(ResultError::MaterialDecodeError));
    assert_eq!(Material::first_of(&vec![]), Err(ResultError::MaterialDecodeError));
}

#[test]
fn a_material_is_attached_and_a_failure_is_handed_back() {
    let red = Material::new(&picture(1, 1, vec![255, 0, 0, 255], image::ImageFormat::Png)).unwrap();
    let (model, failure) = Wavefront::import(SQUARE).unwrap().with_material(Some(Ok(red)));
    assert_eq!(failure, None);
    assert_eq!(model.materials.len(), 1);
    assert_eq!(model.materials[0].texture.pixels, vec![255, 0, 0, 255]);
    assert_eq!(model.indeces, vec![0, 1, 2, 0, 2, 3]);

    let (model, failure) = model.with_material(Some(Err(ResultError::MaterialDecodeError)));
    assert_eq!(failure, Some(ResultError::MaterialDecodeError));
    assert!(model.materials.is_empty());
    assert_eq!(model.name, "square");

    let (model, failure) = model.with_material(None);
    assert_eq!(failure, None);
    assert!(model.materials.is_empty());
    assert_eq!(vertices(&model).len(), 4);
}

/// A picture whose first bytes announce one format and whose content is another.
#[test]
fn the_format_goes_by_the_first_bytes() {
    let png = picture(1, 1, vec![1, 2, 3, 255], image::ImageFormat::Png);
    let mut broken = png.clone();
    broken[0] = 0;
    assert_eq!(Material::new(&broken), Err(ResultError::MaterialDecodeError));
    let jpeg = {
        let opaque = image::RgbImage::from_raw(2, 2, vec![200; 12]).unwrap();
        let mut encoded = std::io::Cursor::new(Vec::new());
        opaque.write_to(&mut encoded, image::ImageFormat::Jpeg).unwrap();
        encoded.into_inner()
    };
    let material = Material::new(&jpeg).unwrap();
    assert_eq!((material.texture.width, material.texture.height), (2, 2));
    assert_eq!(material.texture.pixels.len(), 16);
    assert_eq!(material.texture.pixels[3], 255);
}

#[test]
fn pictures_of_other_formats_decode_too() {
    let pixels = vec![10, 20, 30, 255, 40, 50, 60, 255];
    let bitmap = Material::new(&picture(2, 1, pixels.clone(), image::ImageFormat::Bmp)).unwrap();
    assert_eq!(bitmap.texture.pixels, pixels);
    let tiff = Material::new(&picture(1, 2, pixels.clone(), image::ImageFormat::Tiff)).unwrap();
    assert_eq!((tiff.texture.width, tiff.texture.height), (1, 2));
    assert_eq!(tiff.texture.pixels, pixels);
}
