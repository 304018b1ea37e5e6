//! The importer for line-oriented mesh descriptions: `v`, `vt` and `vn`
//! lines give positions, texture coordinates and normals, `f` lines join
//! them into triangles, and an `o` line names the object.

use vstd::prelude::*;
use vstd::hash_map::StringHashMap;
use vstd::string::StrSliceExecFns;
use vstd::string::StringExecFns;
use crate::error::LineCategory;
use crate::error::ResultError;
use crate::error::ResultErrorView;
use crate::model::Mesh;
use crate::model::Model;
use crate::model::NormalVector;
use crate::model::NormalVertex;
use crate::model::NormalVertexView;
use crate::model::PositionVector;
use crate::model::TextureVector;
use crate::model::Vector2;
use crate::model::Vector2View;
use crate::model::Vector4;
use crate::model::Vector4View;
use crate::model::DEFAULT_MODEL_NAME;
use crate::importer::indexing::add_corner;
use crate::importer::indexing::add_face;
use crate::importer::indexing::add_faces;
use crate::importer::indexing::corner_from;
use crate::importer::indexing::corner_vertex;
use crate::importer::indexing::indexed;
use crate::importer::indexing::is_import_of;
use crate::importer::indexing::is_model_of;
use crate::importer::indexing::lemma_failure_stays;
use crate::importer::indexing::lemma_three_corners;
use crate::importer::indexing::nothing_indexed;
use crate::importer::indexing::reference;
use crate::importer::indexing::slot;
use crate::importer::indexing::BuffersView;
use crate::importer::indexing::CornerView;
use crate::importer::indexing::Indexed;
use crate::pattern::group;
use crate::pattern::group_text;
use crate::text::has_prefix;
use crate::number::is_decimal;
use crate::pattern::line_matches;
use crate::pattern::match_lines;
use crate::pattern::match_view;
use crate::pattern::matches_view;
use crate::pattern::groups_view;
use crate::text::owned;
use crate::path::is_portable;
use crate::path::kept_or_ends_with;
use crate::path::replace_extension;
use crate::path::with_extension;
use crate::number::parse_index;
use crate::pattern::pattern_accepted;
use crate::pattern::searched;
use crate::text::split_lines;
use crate::text::text_lines;
use crate::text::texts;
use crate::text::trim;
use crate::text::trim_all;
use crate::text::trimmed;
use crate::text::trimmed_all;
use crate::text::views;
use crate::number::Decimal;
use crate::pattern::Groups;
use crate::pattern::GroupsView;

verus! {

pub const WAVEFRONT_MAT_EXTENSION: &'static str = "mtl";

/// A position line: `v`, then three decimal literals.
pub const POSITION_PATTERN: &'static str =
    "^v (?P<x>-?\\d+\\.\\d+) (?P<y>-?\\d+\\.\\d+) (?P<z>-?\\d+\\.\\d+)$";

/// A texture coordinate line: `vt`, then two decimal literals.
pub const TEXTURE_PATTERN: &'static str = "^vt (?P<u>-?\\d+\\.\\d+) (?P<v>-?\\d+\\.\\d+)$";

/// A normal line: `vn`, then three decimal literals.
pub const NORMAL_PATTERN: &'static str =
    "^vn (?P<x>-?\\d+\\.\\d+) (?P<y>-?\\d+\\.\\d+) (?P<z>-?\\d+\\.\\d+)$";

/// A face line: `f`, then three composite references `position/texcoord/normal`.
/// Group 1 is the first reference and groups 2 to 4 are its three parts; the
/// second and the third reference follow in groups 5 to 8 and 9 to 12.
pub const FACE_PATTERN: &'static str =
    "^f (?P<vert_1>(?P<pos_1>\\d+)/(?P<tex_1>\\d+)/(?P<norm_1>\\d+)) (?P<vert_2>(?P<pos_2>\\d+)/(?P<tex_2>\\d+)/(?P<norm_2>\\d+)) (?P<vert_3>(?P<pos_3>\\d+)/(?P<tex_3>\\d+)/(?P<norm_3>\\d+))$";

/// An object line: `o`, then a single word.
pub const NAME_PATTERN: &'static str = "^o (?P<name>\\w+)\\s*$";

/// What a line of a mesh description is about.
#[derive(Clone, Copy, Debug, PartialEq, Eq)]
pub enum WavefrontLineType {
    Position,
    Texture,
    Normal,
    Face,
    Name,
}

/// The kind of a line, by the directive that its trimmed text begins with;
/// `None` for a line that the importer passes over.
pub open spec fn line_type(line: Seq<char>) -> Option<WavefrontLineType> {
    let inner = trimmed(line);
    if "v "@.is_prefix_of(inner) {
        Some(WavefrontLineType::Position)
    } else if "vn "@.is_prefix_of(inner) {
        Some(WavefrontLineType::Normal)
    } else if "vt "@.is_prefix_of(inner) {
        Some(WavefrontLineType::Texture)
    } else if "f "@.is_prefix_of(inner) {
        Some(WavefrontLineType::Face)
    } else if "o "@.is_prefix_of(inner) {
        Some(WavefrontLineType::Name)
    } else {
        None
    }
}

impl WavefrontLineType {
    /// Classifies a line.
    pub fn get(line: &str) -> (kind: Option<Self>)
        ensures
            kind == line_type(line@),
    {
        let inner = trim(line);
        if has_prefix(inner, "v ") {
            Some(WavefrontLineType::Position)
        } else if has_prefix(inner, "vn ") {
            Some(WavefrontLineType::Normal)
        } else if has_prefix(inner, "vt ") {
            Some(WavefrontLineType::Texture)
        } else if has_prefix(inner, "f ") {
            Some(WavefrontLineType::Face)
        } else if has_prefix(inner, "o ") {
            Some(WavefrontLineType::Name)
        } else {
            None
        }
    }
}

// ----------------------------------------------------------------------
// Vector lines
// ----------------------------------------------------------------------

/// The text of a group, where the match has the group and the text is a
/// decimal literal.
pub open spec fn decimal_group(groups: GroupsView, index: int) -> Option<Seq<char>> {
    match group(groups, index) {
        Some(text) => if is_decimal(text) {
            Some(text)
        } else {
            None
        },
        None => None,
    }
}

/// The vector of a position or normal line: groups 1 to 3 give `x`, `y` and
/// `z`, and `w` is `1.0`.
pub open spec fn homogeneous_from(found: Option<GroupsView>) -> Option<Vector4View> {
    match found {
        Some(groups) => match (
            decimal_group(groups, 1),
            decimal_group(groups, 2),
            decimal_group(groups, 3),
        ) {
            (Some(x), Some(y), Some(z)) => Some(Vector4View { x, y, z, w: "1.0"@ }),
            _ => None,
        },
        None => None,
    }
}

/// The vector of a texture coordinate line: groups 1 and 2.
pub open spec fn pair_from(found: Option<GroupsView>) -> Option<Vector2View> {
    match found {
        Some(groups) => match (decimal_group(groups, 1), decimal_group(groups, 2)) {
            (Some(x), Some(y)) => Some(Vector2View { x, y }),
            _ => None,
        },
        None => None,
    }
}

/// The place of the first line at or after `from` that gives no vector of
/// four, or the number of lines.
pub open spec fn first_undecoded4(found: Seq<Option<GroupsView>>, from: int) -> int
    decreases found.len() - from,
{
    if from < 0 || from >= found.len() {
        found.len() as int
    } else if homogeneous_from(found[from]) is None {
        from
    } else {
        first_undecoded4(found, from + 1)
    }
}

/// The place of the first line at or after `from` that gives no vector of
/// two, or the number of lines.
pub open spec fn first_undecoded2(found: Seq<Option<GroupsView>>, from: int) -> int
    decreases found.len() - from,
{
    if from < 0 || from >= found.len() {
        found.len() as int
    } else if pair_from(found[from]) is None {
        from
    } else {
        first_undecoded2(found, from + 1)
    }
}

/// The vectors of the lines of one category, or the first line that does not
/// follow the category's pattern.
pub open spec fn decoded4(
    lines: Seq<Seq<char>>,
    found: Seq<Option<GroupsView>>,
    category: LineCategory,
) -> Result<Seq<Vector4View>, ResultErrorView> {
    let k = first_undecoded4(found, 0);
    if k < found.len() {
        Err(ResultErrorView::ParseError { line: lines[k], category })
    } else {
        Ok(Seq::new(found.len(), |i: int| homogeneous_from(found[i])->0))
    }
}

/// The vectors of the texture coordinate lines, or the first line that does
/// not follow the pattern.
pub open spec fn decoded2(lines: Seq<Seq<char>>, found: Seq<Option<GroupsView>>) -> Result<
    Seq<Vector2View>,
    ResultErrorView,
> {
    let k = first_undecoded2(found, 0);
    if k < found.len() {
        Err(ResultErrorView::ParseError { line: lines[k], category: LineCategory::Texture })
    } else {
        Ok(Seq::new(found.len(), |i: int| pair_from(found[i])->0))
    }
}

pub open spec fn vectors4_view(r: Result<Vec<Vector4>, ResultError>) -> Result<
    Seq<Vector4View>,
    ResultErrorView,
> {
    match r {
        Ok(vectors) => Ok(views(vectors@)),
        Err(e) => Err(e@),
    }
}

pub open spec fn vectors2_view(r: Result<Vec<Vector2>, ResultError>) -> Result<
    Seq<Vector2View>,
    ResultErrorView,
> {
    match r {
        Ok(vectors) => Ok(views(vectors@)),
        Err(e) => Err(e@),
    }
}

/// The group with the number `index` as a decimal literal.
fn decimal_at(groups: &Groups, index: usize) -> (r: Option<Decimal>)
    ensures
        match r {
            Some(d) => decimal_group(groups_view(groups@), index as int) == Some(d@),
            None => decimal_group(groups_view(groups@), index as int) is None,
        },
{
    match group_text(groups, index) {
        Some(text) => Decimal::parse(text),
        None => None,
    }
}

/// The vector of four that a match of a position or normal line gives.
fn homogeneous_vector(found: &Option<Groups>) -> (r: Option<Vector4>)
    ensures
        match r {
            Some(v) => homogeneous_from(match_view(*found)) == Some(v@),
            None => homogeneous_from(match_view(*found)) is None,
        },
{
    match found {
        None => None,
        Some(groups) => {
            let x = match decimal_at(groups, 1) {
                Some(x) => x,
                None => {
                    return None;
                },
            };
            let y = match decimal_at(groups, 2) {
                Some(y) => y,
                None => {
                    return None;
                },
            };
            let z = match decimal_at(groups, 3) {
                Some(z) => z,
                None => {
                    return None;
                },
            };
            Some(Vector4::new(x, y, z, Decimal::one()))
        },
    }
}

/// The vector of two that a match of a texture coordinate line gives.
fn pair_vector(found: &Option<Groups>) -> (r: Option<Vector2>)
    ensures
        match r {
            Some(v) => pair_from(match_view(*found)) == Some(v@),
            None => pair_from(match_view(*found)) is None,
        },
{
    match found {
        None => None,
        Some(groups) => {
            let x = match decimal_at(groups, 1) {
                Some(x) => x,
                None => {
                    return None;
                },
            };
            let y = match decimal_at(groups, 2) {
                Some(y) => y,
                None => {
                    return None;
                },
            };
            Some(Vector2::new(x, y))
        },
    }
}

/// Decodes the lines of positions or of normals from what the category's
/// pattern captured in each.
pub fn decode_homogeneous(
    lines: &Vec<String>,
    found: &Vec<Option<Groups>>,
    category: LineCategory,
) -> (r: Result<Vec<Vector4>, ResultError>)
    requires
        found@.len() == lines@.len(),
    ensures
        vectors4_view(r) == decoded4(texts(lines@), matches_view(found@), category),
{
    let ghost all = matches_view(found@);
    let mut vectors: Vec<Vector4> = Vec::new();
    let mut i: usize = 0;
    while i < found.len()
        invariant
            i <= found.len(),
            found@.len() == lines@.len(),
            all == matches_view(found@),
            first_undecoded4(all, 0) == first_undecoded4(all, i as int),
            vectors@.len() == i,
            forall|j: int| 0 <= j < i ==> homogeneous_from(all[j]) == Some((#[trigger] vectors@[j])@),
        decreases found.len() - i,
    {
        match homogeneous_vector(&found[i]) {
            Some(vector) => {
                vectors.push(vector);
            },
            None => {
                return Err(ResultError::ParseError { line: lines[i].clone(), category });
            },
        }
        i += 1;
    }
    assert(views(vectors@) =~= Seq::new(all.len(), |i: int| homogeneous_from(all[i])->0));
    Ok(vectors)
}

/// Decodes the lines of texture coordinates from what the pattern captured
/// in each.
pub fn decode_pairs(lines: &Vec<String>, found: &Vec<Option<Groups>>) -> (r: Result<
    Vec<Vector2>,
    ResultError,
>)
    requires
        found@.len() == lines@.len(),
    ensures
        vectors2_view(r) == decoded2(texts(lines@), matches_view(found@)),
{
    let ghost all = matches_view(found@);
    let mut vectors: Vec<Vector2> = Vec::new();
    let mut i: usize = 0;
    while i < found.len()
        invariant
            i <= found.len(),
            found@.len() == lines@.len(),
            all == matches_view(found@),
            first_undecoded2(all, 0) == first_undecoded2(all, i as int),
            vectors@.len() == i,
            forall|j: int| 0 <= j < i ==> pair_from(all[j]) == Some((#[trigger] vectors@[j])@),
        decreases found.len() - i,
    {
        match pair_vector(&found[i]) {
            Some(vector) => {
                vectors.push(vector);
            },
            None => {
                return Err(
                    ResultError::ParseError {
                        line: lines[i].clone(),
                        category: LineCategory::Texture,
                    },
                );
            },
        }
        i += 1;
    }
    assert(views(vectors@) =~= Seq::new(all.len(), |i: int| pair_from(all[i])->0));
    Ok(vectors)
}

// ----------------------------------------------------------------------
// The importer's buffers
// ----------------------------------------------------------------------

/// The working state of one import: the vectors that the source gave, and
/// the name of its object.
pub struct Wavefront {
    pub pos: Vec<PositionVector>,
    pub uv: Vec<TextureVector>,
    pub norm: Vec<NormalVector>,
    pub name: String,
}

/// One corner of a face, borrowed from what the face pattern captured.
struct Corner<'a> {
    position: &'a str,
    texcoord: &'a str,
    normal: &'a str,
}

impl<'a> View for Corner<'a> {
    type V = CornerView;

    closed spec fn view(&self) -> CornerView {
        CornerView {
            position: self.position@,
            texcoord: self.texcoord@,
            normal: self.normal@,
        }
    }
}

impl<'a> Corner<'a> {
    /// The composite reference of the corner.
    fn key(&self) -> (key: String)
        ensures
            key@ == reference(self@),
    {
        proof {
            reveal_strlit("/");
        }
        let mut key = String::from_str(self.position);
        key.append("/");
        key.append(self.texcoord);
        key.append("/");
        key.append(self.normal);
        assert("/"@ =~= seq!['/']);
        key
    }
}

/// The corner with the number `corner` of a matched face line.
fn corner_at<'a>(groups: &'a Groups, corner: usize) -> (r: Option<Corner<'a>>)
    requires
        corner < 3,
    ensures
        match r {
            Some(c) => corner_from(groups_view(groups@), corner as int) == Some(c@),
            None => corner_from(groups_view(groups@), corner as int) is None,
        },
{
    let position = match group_text(groups, 4 * corner + 2) {
        Some(text) => text,
        None => {
            return None;
        },
    };
    let texcoord = match group_text(groups, 4 * corner + 3) {
        Some(text) => text,
        None => {
            return None;
        },
    };
    let normal = match group_text(groups, 4 * corner + 4) {
        Some(text) => text,
        None => {
            return None;
        },
    };
    Some(Corner { position, texcoord, normal })
}

/// The offset that an index counted from 1 designates in a buffer of `len` items.
fn resolve(text: &str, len: usize) -> (r: Option<usize>)
    ensures
        match r {
            Some(offset) => slot(text@, len as nat) == Some(offset as int),
            None => slot(text@, len as nat) is None,
        },
{
    match parse_index(text) {
        Some(index) => if 1 <= index && index <= len {
            Some(index - 1)
        } else {
            None
        },
        None => None,
    }
}

/// The mesh that `generate_model` builds up, with the table that finds the
/// vertex of a composite reference again.
struct MeshBuilder {
    face_map: StringHashMap<u32>,
    vertices: Vec<NormalVertex>,
    indeces: Vec<u32>,
    keys: Ghost<Seq<Seq<char>>>,
}

impl MeshBuilder {
    spec fn state(&self) -> Indexed {
        Indexed { keys: self.keys@, vertices: views(self.vertices@), indices: self.indeces@ }
    }

    spec fn inv(&self) -> bool {
        &&& self.keys@.len() == self.vertices@.len()
        &&& self.keys@.no_duplicates()
        &&& forall|k: Seq<char>| self.face_map@.contains_key(k) <==> self.keys@.contains(k)
        &&& forall|j: int|
            0 <= j < self.keys@.len() ==> self.face_map@[#[trigger] self.keys@[j]] == j
        &&& forall|i: int|
            0 <= i < self.indeces@.len() ==> (#[trigger] self.indeces@[i]) < self.keys@.len()
    }

    fn new() -> (builder: Self)
        ensures
            builder.inv(),
            builder.state() == nothing_indexed(),
    {
        let builder = MeshBuilder {
            face_map: StringHashMap::new(),
            vertices: Vec::new(),
            indeces: Vec::new(),
            keys: Ghost(Seq::empty()),
        };
        assert(builder.state().vertices =~= Seq::<NormalVertexView>::empty());
        builder
    }

    /// Takes one more corner into the mesh.
    fn add(&mut self, importer: &Wavefront, corner: &Corner) -> (r: Result<(), ResultError>)
        requires
            old(self).inv(),
        ensures
            match add_corner(importer.buffers(), old(self).state(), corner@) {
                Ok(next) => r is Ok && final(self).inv() && final(self).state() == next,
                Err(e) => r is Err && r->Err_0@ == e,
            },
    {
        let vertex = match importer.vertex_of(corner) {
            Some(vertex) => vertex,
            None => {
                return Err(ResultError::IndexOutOfRange);
            },
        };
        let ghost keys = self.keys@;
        let key = corner.key();
        let ghost key_text = key@;
        let known = match self.face_map.get(key.as_str()) {
            Some(index) => Some(*index),
            None => None,
        };
        match known {
            Some(index) => {
                assert(index == keys.index_of(key_text));
                self.indeces.push(index);
                Ok(())
            },
            None => {
                if self.vertices.len() > u32::MAX as usize {
                    return Err(ResultError::VertexLimitExceeded);
                }
                let index = self.vertices.len() as u32;
                self.face_map.insert(key, index);
                self.vertices.push(vertex);
                self.indeces.push(index);
                self.keys = Ghost(keys.push(key_text));
                proof {
                    let after = keys.push(key_text);
                    assert forall|k: Seq<char>| self.face_map@.contains_key(k) <==> after.contains(
                        k,
                    ) by {
                        if keys.contains(k) {
                            assert(after[keys.index_of(k)] == k);
                        }
                        if k == key_text {
                            assert(after[keys.len() as int] == k);
                        }
                    }
                    assert(views(self.vertices@) =~= views(old(self).vertices@).push(vertex@));
                }
                Ok(())
            },
        }
    }
}

impl MeshBuilder {
    /// Takes the three corners of one more face line into the mesh.
    fn add_face(&mut self, importer: &Wavefront, line: &String, found: &Option<Groups>) -> (r:
        Result<(), ResultError>)
        requires
            old(self).inv(),
        ensures
            match add_face(importer.buffers(), old(self).state(), line@, match_view(*found)) {
                Ok(next) => r is Ok && final(self).inv() && final(self).state() == next,
                Err(e) => r is Err && r->Err_0@ == e,
            },
    {
        let groups = match found {
            Some(groups) => groups,
            None => {
                return Err(ResultError::FaceParseError { line: line.clone() });
            },
        };
        let first = match corner_at(groups, 0) {
            Some(corner) => corner,
            None => {
                return Err(ResultError::FaceParseError { line: line.clone() });
            },
        };
        let second = match corner_at(groups, 1) {
            Some(corner) => corner,
            None => {
                return Err(ResultError::FaceParseError { line: line.clone() });
            },
        };
        let third = match corner_at(groups, 2) {
            Some(corner) => corner,
            None => {
                return Err(ResultError::FaceParseError { line: line.clone() });
            },
        };
        proof {
            lemma_three_corners(
                importer.buffers(),
                self.state(),
                seq![first@, second@, third@],
            );
        }
        match self.add(importer, &first) {
            Ok(()) => {},
            Err(e) => {
                return Err(e);
            },
        }
        match self.add(importer, &second) {
            Ok(()) => {},
            Err(e) => {
                return Err(e);
            },
        }
        self.add(importer, &third)
    }
}

impl Wavefront {
    /// An importer without vectors, for an object called `name`, or
    /// `unnamed` where no name is given.
    pub fn new(name: Option<String>) -> (importer: Self)
        ensures
            importer.pos@.len() == 0,
            importer.uv@.len() == 0,
            importer.norm@.len() == 0,
            importer.name@ == match name {
                Some(name) => name@,
                None => DEFAULT_MODEL_NAME@,
            },
    {
        let name = match name {
            Some(name) => name,
            None => owned(DEFAULT_MODEL_NAME),
        };
        Wavefront { name, pos: Vec::new(), uv: Vec::new(), norm: Vec::new() }
    }

    /// The vectors that face lines refer to.
    pub open spec fn buffers(&self) -> BuffersView {
        BuffersView { pos: views(self.pos@), uv: views(self.uv@), norm: views(self.norm@) }
    }

    /// The vertex that a corner designates, where its three indices are in range.
    fn vertex_of(&self, corner: &Corner) -> (r: Option<NormalVertex>)
        ensures
            match r {
                Some(vertex) => corner_vertex(self.buffers(), corner@) == Some(vertex@),
                None => corner_vertex(self.buffers(), corner@) is None,
            },
    {
        let p = match resolve(corner.position, self.pos.len()) {
            Some(p) => p,
            None => {
                return None;
            },
        };
        let t = match resolve(corner.texcoord, self.uv.len()) {
            Some(t) => t,
            None => {
                return None;
            },
        };
        let n = match resolve(corner.normal, self.norm.len()) {
            Some(n) => n,
            None => {
                return None;
            },
        };
        Some(NormalVertex::new(self.pos[p].clone(), self.uv[t].clone(), self.norm[n].clone()))
    }

    /// Builds the model from the face lines and from what the face pattern
    /// captured in each of them, trimmed.
    pub fn index_faces(&self, lines: &Vec<String>, found: &Vec<Option<Groups>>) -> (r: Result<
        Model,
        ResultError,
    >)
        requires
            found@.len() == lines@.len(),
        ensures
            is_import_of(
                r,
                self.name@,
                indexed(self.buffers(), texts(lines@), matches_view(found@)),
            ),
    {
        let ghost buffers = self.buffers();
        let ghost all_lines = texts(lines@);
        let ghost all = matches_view(found@);
        let mut builder = MeshBuilder::new();
        let mut i: usize = 0;
        while i < found.len()
            invariant
                i <= found.len(),
                found@.len() == lines@.len(),
                buffers == self.buffers(),
                all_lines == texts(lines@),
                all == matches_view(found@),
                builder.inv(),
                add_faces(buffers, all_lines, all, i as int) == Ok::<Indexed, ResultErrorView>(
                    builder.state(),
                ),
            decreases found.len() - i,
        {
            match builder.add_face(self, &lines[i], &found[i]) {
                Ok(()) => {},
                Err(e) => {
                    proof {
                        lemma_failure_stays(buffers, all_lines, all, i as int + 1, all.len() as int);
                    }
                    return Err(e);
                },
            }
            i += 1;
        }
        let MeshBuilder { face_map: _, vertices, indeces, keys: _ } = builder;
        Ok(
            Model {
                mesh: Mesh::NormalMesh(vertices),
                indeces,
                name: self.name.clone(),
                materials: Vec::new(),
            },
        )
    }
}

// ----------------------------------------------------------------------
// The four categories, each against its pattern
// ----------------------------------------------------------------------

/// The positions that position lines give.
pub open spec fn positions_of(lines: Seq<Seq<char>>) -> Result<Seq<Vector4View>, ResultErrorView> {
    decoded4(lines, line_matches(POSITION_PATTERN@, trimmed_all(lines)), LineCategory::Position)
}

/// The normals that normal lines give.
pub open spec fn normals_of(lines: Seq<Seq<char>>) -> Result<Seq<Vector4View>, ResultErrorView> {
    decoded4(lines, line_matches(NORMAL_PATTERN@, trimmed_all(lines)), LineCategory::Normal)
}

/// The texture coordinates that texture coordinate lines give.
pub open spec fn textures_of(lines: Seq<Seq<char>>) -> Result<Seq<Vector2View>, ResultErrorView> {
    decoded2(lines, line_matches(TEXTURE_PATTERN@, trimmed_all(lines)))
}

/// The mesh that face lines give over the buffers.
pub open spec fn faces_of(buffers: BuffersView, lines: Seq<Seq<char>>) -> Result<
    Indexed,
    ResultErrorView,
> {
    indexed(buffers, lines, line_matches(FACE_PATTERN@, trimmed_all(lines)))
}

/// Searches every line for a pattern.
fn search(pattern: &str, lines: &Vec<String>) -> (r: Result<Vec<Option<Groups>>, ResultError>)
    ensures
        r is Ok <==> pattern_accepted(pattern@),
        match r {
            Ok(found) => found@.len() == lines@.len() && matches_view(found@) == line_matches(
                pattern@,
                texts(lines@),
            ),
            Err(e) => e@ == ResultErrorView::PatternRejected,
        },
{
    match match_lines(pattern, lines) {
        Ok(found) => {
            Ok(found)
        },
        Err(_) => Err(ResultError::PatternRejected),
    }
}

/// Searches every line, trimmed, for a pattern.
fn search_trimmed(pattern: &str, lines: &Vec<String>) -> (r: Result<
    Vec<Option<Groups>>,
    ResultError,
>)
    ensures
        r is Ok <==> pattern_accepted(pattern@),
        match r {
            Ok(found) => found@.len() == lines@.len() && matches_view(found@) == line_matches(
                pattern@,
                trimmed_all(texts(lines@)),
            ),
            Err(e) => e@ == ResultErrorView::PatternRejected,
        },
{
    let inner = trim_all(lines);
    search(pattern, &inner)
}

impl Wavefront {
    /// Replaces the positions by what the lines give. A line that does not
    /// follow the pattern fails the call and leaves the importer as it was.
    pub fn load_position_vector(&mut self, vals: &Vec<String>) -> (r: Result<(), ResultError>)
        ensures
            final(self).uv == old(self).uv,
            final(self).norm == old(self).norm,
            final(self).name == old(self).name,
            match searched(POSITION_PATTERN@, positions_of(texts(vals@))) {
                Ok(vectors) => r is Ok && views(final(self).pos@) == vectors,
                Err(e) => r is Err && r->Err_0@ == e && final(self).pos == old(self).pos,
            },
    {
        let found = match search_trimmed(POSITION_PATTERN, vals) {
            Ok(found) => found,
            Err(e) => {
                return Err(e);
            },
        };
        match decode_homogeneous(vals, &found, LineCategory::Position) {
            Ok(vectors) => {
                self.pos = vectors;
                Ok(())
            },
            Err(e) => Err(e),
        }
    }

    /// Replaces the texture coordinates by what the lines give. A line that
    /// does not follow the pattern fails the call and leaves the importer as
    /// it was.
    pub fn load_texture_vector(&mut self, vals: &Vec<String>) -> (r: Result<(), ResultError>)
        ensures
            final(self).pos == old(self).pos,
            final(self).norm == old(self).norm,
            final(self).name == old(self).name,
            match searched(TEXTURE_PATTERN@, textures_of(texts(vals@))) {
                Ok(vectors) => r is Ok && views(final(self).uv@) == vectors,
                Err(e) => r is Err && r->Err_0@ == e && final(self).uv == old(self).uv,
            },
    {
        let found = match search_trimmed(TEXTURE_PATTERN, vals) {
            Ok(found) => found,
            Err(e) => {
                return Err(e);
            },
        };
        match decode_pairs(vals, &found) {
            Ok(vectors) => {
                self.uv = vectors;
                Ok(())
            },
            Err(e) => Err(e),
        }
    }

    /// Replaces the normals by what the lines give. A line that does not
    /// follow the pattern fails the call and leaves the importer as it was.
    pub fn load_normal_vector(&mut self, vals: &Vec<String>) -> (r: Result<(), ResultError>)
        ensures
            final(self).pos == old(self).pos,
            final(self).uv == old(self).uv,
            final(self).name == old(self).name,
            match searched(NORMAL_PATTERN@, normals_of(texts(vals@))) {
                Ok(vectors) => r is Ok && views(final(self).norm@) == vectors,
                Err(e) => r is Err && r->Err_0@ == e && final(self).norm == old(self).norm,
            },
    {
        let found = match search_trimmed(NORMAL_PATTERN, vals) {
            Ok(found) => found,
            Err(e) => {
                return Err(e);
            },
        };
        match decode_homogeneous(vals, &found, LineCategory::Normal) {
            Ok(vectors) => {
                self.norm = vectors;
                Ok(())
            },
            Err(e) => Err(e),
        }
    }

    /// Builds the model of the face lines over the vectors loaded so far:
    /// one vertex for every distinct composite reference, in the order of
    /// first use, and one index for every corner, in the order of the source.
    pub fn generate_model(&self, vals: &Vec<String>) -> (r: Result<Model, ResultError>)
        ensures
            is_import_of(
                r,
                self.name@,
                searched(FACE_PATTERN@, faces_of(self.buffers(), texts(vals@))),
            ),
    {
        let found = match search_trimmed(FACE_PATTERN, vals) {
            Ok(found) => found,
            Err(e) => {
                return Err(e);
            },
        };
        self.index_faces(vals, &found)
    }
}

// ----------------------------------------------------------------------
// A whole source
// ----------------------------------------------------------------------

/// Of the first `count` lines, those of one kind, in their order.
pub open spec fn lines_of(lines: Seq<Seq<char>>, kind: WavefrontLineType, count: int) -> Seq<
    Seq<char>,
>
    decreases count,
{
    if count <= 0 {
        Seq::empty()
    } else {
        let before = lines_of(lines, kind, count - 1);
        if line_type(lines[count - 1]) == Some(kind) {
            before.push(lines[count - 1])
        } else {
            before
        }
    }
}

/// The lines of one kind, in their order.
pub open spec fn all_of(lines: Seq<Seq<char>>, kind: WavefrontLineType) -> Seq<Seq<char>> {
    lines_of(lines, kind, lines.len() as int)
}

/// The name that a match of the object pattern gives: its group 1.
pub open spec fn name_from(found: Option<GroupsView>) -> Option<Seq<char>> {
    match found {
        Some(groups) => group(groups, 1),
        None => None,
    }
}

/// The name of the first object line, at or after `from`, that follows the
/// object pattern.
pub open spec fn first_named(found: Seq<Option<GroupsView>>, from: int) -> Option<Seq<char>>
    decreases found.len() - from,
{
    if from < 0 || from >= found.len() {
        None
    } else {
        match name_from(found[from]) {
            Some(name) => Some(name),
            None => first_named(found, from + 1),
        }
    }
}

/// The name of the object that a source describes. The pattern is held
/// against the object lines as they stand, not trimmed.
pub open spec fn object_name(lines: Seq<Seq<char>>) -> Option<Seq<char>> {
    first_named(line_matches(NAME_PATTERN@, all_of(lines, WavefrontLineType::Name)), 0)
}

/// The name and the mesh that the lines of a source describe, or the first
/// failure: that of the name, then of the positions, the normals, the
/// texture coordinates and the faces. Each of the five is searched with its
/// pattern, and a pattern that the engine refuses fails its step.
pub open spec fn imported(lines: Seq<Seq<char>>) -> Result<(Seq<char>, Indexed), ResultErrorView> {
    match searched(
        NAME_PATTERN@,
        match object_name(lines) {
            Some(name) => Ok(name),
            None => Err(ResultErrorView::NameMissing),
        },
    ) {
        Err(e) => Err(e),
        Ok(name) => match searched(
            POSITION_PATTERN@,
            positions_of(all_of(lines, WavefrontLineType::Position)),
        ) {
            Err(e) => Err(e),
            Ok(pos) => match searched(
                NORMAL_PATTERN@,
                normals_of(all_of(lines, WavefrontLineType::Normal)),
            ) {
                Err(e) => Err(e),
                Ok(norm) => match searched(
                    TEXTURE_PATTERN@,
                    textures_of(all_of(lines, WavefrontLineType::Texture)),
                ) {
                    Err(e) => Err(e),
                    Ok(uv) => match searched(
                        FACE_PATTERN@,
                        faces_of(
                            BuffersView { pos, uv, norm },
                            all_of(lines, WavefrontLineType::Face),
                        ),
                    ) {
                        Err(e) => Err(e),
                        Ok(mesh) => Ok((name, mesh)),
                    },
                },
            },
        },
    }
}

/// Whether `r` is what `outcome` asks for.
pub open spec fn is_imported(
    r: Result<Model, ResultError>,
    outcome: Result<(Seq<char>, Indexed), ResultErrorView>,
) -> bool {
    match outcome {
        Ok((name, mesh)) => r is Ok && is_model_of(r->Ok_0, name, mesh) && r->Ok_0.well_formed(),
        Err(e) => r is Err && r->Err_0@ == e,
    }
}

/// The lines of a source, by kind.
pub struct SortedLines {
    pub positions: Vec<String>,
    pub textures: Vec<String>,
    pub normals: Vec<String>,
    pub faces: Vec<String>,
    pub names: Vec<String>,
}

/// Sorts the lines of a source by kind and drops those of no kind.
pub fn sort_lines(lines: &Vec<String>) -> (sorted: SortedLines)
    ensures
        texts(sorted.positions@) == all_of(texts(lines@), WavefrontLineType::Position),
        texts(sorted.textures@) == all_of(texts(lines@), WavefrontLineType::Texture),
        texts(sorted.normals@) == all_of(texts(lines@), WavefrontLineType::Normal),
        texts(sorted.faces@) == all_of(texts(lines@), WavefrontLineType::Face),
        texts(sorted.names@) == all_of(texts(lines@), WavefrontLineType::Name),
{
    let ghost all = texts(lines@);
    let mut positions: Vec<String> = Vec::new();
    let mut textures: Vec<String> = Vec::new();
    let mut normals: Vec<String> = Vec::new();
    let mut faces: Vec<String> = Vec::new();
    let mut names: Vec<String> = Vec::new();
    let mut i: usize = 0;
    while i < lines.len()
        invariant
            i <= lines.len(),
            all == texts(lines@),
            texts(positions@) == lines_of(all, WavefrontLineType::Position, i as int),
            texts(textures@) == lines_of(all, WavefrontLineType::Texture, i as int),
            texts(normals@) == lines_of(all, WavefrontLineType::Normal, i as int),
            texts(faces@) == lines_of(all, WavefrontLineType::Face, i as int),
            texts(names@) == lines_of(all, WavefrontLineType::Name, i as int),
        decreases lines.len() - i,
    {
        let line = &lines[i];
        match WavefrontLineType::get(line.as_str()) {
            Some(WavefrontLineType::Position) => {
                positions.push(line.clone());
            },
            Some(WavefrontLineType::Texture) => {
                textures.push(line.clone());
            },
            Some(WavefrontLineType::Normal) => {
                normals.push(line.clone());
            },
            Some(WavefrontLineType::Face) => {
                faces.push(line.clone());
            },
            Some(WavefrontLineType::Name) => {
                names.push(line.clone());
            },
            None => {},
        }
        i += 1;
    }
    SortedLines { positions, textures, normals, faces, names }
}

/// The name of the first object line that follows the object pattern, from
/// what the pattern captured in each object line.
pub fn find_name(found: &Vec<Option<Groups>>) -> (name: Option<String>)
    ensures
        match name {
            Some(name) => first_named(matches_view(found@), 0) == Some(name@),
            None => first_named(matches_view(found@), 0) is None,
        },
{
    let ghost all = matches_view(found@);
    let mut i: usize = 0;
    while i < found.len()
        invariant
            i <= found.len(),
            all == matches_view(found@),
            first_named(all, 0) == first_named(all, i as int),
        decreases found.len() - i,
    {
        match &found[i] {
            Some(groups) => {
                match group_text(groups, 1) {
                    Some(name) => {
                        return Some(owned(name));
                    },
                    None => {},
                }
            },
            None => {},
        }
        i += 1;
    }
    None
}

impl Wavefront {
    /// Imports the model that a source describes: sorts the lines, takes the
    /// object's name, decodes the vectors and joins them by the faces. There
    /// is a model or a failure, never a part of a model.
    pub fn import(source: &str) -> (r: Result<Model, ResultError>)
        ensures
            is_imported(r, imported(text_lines(source@))),
    {
        let lines = split_lines(source);
        let sorted = sort_lines(&lines);
        let names = match search(NAME_PATTERN, &sorted.names) {
            Ok(found) => found,
            Err(e) => {
                return Err(e);
            },
        };
        let name = match find_name(&names) {
            Some(name) => name,
            None => {
                return Err(ResultError::NameMissing);
            },
        };
        let mut wavefront = Wavefront::new(Some(name));
        match wavefront.load_position_vector(&sorted.positions) {
            Ok(()) => {},
            Err(e) => {
                return Err(e);
            },
        }
        match wavefront.load_normal_vector(&sorted.normals) {
            Ok(()) => {},
            Err(e) => {
                return Err(e);
            },
        }
        match wavefront.load_texture_vector(&sorted.textures) {
            Ok(()) => {},
            Err(e) => {
                return Err(e);
            },
        }
        wavefront.generate_model(&sorted.faces)
    }
}

// ----------------------------------------------------------------------
// The companion material description
// ----------------------------------------------------------------------

/// Where the material description of a mesh description is looked for:
/// beside it, under the same base name, with the extension of material
/// descriptions.
pub fn mat_file_from_obj_file(obj_file: &str) -> (mat_file: String)
    ensures
        kept_or_ends_with(obj_file@, WAVEFRONT_MAT_EXTENSION@, mat_file@),
        is_portable(obj_file@) ==> mat_file@ == with_extension(
            obj_file@,
            WAVEFRONT_MAT_EXTENSION@,
        ),
{
    proof {
        reveal_strlit("mtl");
    }
    replace_extension(obj_file, WAVEFRONT_MAT_EXTENSION)
}

/// The directive that names the picture of the diffuse colour.
pub const DIFFUSE_DIRECTIVE: &'static str = "map_Kd ";

/// The path that a line of a material description names for the diffuse
/// colour: what follows the directive in the trimmed line.
pub open spec fn diffuse_path(line: Seq<char>) -> Option<Seq<char>> {
    let inner = trimmed(line);
    if DIFFUSE_DIRECTIVE@.is_prefix_of(inner) {
        Some(inner.skip(DIFFUSE_DIRECTIVE@.len() as int))
    } else {
        None
    }
}

/// The paths that the first `count` lines name, in their order.
pub open spec fn diffuse_paths_upto(lines: Seq<Seq<char>>, count: int) -> Seq<Seq<char>>
    decreases count,
{
    if count <= 0 {
        Seq::empty()
    } else {
        let before = diffuse_paths_upto(lines, count - 1);
        match diffuse_path(lines[count - 1]) {
            Some(path) => before.push(path),
            None => before,
        }
    }
}

/// The paths that a material description names for the diffuse colour.
pub open spec fn diffuse_paths_of(description: Seq<char>) -> Seq<Seq<char>> {
    diffuse_paths_upto(text_lines(description), text_lines(description).len() as int)
}

/// The pictures that a material description names for the diffuse colour,
/// in the order of its lines. The material is the first of them that can be
/// read and decoded.
pub fn diffuse_paths(description: &str) -> (paths: Vec<String>)
    ensures
        texts(paths@) == diffuse_paths_of(description@),
{
    let lines = split_lines(description);
    let ghost all = texts(lines@);
    let mut paths: Vec<String> = Vec::new();
    let mut i: usize = 0;
    while i < lines.len()
        invariant
            i <= lines.len(),
            all == texts(lines@),
            texts(paths@) == diffuse_paths_upto(all, i as int),
        decreases lines.len() - i,
    {
        let inner = trim(lines[i].as_str());
        if has_prefix(inner, DIFFUSE_DIRECTIVE) {
            let path = owned(
                inner.substring_char(DIFFUSE_DIRECTIVE.unicode_len(), inner.unicode_len()),
            );
            paths.push(path);
        }
        i += 1;
    }
    paths
}

} // verus!
