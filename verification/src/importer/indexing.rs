//! What face lines mean: every corner of a face is a composite reference
//! `position/texcoord/normal`; every distinct reference becomes one vertex,
//! and every corner one index.

use vstd::prelude::*;
use crate::error::ResultError;
use crate::error::ResultErrorView;
use crate::model::Model;
use crate::model::NormalVertexView;
use crate::model::Vector2View;
use crate::model::Vector4View;
use crate::number::index_of_text;
use crate::pattern::group;
use crate::pattern::GroupsView;
use crate::text::views;

verus! {

/// The three buffers that face lines refer to, as mathematical sequences.
pub ghost struct BuffersView {
    pub pos: Seq<Vector4View>,
    pub uv: Seq<Vector2View>,
    pub norm: Seq<Vector4View>,
}

/// One corner of a face as it is written: the three indices of its
/// composite reference.
pub ghost struct CornerView {
    pub position: Seq<char>,
    pub texcoord: Seq<char>,
    pub normal: Seq<char>,
}

/// The composite reference of a corner, `position/texcoord/normal`: the key
/// under which its vertex is shared.
pub open spec fn reference(corner: CornerView) -> Seq<char> {
    corner.position + seq!['/'] + corner.texcoord + seq!['/'] + corner.normal
}

/// The corner with the number `corner`, from 0, of a matched face line: of
/// the four groups of a corner, the last three are its indices.
pub open spec fn corner_from(groups: GroupsView, corner: int) -> Option<CornerView> {
    match (
        group(groups, 4 * corner + 2),
        group(groups, 4 * corner + 3),
        group(groups, 4 * corner + 4),
    ) {
        (Some(position), Some(texcoord), Some(normal)) => Some(
            CornerView { position, texcoord, normal },
        ),
        _ => None,
    }
}

/// The three corners of a face line, in the order in which they are written;
/// `None` where the line is no triangle.
pub open spec fn corners_from(found: Option<GroupsView>) -> Option<Seq<CornerView>> {
    match found {
        Some(groups) => match (
            corner_from(groups, 0),
            corner_from(groups, 1),
            corner_from(groups, 2),
        ) {
            (Some(first), Some(second), Some(third)) => Some(seq![first, second, third]),
            _ => None,
        },
        None => None,
    }
}

/// The offset into a buffer of `len` items that an index counted from 1
/// designates; `None` where the text writes 0, a number above `len`, or no
/// number at all.
pub open spec fn slot(text: Seq<char>, len: nat) -> Option<int> {
    match index_of_text(text) {
        Some(index) => if 1 <= index <= len {
            Some(index - 1)
        } else {
            None
        },
        None => None,
    }
}

/// The vertex that a corner designates, where its three indices are in range.
pub open spec fn corner_vertex(buffers: BuffersView, corner: CornerView) -> Option<
    NormalVertexView,
> {
    match (
        slot(corner.position, buffers.pos.len()),
        slot(corner.texcoord, buffers.uv.len()),
        slot(corner.normal, buffers.norm.len()),
    ) {
        (Some(p), Some(t), Some(n)) => Some(
            NormalVertexView { pos: buffers.pos[p], uv: buffers.uv[t], norm: buffers.norm[n] },
        ),
        _ => None,
    }
}

/// An indexed mesh in the making: `keys[j]` is the composite reference that
/// `vertices[j]` was made for, and `indices` holds one entry per corner read.
pub ghost struct Indexed {
    pub keys: Seq<Seq<char>>,
    pub vertices: Seq<NormalVertexView>,
    pub indices: Seq<u32>,
}

/// The mesh before any face.
pub open spec fn nothing_indexed() -> Indexed {
    Indexed { keys: Seq::empty(), vertices: Seq::empty(), indices: Seq::empty() }
}

/// The mesh after one more corner. Its indices must be in range. A reference
/// that was seen before gives the index of its vertex again; a new one gives
/// a new vertex, as long as a 32-bit index can address it.
pub open spec fn add_corner(buffers: BuffersView, mesh: Indexed, corner: CornerView) -> Result<
    Indexed,
    ResultErrorView,
> {
    match corner_vertex(buffers, corner) {
        None => Err(ResultErrorView::IndexOutOfRange),
        Some(vertex) => if mesh.keys.contains(reference(corner)) {
            Ok(
                Indexed {
                    indices: mesh.indices.push(mesh.keys.index_of(reference(corner)) as u32),
                    ..mesh
                },
            )
        } else if mesh.keys.len() > u32::MAX {
            Err(ResultErrorView::VertexLimitExceeded)
        } else {
            Ok(
                Indexed {
                    keys: mesh.keys.push(reference(corner)),
                    vertices: mesh.vertices.push(vertex),
                    indices: mesh.indices.push(mesh.keys.len() as u32),
                },
            )
        },
    }
}

/// The mesh after the first `count` corners of `corners`.
pub open spec fn add_corners(
    buffers: BuffersView,
    mesh: Indexed,
    corners: Seq<CornerView>,
    count: int,
) -> Result<Indexed, ResultErrorView>
    decreases count,
{
    if count <= 0 {
        Ok(mesh)
    } else {
        match add_corners(buffers, mesh, corners, count - 1) {
            Ok(before) => add_corner(buffers, before, corners[count - 1]),
            Err(e) => Err(e),
        }
    }
}

/// The mesh after one more face line.
pub open spec fn add_face(
    buffers: BuffersView,
    mesh: Indexed,
    line: Seq<char>,
    found: Option<GroupsView>,
) -> Result<Indexed, ResultErrorView> {
    match corners_from(found) {
        None => Err(ResultErrorView::FaceParseError { line }),
        Some(corners) => add_corners(buffers, mesh, corners, 3),
    }
}

/// The mesh after the first `count` face lines.
pub open spec fn add_faces(
    buffers: BuffersView,
    lines: Seq<Seq<char>>,
    found: Seq<Option<GroupsView>>,
    count: int,
) -> Result<Indexed, ResultErrorView>
    decreases count,
{
    if count <= 0 {
        Ok(nothing_indexed())
    } else {
        match add_faces(buffers, lines, found, count - 1) {
            Ok(before) => add_face(buffers, before, lines[count - 1], found[count - 1]),
            Err(e) => Err(e),
        }
    }
}

/// The mesh of all the face lines, or the first failure among them.
pub open spec fn indexed(
    buffers: BuffersView,
    lines: Seq<Seq<char>>,
    found: Seq<Option<GroupsView>>,
) -> Result<Indexed, ResultErrorView> {
    add_faces(buffers, lines, found, found.len() as int)
}

/// Whether `model` is the mesh `mesh` under the name `name`, without materials.
pub open spec fn is_model_of(model: Model, name: Seq<char>, mesh: Indexed) -> bool {
    &&& model.name@ == name
    &&& model.mesh is NormalMesh
    &&& views(model.mesh->NormalMesh_0@) == mesh.vertices
    &&& model.indeces@ == mesh.indices
    &&& model.materials@.len() == 0
}

/// Whether `r` is what `outcome` asks for.
pub open spec fn is_import_of(
    r: Result<Model, ResultError>,
    name: Seq<char>,
    outcome: Result<Indexed, ResultErrorView>,
) -> bool {
    match outcome {
        Ok(mesh) => r is Ok && is_model_of(r->Ok_0, name, mesh) && r->Ok_0.well_formed(),
        Err(e) => r is Err && r->Err_0@ == e,
    }
}

/// The three corners of a face are taken one after the other, and the first
/// failure ends the face.
pub proof fn lemma_three_corners(buffers: BuffersView, mesh: Indexed, corners: Seq<CornerView>)
    ensures
        add_corners(buffers, mesh, corners, 3) == match add_corner(buffers, mesh, corners[0]) {
            Ok(one) => match add_corner(buffers, one, corners[1]) {
                Ok(two) => add_corner(buffers, two, corners[2]),
                Err(e) => Err(e),
            },
            Err(e) => Err(e),
        },
{
    reveal_with_fuel(add_corners, 4);
}

/// Once a face line has failed, the lines after it change nothing.
pub proof fn lemma_failure_stays(
    buffers: BuffersView,
    lines: Seq<Seq<char>>,
    found: Seq<Option<GroupsView>>,
    at: int,
    count: int,
)
    requires
        at <= count,
        add_faces(buffers, lines, found, at) is Err,
    ensures
        add_faces(buffers, lines, found, count) == add_faces(buffers, lines, found, at),
    decreases count - at,
{
    if at < count {
        lemma_failure_stays(buffers, lines, found, at, count - 1);
    }
}

} // verus!
