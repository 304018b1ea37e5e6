//! Primitives: models that the renderer has without a manifest.

use vstd::prelude::*;
use crate::model::Mesh;
use crate::model::Model;
use crate::model::NormalVertex;
use crate::model::NormalVertexView;
use crate::model::Vector2;
use crate::model::Vector2View;
use crate::model::Vector4;
use crate::model::Vector4View;
use crate::text::owned;
use crate::text::views;
use crate::number::Decimal;

verus! {

/// The shapes that are stored as mesh descriptions beside the program.
#[derive(Clone, Copy, Debug, PartialEq, Eq)]
pub enum Primitive {
    Sphere,
    Cylinder,
}

pub const SPHERE: &'static str = "../assets/models/wavefront/sphere.obj";

pub const CYLINDER: &'static str = "../assets/models/wavefront/cylinder.obj";

impl Primitive {
    /// Where the mesh description of the primitive is stored.
    pub fn location(&self) -> (path: &'static str)
        ensures
            path@ == match self {
                Primitive::Sphere => SPHERE@,
                Primitive::Cylinder => CYLINDER@,
            },
    {
        match self {
            Primitive::Sphere => SPHERE,
            Primitive::Cylinder => CYLINDER,
        }
    }
}

/// A corner of the square at `x`, `y` in the plane `z = 0`, with the texture
/// coordinate `u`, `v`.
fn corner(x: Decimal, y: Decimal, u: Decimal, v: Decimal) -> (vertex: NormalVertex)
    ensures
        vertex@ == square_corner(x@, y@, u@, v@),
{
    NormalVertex::new(
        Vector4::new(x, y, Decimal::zero(), Decimal::one()),
        Vector2::new(u, v),
        Vector4::new(Decimal::minus_one(), Decimal::minus_one(), Decimal::zero(), Decimal::one()),
    )
}

/// A corner of the square: every corner has the same normal.
pub open spec fn square_corner(x: Seq<char>, y: Seq<char>, u: Seq<char>, v: Seq<char>) -> NormalVertexView {
    NormalVertexView {
        pos: Vector4View { x, y, z: "0.0"@, w: "1.0"@ },
        uv: Vector2View { x: u, y: v },
        norm: Vector4View { x: "-1.0"@, y: "-1.0"@, z: "0.0"@, w: "1.0"@ },
    }
}

/// The four corners of the square, counter-clockwise from the lower left.
pub open spec fn square_corners() -> Seq<NormalVertexView> {
    seq![
        square_corner("-1.0"@, "-1.0"@, "0.0"@, "0.0"@),
        square_corner("-1.0"@, "1.0"@, "0.0"@, "1.0"@),
        square_corner("1.0"@, "1.0"@, "1.0"@, "1.0"@),
        square_corner("1.0"@, "-1.0"@, "1.0"@, "0.0"@),
    ]
}

/// A square of two triangles around the origin, without materials.
pub fn hardcoded_square() -> (model: Model)
    ensures
        model.well_formed(),
        model.name@ == "who cares"@,
        model.mesh is NormalMesh,
        views(model.mesh->NormalMesh_0@) == square_corners(),
        model.indeces@ == seq![0u32, 1u32, 2u32, 2u32, 3u32, 0u32],
        model.materials@.len() == 0,
{
    let mut vertices: Vec<NormalVertex> = Vec::new();
    vertices.push(corner(Decimal::minus_one(), Decimal::minus_one(), Decimal::zero(), Decimal::zero()));
    vertices.push(corner(Decimal::minus_one(), Decimal::one(), Decimal::zero(), Decimal::one()));
    vertices.push(corner(Decimal::one(), Decimal::one(), Decimal::one(), Decimal::one()));
    vertices.push(corner(Decimal::one(), Decimal::minus_one(), Decimal::one(), Decimal::zero()));
    let mut indeces: Vec<u32> = Vec::new();
    indeces.push(0);
    indeces.push(1);
    indeces.push(2);
    indeces.push(2);
    indeces.push(3);
    indeces.push(0);
    Model { name: owned("who cares"), mesh: Mesh::NormalMesh(vertices), indeces, materials: Vec::new() }
}

} // verus!
