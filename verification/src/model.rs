//! Models: vertices, the index sequence that joins them into triangles, and
//! the materials that colour them.

use vstd::prelude::*;
use crate::error::ResultError;
use crate::model::material::Material;
use crate::number::Decimal;

pub mod material;
pub mod model_manager;
pub mod primitives;

verus! {

/// A vector of two components.
#[derive(Debug, PartialEq, Eq)]
pub struct Vector2 {
    pub x: Decimal,
    pub y: Decimal,
}

/// A vector of four components.
#[derive(Debug, PartialEq, Eq)]
pub struct Vector4 {
    pub x: Decimal,
    pub y: Decimal,
    pub z: Decimal,
    pub w: Decimal,
}

pub type PositionVector = Vector4;

pub type TextureVector = Vector2;

pub type NormalVector = Vector4;

pub type IndexCoord = u32;

pub type IndexVector = Vec<IndexCoord>;

pub ghost struct Vector2View {
    pub x: Seq<char>,
    pub y: Seq<char>,
}

pub ghost struct Vector4View {
    pub x: Seq<char>,
    pub y: Seq<char>,
    pub z: Seq<char>,
    pub w: Seq<char>,
}

impl View for Vector2 {
    type V = Vector2View;

    open spec fn view(&self) -> Vector2View {
        Vector2View { x: self.x@, y: self.y@ }
    }
}

impl View for Vector4 {
    type V = Vector4View;

    open spec fn view(&self) -> Vector4View {
        Vector4View { x: self.x@, y: self.y@, z: self.z@, w: self.w@ }
    }
}

impl Clone for Vector2 {
    fn clone(&self) -> (copy: Self)
        ensures
            copy@ == self@,
    {
        Vector2 { x: self.x.clone(), y: self.y.clone() }
    }
}

impl Clone for Vector4 {
    fn clone(&self) -> (copy: Self)
        ensures
            copy@ == self@,
    {
        Vector4 { x: self.x.clone(), y: self.y.clone(), z: self.z.clone(), w: self.w.clone() }
    }
}

impl Vector2 {
    pub fn new(x: Decimal, y: Decimal) -> (v: Self)
        ensures
            v == (Vector2 { x, y }),
    {
        Vector2 { x, y }
    }
}

impl Vector4 {
    pub fn new(x: Decimal, y: Decimal, z: Decimal, w: Decimal) -> (v: Self)
        ensures
            v == (Vector4 { x, y, z, w }),
    {
        Vector4 { x, y, z, w }
    }
}

/// A vertex that has a position only.
#[derive(Debug, PartialEq, Eq)]
pub struct PostionVertex(pub PositionVector);

/// A vertex with a position and a texture coordinate.
#[derive(Debug, PartialEq, Eq)]
pub struct TextureVertex {
    pub pos: PositionVector,
    pub uv: TextureVector,
}

/// A vertex with a position, a texture coordinate and a normal.
#[derive(Debug, PartialEq, Eq)]
pub struct NormalVertex {
    pub pos: PositionVector,
    pub uv: TextureVector,
    pub norm: NormalVector,
}

pub ghost struct NormalVertexView {
    pub pos: Vector4View,
    pub uv: Vector2View,
    pub norm: Vector4View,
}

impl View for NormalVertex {
    type V = NormalVertexView;

    open spec fn view(&self) -> NormalVertexView {
        NormalVertexView { pos: self.pos@, uv: self.uv@, norm: self.norm@ }
    }
}

impl NormalVertex {
    pub fn new(pos: Vector4, uv: Vector2, norm: Vector4) -> (vertex: Self)
        ensures
            vertex == (NormalVertex { pos, uv, norm }),
    {
        NormalVertex { pos, uv, norm }
    }
}

/// The vertices of a model, in one of three layouts.
#[derive(Debug, PartialEq, Eq)]
pub enum Mesh {
    PositionMesh(Vec<PostionVertex>),
    TextureMesh(Vec<TextureVertex>),
    NormalMesh(Vec<NormalVertex>),
}

impl Mesh {
    /// How many vertices the mesh has.
    pub open spec fn vertex_count(&self) -> nat {
        match self {
            Mesh::PositionMesh(vertices) => vertices@.len(),
            Mesh::TextureMesh(vertices) => vertices@.len(),
            Mesh::NormalMesh(vertices) => vertices@.len(),
        }
    }
}

pub const DEFAULT_MODEL_NAME: &'static str = "unnamed";

/// A named mesh with its triangles and materials. Every three indices make
/// one triangle, in the winding order of the source.
#[derive(Debug, PartialEq, Eq)]
pub struct Model {
    pub name: String,
    pub mesh: Mesh,
    pub indeces: Vec<IndexCoord>,
    pub materials: Vec<Material>,
}

impl Model {
    /// Every index designates a vertex of the mesh.
    pub open spec fn well_formed(&self) -> bool {
        forall|i: int|
            0 <= i < self.indeces@.len() ==> (#[trigger] self.indeces@[i]) < self.mesh.vertex_count()
    }

    /// Attaches what the companion material description gave. Without a
    /// companion the model stays as it is. A material becomes the model's
    /// only material. A failure leaves the model without materials and is
    /// handed back beside it; it does not fail the import.
    pub fn with_material(self, companion: Option<Result<Material, ResultError>>) -> (r: (
        Model,
        Option<ResultError>,
    ))
        ensures
            r.0.name == self.name,
            r.0.mesh == self.mesh,
            r.0.indeces == self.indeces,
            self.well_formed() ==> r.0.well_formed(),
            match companion {
                None => r.0.materials == self.materials && r.1 is None,
                Some(Ok(material)) => r.0.materials@ == seq![material] && r.1 is None,
                Some(Err(e)) => r.0.materials@.len() == 0 && r.1 == Some(e),
            },
    {
        let Model { name, mesh, indeces, materials } = self;
        match companion {
            None => (Model { name, mesh, indeces, materials }, None),
            Some(Ok(material)) => {
                let mut materials: Vec<Material> = Vec::new();
                materials.push(material);
                (Model { name, mesh, indeces, materials }, None)
            },
            Some(Err(e)) => (Model { name, mesh, indeces, materials: Vec::new() }, Some(e)),
        }
    }

    /// The vertices of a mesh in the fully attributed layout.
    pub fn get_vertices(&self) -> (vertices: &[NormalVertex])
        requires
            self.mesh is NormalMesh,
        ensures
            vertices@ == self.mesh->NormalMesh_0@,
    {
        match &self.mesh {
            Mesh::NormalMesh(vertices) => vertices.as_slice(),
            _ => {
                let none: &[NormalVertex] = &[];
                none
            },
        }
    }
}

} // verus!
