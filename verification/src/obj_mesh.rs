use crate::face::Face;
use crate::face::FaceElement;
use crate::model::lemma_views_push;
use crate::model::views;
use crate::mtl_material::MaterialView;
use crate::mtl_material::MtlMaterial;
use crate::vector::Vector2;
use crate::vector::Vector3;
use vstd::prelude::*;

verus! {

/// One named object of a scene: its buffers, its polygons and the material
/// bound to it.
#[derive(Debug, PartialEq, Eq)]
pub struct ObjMesh {
    name: String,
    position_data: Vec<Vector3>,
    normal_data: Vec<Vector3>,
    uv_data: Vec<Vector2>,
    face_data: Vec<Face>,
    active_material: MtlMaterial,
}

/// What a mesh holds.
pub struct MeshView {
    pub name: Seq<char>,
    pub positions: Seq<(Seq<char>, Seq<char>, Seq<char>)>,
    pub normals: Seq<(Seq<char>, Seq<char>, Seq<char>)>,
    pub uvs: Seq<(Seq<char>, Seq<char>)>,
    pub faces: Seq<Seq<FaceElement>>,
    pub material: MaterialView,
}

impl MeshView {
    /// The mesh without a name and without data, bound to the neutral
    /// material.
    pub open spec fn empty() -> MeshView {
        MeshView {
            name: Seq::empty(),
            positions: Seq::empty(),
            normals: Seq::empty(),
            uvs: Seq::empty(),
            faces: Seq::empty(),
            material: MaterialView::empty(),
        }
    }

    /// The empty mesh under the given name.
    pub open spec fn named(name: Seq<char>) -> MeshView {
        MeshView { name, ..MeshView::empty() }
    }
}

impl View for ObjMesh {
    type V = MeshView;

    closed spec fn view(&self) -> MeshView {
        MeshView {
            name: self.name@,
            positions: views(self.position_data@),
            normals: views(self.normal_data@),
            uvs: views(self.uv_data@),
            faces: views(self.face_data@),
            material: self.active_material@,
        }
    }
}

impl ObjMesh {
    /// The mesh without a name and without data, bound to the neutral
    /// material.
    pub fn empty() -> (r: ObjMesh)
        ensures
            r@ == MeshView::empty(),
    {
        let r = ObjMesh {
            name: String::new(),
            position_data: Vec::new(),
            normal_data: Vec::new(),
            uv_data: Vec::new(),
            face_data: Vec::new(),
            active_material: MtlMaterial::empty(),
        };
        assert(r@.positions =~= Seq::empty());
        assert(r@.normals =~= Seq::empty());
        assert(r@.uvs =~= Seq::empty());
        assert(r@.faces =~= Seq::empty());
        r
    }

    /// The name of the mesh.
    pub fn name(&self) -> (r: &str)
        ensures
            r@ == self@.name,
    {
        self.name.as_str()
    }

    /// The position buffer.
    pub fn positions(&self) -> (r: &Vec<Vector3>)
        ensures
            views(r@) == self@.positions,
    {
        &self.position_data
    }

    /// The normal buffer.
    pub fn normals(&self) -> (r: &Vec<Vector3>)
        ensures
            views(r@) == self@.normals,
    {
        &self.normal_data
    }

    /// The texture coordinate buffer.
    pub fn uvs(&self) -> (r: &Vec<Vector2>)
        ensures
            views(r@) == self@.uvs,
    {
        &self.uv_data
    }

    /// The polygons.
    pub fn faces(&self) -> (r: &Vec<Face>)
        ensures
            views(r@) == self@.faces,
    {
        &self.face_data
    }

    /// Renames the mesh.
    pub fn set_name(&mut self, value: &str)
        ensures
            final(self)@ == (MeshView { name: value@, ..old(self)@ }),
    {
        self.name = value.to_owned();
    }

    /// The material bound to the mesh.
    pub fn get_material(&self) -> (r: &MtlMaterial)
        ensures
            r@ == self@.material,
    {
        &self.active_material
    }

    /// Binds a material to the mesh.
    pub fn set_material(&mut self, value: MtlMaterial)
        ensures
            final(self)@ == (MeshView { material: value@, ..old(self)@ }),
    {
        self.active_material = value;
    }

    /// Appends a position.
    pub fn load_position(&mut self, value: Vector3)
        ensures
            final(self)@ == (MeshView {
                positions: old(self)@.positions.push(value@),
                ..old(self)@
            }),
    {
        proof {
            lemma_views_push(self.position_data@, value);
        }
        self.position_data.push(value);
    }

    /// Appends a normal.
    pub fn load_normal(&mut self, value: Vector3)
        ensures
            final(self)@ == (MeshView { normals: old(self)@.normals.push(value@), ..old(self)@ }),
    {
        proof {
            lemma_views_push(self.normal_data@, value);
        }
        self.normal_data.push(value);
    }

    /// Appends a texture coordinate.
    pub fn load_uv(&mut self, value: Vector2)
        ensures
            final(self)@ == (MeshView { uvs: old(self)@.uvs.push(value@), ..old(self)@ }),
    {
        proof {
            lemma_views_push(self.uv_data@, value);
        }
        self.uv_data.push(value);
    }

    /// Appends a polygon.
    pub fn load_face(&mut self, face: Face)
        ensures
            final(self)@ == (MeshView { faces: old(self)@.faces.push(face@), ..old(self)@ }),
    {
        proof {
            lemma_views_push(self.face_data@, face);
        }
        self.face_data.push(face);
    }
}

} // verus!
