//! Reads polygon meshes and their material libraries from text.
//!
//! A mesh file is read line by line into a scene of named meshes
//! ([`Obj`]); a material library is read the same way into a list of
//! materials ([`Mtl`]). A mesh file names its libraries by file name, so
//! reading it stops at each such line ([`ObjStep`]) until the caller has
//! imported the library; [`Resource`] does both over files held in memory.
//!
//! Numbers are kept as the numerals that the file holds ([`Decimal`]): the
//! library decides which words are numerals, and leaves their values to the
//! caller.

pub mod counts;
pub mod error;
pub mod face;
pub mod files;
pub mod fs;
pub mod model;
pub mod mtl;
pub mod mtl_material;
pub mod number;
pub mod obj;
pub mod obj_mesh;
pub mod path;
pub mod resource;
pub mod text;
pub mod tokens;
pub mod vector;

pub use error::ImportError;
pub use face::Face;
pub use face::FaceElement;
pub use files::Files;
pub use fs::Fs;
pub use mtl::Mtl;
pub use mtl::MtlDirective;
pub use mtl_material::MtlMaterial;
pub use number::Decimal;
pub use obj::Obj;
pub use obj::ObjDirective;
pub use obj::ObjParser;
pub use obj::ObjStep;
pub use obj_mesh::ObjMesh;
pub use path::locate_library;
pub use resource::Resource;
pub use tokens::Tokens;
pub use vector::Vector2;
pub use vector::Vector3;
