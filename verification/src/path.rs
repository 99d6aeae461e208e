use crate::error::ImportError;
use crate::error::ImportErrorView;
use crate::mtl_material::opt_string_view;
use vstd::prelude::*;

verus! {

/// The directory that holds the file at `path`, as `std::path::Path::parent`
/// finds it under the path syntax of the platform; nothing where `path` is
/// empty or ends in a root.
pub uninterp spec fn parent_of(path: Seq<char>) -> Option<Seq<char>>;

/// The path of `file` as seen from the directory `dir`, as
/// `std::path::PathBuf::push` forms it under the path syntax of the
/// platform.
pub uninterp spec fn joined(dir: Seq<char>, file: Seq<char>) -> Seq<char>;

/// Calls `std::path::Path::parent`. The contract only names the result: the
/// directory depends on nothing but the text of `path`.
#[verifier::external_body]
fn parent(path: &str) -> (r: Option<String>)
    ensures
        opt_string_view(r) == parent_of(path@),
{
    match std::path::Path::new(path).parent() {
        Some(dir) => Some(dir.to_string_lossy().into_owned()),
        None => None,
    }
}

/// Calls `std::path::PathBuf::push` on `dir`. The contract only names the
/// result: the path depends on nothing but the two texts.
#[verifier::external_body]
fn join(dir: &str, file: &str) -> (r: String)
    ensures
        r@ == joined(dir@, file@),
{
    let mut path = std::path::PathBuf::from(dir);
    path.push(file);
    path.to_string_lossy().into_owned()
}

/// Where the library `file` that a mesh file names is to be found: beside
/// the mesh file, not in the working directory. A mesh path without a
/// directory part to start from is an invalid path.
pub open spec fn library_location(mesh_path: Seq<char>, file: Seq<char>) -> Result<
    Seq<char>,
    ImportErrorView,
> {
    located_in(parent_of(mesh_path), mesh_path, file)
}

/// The same, given the directory of the mesh file.
pub open spec fn located_in(
    directory: Option<Seq<char>>,
    mesh_path: Seq<char>,
    file: Seq<char>,
) -> Result<Seq<char>, ImportErrorView> {
    match directory {
        Some(dir) => Ok(joined(dir, file)),
        None => Err(ImportErrorView::InvalidPath(mesh_path)),
    }
}

/// Whether an outcome in code is the outcome that the model gives.
pub open spec fn location_is(
    r: Result<String, ImportError>,
    model: Result<Seq<char>, ImportErrorView>,
) -> bool {
    match model {
        Ok(p) => r is Ok && r->Ok_0@ == p,
        Err(e) => r is Err && r->Err_0@ == e,
    }
}

/// The path of the library `file`, given the directory of the mesh file
/// that names it.
pub fn library_in(directory: Option<String>, mesh_path: &str, file: &str) -> (r: Result<
    String,
    ImportError,
>)
    ensures
        location_is(r, located_in(opt_string_view(directory), mesh_path@, file@)),
{
    match directory {
        Some(dir) => Ok(join(dir.as_str(), file)),
        None => Err(ImportError::InvalidPath(mesh_path.to_owned())),
    }
}

/// The path of the library `file` that the mesh file at `mesh_path` names.
pub fn locate_library(mesh_path: &str, file: &str) -> (r: Result<String, ImportError>)
    ensures
        location_is(r, library_location(mesh_path@, file@)),
{
    library_in(parent(mesh_path), mesh_path, file)
}

} // verus!
