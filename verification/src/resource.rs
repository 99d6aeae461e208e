use crate::error::ImportError;
use crate::error::ImportErrorView;
use crate::files::read_file;
use crate::files::Files;
use crate::mtl::mtl_directive;
use crate::mtl::mtl_outcome_is;
use crate::mtl::mtl_parse;
use crate::mtl::Mtl;
use crate::mtl::MtlDirective;
use crate::mtl_material::MaterialView;
use crate::obj::obj_directive;
use crate::obj::Obj;
use crate::obj::ObjDirective;
use crate::obj::ObjStep;
use crate::obj::ParserView;
use crate::obj::RunView;
use crate::obj_mesh::MeshView;
use crate::text::lines;
use crate::tokens::keyword;
use vstd::prelude::*;

verus! {

/// The library that the file at `path` defines.
pub open spec fn mtl_import(files: Seq<(Seq<char>, Seq<char>)>, path: Seq<char>) -> Result<
    Seq<MaterialView>,
    ImportErrorView,
> {
    match read_file(files, path) {
        Ok(text) => mtl_parse(text),
        Err(e) => Err(e),
    }
}

/// A run that asks for a library leaves fewer lines to be read.
pub proof fn lemma_run_shortens(p: ParserView)
    ensures
        p.run() matches RunView::NeedLibrary(_, pending) ==> pending.rest.len() < p.rest.len()
            && pending.path == p.path,
    decreases p.rest.len(),
{
    if p.rest.len() > 0 {
        match crate::obj::obj_apply(p.meshes, p.library, p.rest[0]) {
            crate::obj::LineEffect::Continue(meshes) => {
                lemma_run_shortens(ParserView { meshes, rest: p.rest.skip(1), ..p });
            },
            _ => {},
        }
    }
}

/// The scene that an import under way ends with: it reads on, and whenever
/// a line asks for a library, it imports that library, makes it the active
/// one and reads on. The first error ends it, in the mesh file or in a
/// library.
pub open spec fn obj_complete(files: Seq<(Seq<char>, Seq<char>)>, p: ParserView) -> Result<
    Seq<MeshView>,
    ImportErrorView,
>
    decreases p.rest.len(),
{
    match p.run() {
        RunView::Finished(meshes) => Ok(meshes),
        RunView::Failed(e) => Err(e),
        RunView::NeedLibrary(path, pending) => match mtl_import(files, path) {
            Ok(library) => {
                proof {
                    lemma_run_shortens(p);
                }
                obj_complete(files, pending.with_library(library))
            },
            Err(e) => Err(e),
        },
    }
}

/// The scene that the mesh file at `path` defines.
pub open spec fn obj_import(files: Seq<(Seq<char>, Seq<char>)>, path: Seq<char>) -> Result<
    Seq<MeshView>,
    ImportErrorView,
> {
    match read_file(files, path) {
        Ok(text) => obj_complete(files, ParserView::start(path, text)),
        Err(e) => Err(e),
    }
}

/// Whether an outcome in code is the outcome that the model gives.
pub open spec fn obj_outcome_is(
    r: Result<Obj, ImportError>,
    model: Result<Seq<MeshView>, ImportErrorView>,
) -> bool {
    match model {
        Ok(meshes) => r is Ok && r->Ok_0@ == meshes,
        Err(e) => r is Err && r->Err_0@ == e,
    }
}

/// What can be imported from a file.
pub trait Resource: Sized {
    /// Whether `r` is what importing the file at `path` gives.
    spec fn imported(files: Seq<(Seq<char>, Seq<char>)>, path: Seq<char>, r: Result<
        Self,
        ImportError,
    >) -> bool;

    /// Imports the file at `path`.
    fn import(files: &Files, path: &str) -> (r: Result<Self, ImportError>)
        ensures
            Self::imported(files@, path@, r),
    ;
}

impl Resource for Mtl {
    open spec fn imported(
        files: Seq<(Seq<char>, Seq<char>)>,
        path: Seq<char>,
        r: Result<Mtl, ImportError>,
    ) -> bool {
        mtl_outcome_is(r, mtl_import(files, path))
    }

    fn import(files: &Files, path: &str) -> (r: Result<Mtl, ImportError>) {
        match files.read(path) {
            Ok(text) => Mtl::parse(text),
            Err(e) => Err(e),
        }
    }
}

/// The step that a run view describes leaves this many lines to be read.
pub open spec fn lines_left(r: RunView) -> nat {
    match r {
        RunView::NeedLibrary(_, pending) => pending.rest.len() + 1,
        _ => 0,
    }
}

/// The scene that an import ends with after the given step.
pub open spec fn complete_after(files: Seq<(Seq<char>, Seq<char>)>, step: RunView) -> Result<
    Seq<MeshView>,
    ImportErrorView,
> {
    match step {
        RunView::Finished(meshes) => Ok(meshes),
        RunView::Failed(e) => Err(e),
        RunView::NeedLibrary(path, pending) => match mtl_import(files, path) {
            Ok(library) => obj_complete(files, pending.with_library(library)),
            Err(e) => Err(e),
        },
    }
}

impl Resource for Obj {
    open spec fn imported(
        files: Seq<(Seq<char>, Seq<char>)>,
        path: Seq<char>,
        r: Result<Obj, ImportError>,
    ) -> bool {
        obj_outcome_is(r, obj_import(files, path))
    }

    fn import(files: &Files, path: &str) -> (r: Result<Obj, ImportError>) {
        let text = match files.read(path) {
            Ok(text) => text,
            Err(e) => {
                return Err(e);
            },
        };
        let mut step = Obj::parse(path, text);
        loop
            invariant
                complete_after(files@, step@) == obj_import(files@, path@),
            decreases lines_left(step@),
        {
            match step {
                ObjStep::Finished(scene) => {
                    return Ok(scene);
                },
                ObjStep::Failed(e) => {
                    return Err(e);
                },
                ObjStep::NeedLibrary(library_path, pending) => {
                    match Mtl::import(files, library_path.as_str()) {
                        Ok(library) => {
                            proof {
                                lemma_run_shortens(pending@.with_library(library@));
                            }
                            step = pending.resume(library);
                        },
                        Err(e) => {
                            return Err(e);
                        },
                    }
                },
            }
        }
    }
}

/// An import whose lines still to be read hold one with a keyword that the
/// format does not know gives no scene, whatever the libraries hold.
pub proof fn lemma_unknown_keyword_rejected(
    files: Seq<(Seq<char>, Seq<char>)>,
    p: ParserView,
    line: Seq<char>,
)
    requires
        p.rest.contains(line),
        obj_directive(keyword(line)) == ObjDirective::Unrecognised,
    ensures
        obj_complete(files, p) is Err,
    decreases p.rest.len(),
{
    let i = choose|i: int| 0 <= i < p.rest.len() && p.rest[i] == line;
    crate::obj::lemma_unknown_keyword_fails(p, i);
    match p.run() {
        RunView::NeedLibrary(path, pending) => match mtl_import(files, path) {
            Ok(library) => {
                lemma_run_shortens(p);
                let q = pending.with_library(library);
                assert(q.rest.contains(line));
                lemma_unknown_keyword_rejected(files, q, line);
            },
            Err(e) => {},
        },
        _ => {},
    }
}

/// A mesh file with a line whose keyword the format does not know gives no
/// scene, and a library with such a line gives no materials.
pub proof fn lemma_unknown_keyword_in_file(
    files: Seq<(Seq<char>, Seq<char>)>,
    path: Seq<char>,
    i: int,
)
    requires
        read_file(files, path) is Ok,
        0 <= i < lines(read_file(files, path)->Ok_0).len(),
    ensures
        obj_directive(keyword(lines(read_file(files, path)->Ok_0)[i]))
            == ObjDirective::Unrecognised ==> obj_import(files, path) is Err,
        mtl_directive(keyword(lines(read_file(files, path)->Ok_0)[i]))
            == MtlDirective::Unrecognised ==> mtl_import(files, path) is Err,
{
    let text = read_file(files, path)->Ok_0;
    let line = lines(text)[i];
    if obj_directive(keyword(line)) == ObjDirective::Unrecognised {
        lemma_unknown_keyword_rejected(files, ParserView::start(path, text), line);
    }
    if mtl_directive(keyword(line)) == MtlDirective::Unrecognised {
        crate::mtl::lemma_unknown_keyword_fails(lines(text), Seq::empty(), i);
    }
}

/// Importing is a function of the files and the path: two imports of the
/// same file from the same files end alike, with the same scene, buffer for
/// buffer, or with the same error.
pub proof fn lemma_import_is_function(
    files: Seq<(Seq<char>, Seq<char>)>,
    path: Seq<char>,
    first: Result<Obj, ImportError>,
    second: Result<Obj, ImportError>,
)
    requires
        <Obj as Resource>::imported(files, path, first),
        <Obj as Resource>::imported(files, path, second),
    ensures
        first is Ok <==> second is Ok,
        first is Ok ==> first->Ok_0@ == second->Ok_0@,
        first is Err ==> first->Err_0@ == second->Err_0@,
{
}

} // verus!
