use crate::error::ImportError;
use crate::error::ImportErrorView;
use crate::face::corners;
use crate::face::Face;
use crate::fs::vector2_field;
use crate::fs::vector3_field;
use crate::fs::Fs;
use crate::model::lemma_views_push;
use crate::model::lemma_views_replace_last;
use crate::model::views;
use crate::mtl::find_material;
use crate::mtl::is_silent;
use crate::mtl::Mtl;
use crate::mtl_material::MaterialView;
use crate::obj_mesh::MeshView;
use crate::obj_mesh::ObjMesh;
use crate::path::library_location;
use crate::path::locate_library;
use crate::text::is_word;
use crate::text::lines;
use crate::text::string_of;
use crate::tokens::arguments;
use crate::tokens::keyword;
use crate::tokens::Tokens;
use crate::tokens::TokensView;
use crate::vector::Vector3;
use vstd::prelude::*;

verus! {

/// What a line of a mesh file asks for.
#[derive(Debug, Clone, Copy, PartialEq, Eq, Structural)]
pub enum ObjDirective {
    /// `mtllib`: load a material library.
    MaterialLibrary,
    /// `usemtl`: bind a material of the library to the current mesh.
    UseMaterial,
    /// `o`: a new mesh starts.
    Object,
    /// `v`: a position of the current mesh.
    Position,
    /// `vn`: a normal of the current mesh.
    Normal,
    /// `vt`: a texture coordinate of the current mesh.
    TexCoord,
    /// `f`: a polygon of the current mesh.
    Polygon,
    /// `s`, a blank line or a comment.
    Nothing,
    /// Any other keyword.
    Unrecognised,
}

/// The directive that a keyword selects in a mesh file.
pub open spec fn obj_directive(cmd: Seq<char>) -> ObjDirective {
    if cmd == "mtllib"@ {
        ObjDirective::MaterialLibrary
    } else if cmd == "usemtl"@ {
        ObjDirective::UseMaterial
    } else if cmd == "o"@ {
        ObjDirective::Object
    } else if cmd == "v"@ {
        ObjDirective::Position
    } else if cmd == "vn"@ {
        ObjDirective::Normal
    } else if cmd == "vt"@ {
        ObjDirective::TexCoord
    } else if cmd == "f"@ {
        ObjDirective::Polygon
    } else if cmd == "s"@ || is_silent(cmd) {
        ObjDirective::Nothing
    } else {
        ObjDirective::Unrecognised
    }
}

/// The mesh that a data directive makes of `mesh`, given the active library
/// and the cursor behind the keyword; nothing where a field is missing or
/// malformed, where the library has no material of the name asked for, or
/// where the directive carries no data.
pub open spec fn mesh_edit(
    d: ObjDirective,
    mesh: MeshView,
    library: Seq<MaterialView>,
    args: TokensView,
) -> Option<MeshView> {
    match d {
        ObjDirective::UseMaterial => match args.remainder() {
            Some(name) => match find_material(library, name) {
                Some(m) => Some(MeshView { material: m, ..mesh }),
                None => None,
            },
            None => None,
        },
        ObjDirective::Position => match vector3_field(args) {
            Some(v) => Some(MeshView { positions: mesh.positions.push(v), ..mesh }),
            None => None,
        },
        ObjDirective::Normal => match vector3_field(args) {
            Some(v) => Some(MeshView { normals: mesh.normals.push(v), ..mesh }),
            None => None,
        },
        ObjDirective::TexCoord => match vector2_field(args) {
            Some(v) => Some(MeshView { uvs: mesh.uvs.push(v), ..mesh }),
            None => None,
        },
        ObjDirective::Polygon => Some(MeshView { faces: mesh.faces.push(corners(args)), ..mesh }),
        _ => None,
    }
}

/// What one line of a mesh file does.
pub enum LineEffect {
    /// The meshes are now these.
    Continue(Seq<MeshView>),
    /// The library in the file of this name is to replace the active one.
    Load(Seq<char>),
    /// The import fails with this error.
    Fail(ImportErrorView),
}

/// The effect of one line on the meshes read so far, under the active
/// library. `o` appends an empty mesh under the name that the rest of the
/// line gives. A data directive changes the last mesh, and is invalid data
/// where there is none yet.
pub open spec fn obj_apply(
    meshes: Seq<MeshView>,
    library: Seq<MaterialView>,
    line: Seq<char>,
) -> LineEffect {
    let args = arguments(line);
    match obj_directive(keyword(line)) {
        ObjDirective::MaterialLibrary => match args.remainder() {
            Some(file) => LineEffect::Load(file),
            None => LineEffect::Fail(ImportErrorView::InvalidData),
        },
        ObjDirective::Object => match args.remainder() {
            Some(name) => LineEffect::Continue(meshes.push(MeshView::named(name))),
            None => LineEffect::Fail(ImportErrorView::InvalidData),
        },
        ObjDirective::Nothing => LineEffect::Continue(meshes),
        ObjDirective::Unrecognised => LineEffect::Fail(
            ImportErrorView::UnrecognisedToken(keyword(line)),
        ),
        data => if meshes.len() == 0 {
            LineEffect::Fail(ImportErrorView::InvalidData)
        } else {
            match mesh_edit(data, meshes.last(), library, args) {
                Some(m) => LineEffect::Continue(meshes.update(meshes.len() - 1, m)),
                None => LineEffect::Fail(ImportErrorView::InvalidData),
            }
        },
    }
}

/// An import under way: the path of the mesh file, its lines still to be
/// read, the meshes read so far and the active library.
pub struct ParserView {
    pub path: Seq<char>,
    pub rest: Seq<Seq<char>>,
    pub meshes: Seq<MeshView>,
    pub library: Seq<MaterialView>,
}

/// How a run over the lines of a mesh file ends.
pub enum RunView {
    /// All lines are read; these are the meshes.
    Finished(Seq<MeshView>),
    /// The library at this path is to be imported; the import then goes on
    /// from the given state with that library as the active one.
    NeedLibrary(Seq<char>, ParserView),
    /// The import failed.
    Failed(ImportErrorView),
}

impl ParserView {
    /// The state before the first line of `text`, the content of the mesh
    /// file at `path`.
    pub open spec fn start(path: Seq<char>, text: Seq<char>) -> ParserView {
        ParserView { path, rest: lines(text), meshes: Seq::empty(), library: Seq::empty() }
    }

    /// The same state with another active library.
    pub open spec fn with_library(self, library: Seq<MaterialView>) -> ParserView {
        ParserView { library, ..self }
    }

    /// Reads lines until all are read, one asks for a library, or one
    /// fails.
    pub open spec fn run(self) -> RunView
        decreases self.rest.len(),
    {
        if self.rest.len() == 0 {
            RunView::Finished(self.meshes)
        } else {
            let after = ParserView { rest: self.rest.skip(1), ..self };
            match obj_apply(self.meshes, self.library, self.rest[0]) {
                LineEffect::Continue(meshes) => (ParserView { meshes, ..after }).run(),
                LineEffect::Load(file) => match library_location(self.path, file) {
                    Ok(p) => RunView::NeedLibrary(p, after),
                    Err(e) => RunView::Failed(e),
                },
                LineEffect::Fail(e) => RunView::Failed(e),
            }
        }
    }
}

/// A scene: the meshes of one mesh file, in the order of their definition.
#[derive(Debug, PartialEq, Eq)]
pub struct Obj {
    meshes: Vec<ObjMesh>,
}

impl View for Obj {
    type V = Seq<MeshView>;

    closed spec fn view(&self) -> Seq<MeshView> {
        views(self.meshes@)
    }
}

/// The positions of all meshes, mesh after mesh.
pub open spec fn all_positions(meshes: Seq<MeshView>) -> Seq<(Seq<char>, Seq<char>, Seq<char>)>
    decreases meshes.len(),
{
    if meshes.len() == 0 {
        Seq::empty()
    } else {
        all_positions(meshes.drop_last()) + meshes.last().positions
    }
}

impl ObjDirective {
    /// The directive that a keyword selects in a mesh file.
    pub fn of(cmd: &[char]) -> (r: ObjDirective)
        ensures
            r == obj_directive(cmd@),
    {
        if is_word(cmd, "mtllib") {
            ObjDirective::MaterialLibrary
        } else if is_word(cmd, "usemtl") {
            ObjDirective::UseMaterial
        } else if is_word(cmd, "o") {
            ObjDirective::Object
        } else if is_word(cmd, "v") {
            ObjDirective::Position
        } else if is_word(cmd, "vn") {
            ObjDirective::Normal
        } else if is_word(cmd, "vt") {
            ObjDirective::TexCoord
        } else if is_word(cmd, "f") {
            ObjDirective::Polygon
        } else if is_word(cmd, "s") || cmd.len() == 0 || cmd[0] == '#' {
            ObjDirective::Nothing
        } else {
            ObjDirective::Unrecognised
        }
    }
}

impl ObjMesh {
    /// Applies a data directive to the mesh. A field that is missing or
    /// malformed and a material that the library lacks are invalid data, and
    /// then the mesh stays as it was.
    pub fn edit(&mut self, d: ObjDirective, library: &Mtl, tokens: &mut Tokens) -> (r: Result<
        (),
        ImportError,
    >)
        ensures
            match mesh_edit(d, old(self)@, library@, old(tokens)@) {
                Some(m) => r is Ok && final(self)@ == m,
                None => r == Err::<(), ImportError>(ImportError::InvalidData) && final(self)@
                    == old(self)@,
            },
    {
        match d {
            ObjDirective::UseMaterial => match tokens.remainder() {
                Some(name) => {
                    let name_string = string_of(name);
                    match library.get_material(name_string.as_str()) {
                        Some(material) => {
                            self.set_material(material.clone());
                            Ok(())
                        },
                        None => Err(ImportError::InvalidData),
                    }
                },
                None => Err(ImportError::InvalidData),
            },
            ObjDirective::Position => match Fs::parse_vector3(tokens) {
                Ok(v) => {
                    self.load_position(v);
                    Ok(())
                },
                Err(e) => Err(e),
            },
            ObjDirective::Normal => match Fs::parse_vector3(tokens) {
                Ok(v) => {
                    self.load_normal(v);
                    Ok(())
                },
                Err(e) => Err(e),
            },
            ObjDirective::TexCoord => match Fs::parse_vector2(tokens) {
                Ok(v) => {
                    self.load_uv(v);
                    Ok(())
                },
                Err(e) => Err(e),
            },
            ObjDirective::Polygon => {
                let face = Face::parse(tokens);
                self.load_face(face);
                Ok(())
            },
            _ => Err(ImportError::InvalidData),
        }
    }
}

impl Obj {
    /// The scene without meshes.
    pub fn empty() -> (r: Obj)
        ensures
            r@ == Seq::<MeshView>::empty(),
    {
        let r = Obj { meshes: Vec::new() };
        assert(r@ =~= Seq::<MeshView>::empty());
        r
    }

    /// The meshes of the scene.
    pub fn meshes(&self) -> (r: &Vec<ObjMesh>)
        ensures
            views(r@) == self@,
    {
        &self.meshes
    }

    /// The positions of all meshes, mesh after mesh.
    pub fn all_pos_data(&self) -> (r: Vec<Vector3>)
        ensures
            views(r@) == all_positions(self@),
    {
        let mut data: Vec<Vector3> = Vec::new();
        let mut i: usize = 0;
        assert(self@.take(0) =~= Seq::<MeshView>::empty());
        assert(views(data@) =~= all_positions(self@.take(0)));
        while i < self.meshes.len()
            invariant
                i <= self.meshes@.len(),
                views(data@) == all_positions(self@.take(i as int)),
            decreases self.meshes@.len() - i,
        {
            let positions = self.meshes[i].positions();
            let ghost done = views(data@);
            let mut j: usize = 0;
            while j < positions.len()
                invariant
                    j <= positions@.len(),
                    views(data@) == done + views(positions@).take(j as int),
                decreases positions@.len() - j,
            {
                let ghost before = data@;
                data.push(positions[j].clone());
                proof {
                    lemma_views_push(before, data@.last());
                    assert(views(positions@).take(j + 1) =~= views(positions@).take(j as int).push(
                        positions@[j as int]@,
                    ));
                    assert(views(data@) =~= done + views(positions@).take(j + 1));
                }
                j = j + 1;
            }
            proof {
                let upto = self@.take(i + 1);
                assert(upto.drop_last() =~= self@.take(i as int));
                assert(upto.last() == self.meshes@[i as int]@);
                assert(views(positions@).take(j as int) =~= views(positions@));
            }
            i = i + 1;
        }
        assert(self@.take(i as int) =~= self@);
        data
    }

    /// Applies one line of a mesh file under the active library. Hands back
    /// the file name of a library that the line asks for, if it asks for
    /// one. Where the line does so, or raises an error, the scene stays as
    /// it was.
    pub fn apply(&mut self, library: &Mtl, line: &[char]) -> (r: Result<Option<String>, ImportError>)
        ensures
            match obj_apply(old(self)@, library@, line@) {
                LineEffect::Continue(meshes) => r == Ok::<Option<String>, ImportError>(None)
                    && final(self)@ == meshes,
                LineEffect::Load(file) => r is Ok && r->Ok_0 is Some && r->Ok_0->0@ == file
                    && final(self)@ == old(self)@,
                LineEffect::Fail(e) => r is Err && r->Err_0@ == e && final(self)@ == old(self)@,
            },
    {
        let (cmd, mut tokens) = Tokens::directive(line);
        let d = ObjDirective::of(cmd);
        match d {
            ObjDirective::MaterialLibrary => match tokens.remainder() {
                Some(file) => Ok(Some(string_of(file))),
                None => Err(ImportError::InvalidData),
            },
            ObjDirective::Object => match tokens.remainder() {
                Some(name) => {
                    let mut mesh = ObjMesh::empty();
                    let name_string = string_of(name);
                    mesh.set_name(name_string.as_str());
                    proof {
                        lemma_views_push(self.meshes@, mesh);
                    }
                    self.meshes.push(mesh);
                    Ok(None)
                },
                None => Err(ImportError::InvalidData),
            },
            ObjDirective::Nothing => Ok(None),
            ObjDirective::Unrecognised => Err(ImportError::UnrecognisedToken(string_of(cmd))),
            _ => match self.meshes.pop() {
                Some(mut mesh) => {
                    let ghost before = mesh@;
                    assert(before == old(self)@.last());
                    let r = mesh.edit(d, library, &mut tokens);
                    proof {
                        lemma_views_replace_last(old(self).meshes@, mesh);
                        assert(old(self)@.update(old(self)@.len() - 1, before) =~= old(self)@);
                    }
                    self.meshes.push(mesh);
                    match r {
                        Ok(()) => Ok(None),
                        Err(e) => Err(e),
                    }
                },
                None => Err(ImportError::InvalidData),
            },
        }
    }
}

/// An import of a mesh file that is under way.
#[derive(Debug)]
pub struct ObjParser {
    path: String,
    lines: Vec<Vec<char>>,
    next: usize,
    scene: Obj,
    library: Mtl,
}

impl View for ObjParser {
    type V = ParserView;

    closed spec fn view(&self) -> ParserView {
        ParserView {
            path: self.path@,
            rest: views(self.lines@).skip(self.next as int),
            meshes: self.scene@,
            library: self.library@,
        }
    }
}

/// How a run over the lines of a mesh file ended.
#[derive(Debug)]
pub enum ObjStep {
    /// All lines are read; this is the scene.
    Finished(Obj),
    /// The library at this path is to be imported, and the import resumed
    /// with it.
    NeedLibrary(String, ObjParser),
    /// The import failed.
    Failed(ImportError),
}

impl View for ObjStep {
    type V = RunView;

    open spec fn view(&self) -> RunView {
        match self {
            ObjStep::Finished(scene) => RunView::Finished(scene@),
            ObjStep::NeedLibrary(path, pending) => RunView::NeedLibrary(path@, pending@),
            ObjStep::Failed(e) => RunView::Failed(e@),
        }
    }
}

impl ObjParser {
    #[verifier::type_invariant]
    spec fn well_formed(&self) -> bool {
        self.next <= self.lines@.len()
    }

    /// The import of the mesh file at `path`, whose content is `text`,
    /// before its first line.
    pub fn new(path: &str, text: &str) -> (r: ObjParser)
        ensures
            r@ == ParserView::start(path@, text@),
    {
        let lines = Fs::parse_lines(text);
        assert(views(lines@).skip(0) =~= views(lines@));
        ObjParser {
            path: path.to_owned(),
            lines,
            next: 0,
            scene: Obj::empty(),
            library: Mtl::empty(),
        }
    }

    /// Reads on until all lines are read, one asks for a library, or one
    /// fails.
    pub fn run(self) -> (r: ObjStep)
        ensures
            r@ == self@.run(),
    {
        proof {
            use_type_invariant(&self);
        }
        let ghost start = self@;
        let ObjParser { path, lines, next, scene, library } = self;
        let mut next: usize = next;
        let mut scene = scene;
        while next < lines.len()
            invariant
                next <= lines@.len(),
                (ParserView {
                    path: path@,
                    rest: views(lines@).skip(next as int),
                    meshes: scene@,
                    library: library@,
                }).run() == start.run(),
                start == self@,
            decreases lines@.len() - next,
        {
            let ghost rest = views(lines@).skip(next as int);
            assert(rest[0] == lines@[next as int]@);
            assert(rest.skip(1) =~= views(lines@).skip(next + 1));
            match scene.apply(&library, lines[next].as_slice()) {
                Ok(None) => {
                    next = next + 1;
                },
                Ok(Some(file)) => {
                    match locate_library(path.as_str(), file.as_str()) {
                        Ok(p) => {
                            return ObjStep::NeedLibrary(
                                p,
                                ObjParser { path, lines, next: next + 1, scene, library },
                            );
                        },
                        Err(e) => {
                            return ObjStep::Failed(e);
                        },
                    }
                },
                Err(e) => {
                    return ObjStep::Failed(e);
                },
            }
        }
        ObjStep::Finished(scene)
    }

    /// Makes `library` the active library and reads on.
    pub fn resume(self, library: Mtl) -> (r: ObjStep)
        ensures
            r@ == self@.with_library(library@).run(),
    {
        proof {
            use_type_invariant(&self);
        }
        let ObjParser { path, lines, next, scene, library: _ } = self;
        let parser = ObjParser { path, lines, next, scene, library };
        parser.run()
    }
}

impl Obj {
    /// Reads the mesh file at `path`, whose content is `text`, up to its end
    /// or to the first line that asks for a library or fails.
    pub fn parse(path: &str, text: &str) -> (r: ObjStep)
        ensures
            r@ == ParserView::start(path@, text@).run(),
    {
        ObjParser::new(path, text).run()
    }
}

/// `usemtl` with a name that the active library lacks is invalid data,
/// whatever the meshes so far.
pub proof fn lemma_unknown_material(
    meshes: Seq<MeshView>,
    library: Seq<MaterialView>,
    line: Seq<char>,
)
    requires
        obj_directive(keyword(line)) == ObjDirective::UseMaterial,
        arguments(line).remainder() matches Some(name) ==> find_material(library, name) is None,
    ensures
        obj_apply(meshes, library, line) == LineEffect::Fail(ImportErrorView::InvalidData),
{
}

/// A line with a keyword that the format does not know fails with that
/// keyword, whatever the meshes and the library.
pub proof fn lemma_unknown_keyword(
    meshes: Seq<MeshView>,
    library: Seq<MaterialView>,
    line: Seq<char>,
)
    requires
        obj_directive(keyword(line)) == ObjDirective::Unrecognised,
    ensures
        obj_apply(meshes, library, line) == LineEffect::Fail(
            ImportErrorView::UnrecognisedToken(keyword(line)),
        ),
{
}

/// A run over lines of which one has an unknown keyword never ends with a
/// scene. It fails, with that keyword where the lines before it raise no
/// error and ask for no library; or it asks for a library first, and the
/// line is then among those still to be read.
pub proof fn lemma_unknown_keyword_fails(p: ParserView, i: int)
    requires
        0 <= i < p.rest.len(),
        obj_directive(keyword(p.rest[i])) == ObjDirective::Unrecognised,
    ensures
        !(p.run() is Finished),
        p.run() matches RunView::NeedLibrary(_, pending) ==> pending.rest.contains(p.rest[i]),
        (ParserView { rest: p.rest.take(i), ..p }).run() is Finished ==> p.run()
            == RunView::Failed(ImportErrorView::UnrecognisedToken(keyword(p.rest[i]))),
    decreases i,
{
    let before = ParserView { rest: p.rest.take(i), ..p };
    if i > 0 {
        assert(before.rest[0] == p.rest[0]);
        match obj_apply(p.meshes, p.library, p.rest[0]) {
            LineEffect::Continue(meshes) => {
                let q = ParserView { meshes, rest: p.rest.skip(1), ..p };
                assert(q.rest[i - 1] == p.rest[i]);
                assert(q.rest.take(i - 1) =~= before.rest.skip(1));
                lemma_unknown_keyword_fails(q, i - 1);
            },
            LineEffect::Load(file) => {
                assert(p.rest.skip(1)[i - 1] == p.rest[i]);
            },
            LineEffect::Fail(e) => {},
        }
    }
}

/// Reading a mesh file is a function of its path and its text: two runs
/// over the same file end alike, buffer for buffer.
pub proof fn lemma_parse_is_function(
    path: Seq<char>,
    text: Seq<char>,
    first: ObjStep,
    second: ObjStep,
)
    requires
        first@ == ParserView::start(path, text).run(),
        second@ == ParserView::start(path, text).run(),
    ensures
        first@ == second@,
{
}

} // verus!
