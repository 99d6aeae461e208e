use crate::obj::obj_apply;
use crate::obj::obj_directive;
use crate::obj::LineEffect;
use crate::obj::ObjDirective;
use crate::obj::ParserView;
use crate::obj_mesh::MeshView;
use crate::text::lines;
use crate::tokens::keyword;
use vstd::prelude::*;

verus! {

/// How many of the lines have `word` as their keyword.
pub open spec fn count_keyword(ls: Seq<Seq<char>>, word: Seq<char>) -> nat
    decreases ls.len(),
{
    if ls.len() == 0 {
        0
    } else {
        count_keyword(ls.drop_last(), word) + if keyword(ls.last()) == word {
            1nat
        } else {
            0nat
        }
    }
}

/// How many of the lines have `word` as their keyword and belong to the
/// object number `k`, counted from 0: they stand behind the `o` line that
/// starts it and before the next `o` line.
pub open spec fn count_in_object(ls: Seq<Seq<char>>, word: Seq<char>, k: int) -> nat
    decreases ls.len(),
{
    if ls.len() == 0 {
        0
    } else {
        count_in_object(ls.drop_last(), word, k) + if keyword(ls.last()) == word && count_keyword(
            ls.drop_last(),
            "o"@,
        ) == k + 1 {
            1nat
        } else {
            0nat
        }
    }
}

/// Whether a line asks for a library or for a material.
pub open spec fn uses_materials(line: Seq<char>) -> bool {
    obj_directive(keyword(line)) == ObjDirective::MaterialLibrary || obj_directive(keyword(line))
        == ObjDirective::UseMaterial
}

/// Whether the meshes are what the lines announce: one mesh for each `o`
/// line, and in each buffer of a mesh one item for each line of its kind
/// that belongs to the mesh.
pub open spec fn meshes_match(ls: Seq<Seq<char>>, meshes: Seq<MeshView>) -> bool {
    &&& meshes.len() == count_keyword(ls, "o"@)
    &&& forall|k: int|
        0 <= k < meshes.len() ==> {
            &&& (#[trigger] meshes[k]).positions.len() == count_in_object(ls, "v"@, k)
            &&& meshes[k].normals.len() == count_in_object(ls, "vn"@, k)
            &&& meshes[k].uvs.len() == count_in_object(ls, "vt"@, k)
        }
}

/// No line belongs to an object that no `o` line has started yet.
proof fn lemma_no_lines_yet(ls: Seq<Seq<char>>, word: Seq<char>, k: int)
    requires
        count_keyword(ls, "o"@) <= k,
    ensures
        count_in_object(ls, word, k) == 0,
    decreases ls.len(),
{
    if ls.len() > 0 {
        lemma_no_lines_yet(ls.drop_last(), word, k);
    }
}

/// The keywords of the data directives differ from one another.
proof fn lemma_keywords_differ()
    ensures
        "o"@ != "v"@,
        "o"@ != "vn"@,
        "o"@ != "vt"@,
        "v"@ != "vn"@,
        "v"@ != "vt"@,
        "vn"@ != "vt"@,
        "f"@ != "o"@,
        "f"@ != "v"@,
        "f"@ != "vn"@,
        "f"@ != "vt"@,
        obj_directive("o"@) == ObjDirective::Object,
        obj_directive("v"@) == ObjDirective::Position,
        obj_directive("vn"@) == ObjDirective::Normal,
        obj_directive("vt"@) == ObjDirective::TexCoord,
{
    reveal_strlit("mtllib");
    reveal_strlit("usemtl");
    reveal_strlit("o");
    reveal_strlit("v");
    reveal_strlit("vn");
    reveal_strlit("vt");
    reveal_strlit("f");
    assert("mtllib"@.len() == 6 && "usemtl"@.len() == 6);
    assert("o"@.len() == 1 && "v"@.len() == 1 && "f"@.len() == 1);
    assert("vn"@.len() == 2 && "vt"@.len() == 2);
    assert("vn"@[1] != "vt"@[1]);
    assert("o"@[0] != "v"@[0]);
    assert("f"@[0] != "v"@[0]);
    assert("f"@[0] != "o"@[0]);
}

/// One line that raises no error and uses no materials keeps the meshes in
/// step with the lines.
proof fn lemma_step_keeps_match(
    ls: Seq<Seq<char>>,
    n: int,
    meshes: Seq<MeshView>,
    library: Seq<crate::mtl_material::MaterialView>,
)
    requires
        0 <= n < ls.len(),
        meshes_match(ls.take(n), meshes),
        !uses_materials(ls[n]),
        obj_apply(meshes, library, ls[n]) is Continue,
    ensures
        meshes_match(ls.take(n + 1), obj_apply(meshes, library, ls[n])->Continue_0),
{
    lemma_keywords_differ();
    let before = ls.take(n);
    let upto = ls.take(n + 1);
    let line = ls[n];
    let next = obj_apply(meshes, library, line)->Continue_0;
    assert(upto.drop_last() =~= before);
    assert(upto.last() == line);
    let d = obj_directive(keyword(line));
    if d == ObjDirective::Object {
        lemma_no_lines_yet(before, "v"@, meshes.len() as int);
        lemma_no_lines_yet(before, "vn"@, meshes.len() as int);
        lemma_no_lines_yet(before, "vt"@, meshes.len() as int);
        assert forall|k: int| 0 <= k < next.len() implies {
            &&& (#[trigger] next[k]).positions.len() == count_in_object(upto, "v"@, k)
            &&& next[k].normals.len() == count_in_object(upto, "vn"@, k)
            &&& next[k].uvs.len() == count_in_object(upto, "vt"@, k)
        } by {
            if k < meshes.len() {
                assert(next[k] == meshes[k]);
            }
        }
    } else {
        assert forall|k: int| 0 <= k < next.len() implies {
            &&& (#[trigger] next[k]).positions.len() == count_in_object(upto, "v"@, k)
            &&& next[k].normals.len() == count_in_object(upto, "vn"@, k)
            &&& next[k].uvs.len() == count_in_object(upto, "vt"@, k)
        } by {
            if d != ObjDirective::Nothing && k < meshes.len() - 1 {
                assert(next[k] == meshes[k]);
            }
            if d == ObjDirective::Nothing {
                assert(next[k] == meshes[k]);
            }
        }
    }
}

/// A run that ends with a scene, over lines that use no materials, keeps
/// the meshes in step with the lines.
proof fn lemma_run_keeps_match(ls: Seq<Seq<char>>, n: int, p: ParserView)
    requires
        0 <= n <= ls.len(),
        p.rest == ls.skip(n),
        meshes_match(ls.take(n), p.meshes),
        forall|i: int| 0 <= i < ls.len() ==> !uses_materials(#[trigger] ls[i]),
        p.run() is Finished,
    ensures
        meshes_match(ls, p.run()->Finished_0),
    decreases ls.len() - n,
{
    if n == ls.len() {
        assert(ls.take(n) =~= ls);
    } else {
        assert(p.rest[0] == ls[n]);
        match obj_apply(p.meshes, p.library, p.rest[0]) {
            LineEffect::Continue(meshes) => {
                lemma_step_keeps_match(ls, n, p.meshes, p.library);
                let q = ParserView { meshes, rest: p.rest.skip(1), ..p };
                assert(q.rest =~= ls.skip(n + 1));
                lemma_run_keeps_match(ls, n + 1, q);
            },
            LineEffect::Load(file) => {
                lemma_keywords_differ();
            },
            LineEffect::Fail(e) => {},
        }
    }
}

/// Of a mesh file that uses no materials and is read without error: the
/// scene has one mesh for each `o` line, in order, and the position, normal
/// and texture coordinate buffers of a mesh hold one item for each `v`, `vn`
/// and `vt` line between its `o` line and the next.
pub proof fn lemma_buffers_match_lines(path: Seq<char>, text: Seq<char>)
    requires
        forall|i: int| 0 <= i < lines(text).len() ==> !uses_materials(#[trigger] lines(text)[i]),
        ParserView::start(path, text).run() is Finished,
    ensures
        meshes_match(lines(text), ParserView::start(path, text).run()->Finished_0),
{
    let ls = lines(text);
    assert(ls.skip(0) =~= ls);
    assert(ls.take(0) =~= Seq::<Seq<char>>::empty());
    lemma_run_keeps_match(ls, 0, ParserView::start(path, text));
}

} // verus!
