use suoi_simp::locate_library;
use suoi_simp::ImportError;
use suoi_simp::Mtl;
use suoi_simp::Obj;
use suoi_simp::ObjDirective;
use suoi_simp::ObjMesh;
use suoi_simp::ObjStep;
use suoi_simp::Vector3;

fn floats(v: &Vector3) -> (f32, f32, f32) {
    (
        v.x.as_str().parse::<f32>().unwrap(),
        v.y.as_str().parse::<f32>().unwrap(),
        v.z.as_str().parse::<f32>().unwrap(),
    )
}

fn finished(step: ObjStep) -> Obj {
    match step {
        ObjStep::Finished(obj) => obj,
        other => panic!("not finished: {:?}", other),
    }
}

fn failed(step: ObjStep) -> ImportError {
    match step {
        ObjStep::Failed(e) => e,
        other => panic!("not failed: {:?}", other),
    }
}

/// Runs an import with the libraries given by path and text.
fn import(path: &str, text: &str, libraries: &[(&str, &str)]) -> Result<Obj, ImportError> {
    let mut step = Obj::parse(path, text);
    loop {
        match step {
            ObjStep::Finished(obj) => return Ok(obj),
            ObjStep::Failed(e) => return Err(e),
            ObjStep::NeedLibrary(library_path, pending) => {
                let found = libraries.iter().find(|(p, _)| *p == library_path);
                let library = match found {
                    Some((_, library_text)) => Mtl::parse(library_text)?,
                    None => return Err(ImportError::InvalidPath(library_path)),
                };
                step = pending.resume(library);
            },
        }
    }
}

const CUBE: &str = "# two objects\no First\nv 0 0 0\nv 1 0 0\nv 1 1 0\nvn 0 0 1\nvt 0 0\nvt 1 0\n\
                    s off\nf 1/1/1 2/2/1 3//1\no Second\nv 0.5 0.5 0.5\nvn 0 1 0\nvn 1 0 0\n";

#[test]
fn meshes_and_buffers_match_the_lines() {
    let obj = finished(Obj::parse("cube.obj", CUBE));
    let meshes = obj.meshes();
    assert_eq!(meshes.len(), 2);
    assert_eq!(meshes[0].name(), "First");
    assert_eq!(meshes[0].positions().len(), 3);
    assert_eq!(meshes[0].normals().len(), 1);
    assert_eq!(meshes[0].uvs().len(), 2);
    assert_eq!(meshes[0].faces().len(), 1);
    assert_eq!(meshes[1].name(), "Second");
    assert_eq!(meshes[1].positions().len(), 1);
    assert_eq!(meshes[1].normals().len(), 2);
    assert_eq!(meshes[1].uvs().len(), 0);
    assert_eq!(meshes[1].faces().len(), 0);
}

#[test]
fn buffers_hold_the_numbers_of_the_lines() {
    let obj = finished(Obj::parse("cube.obj", CUBE));
    let first = &obj.meshes()[0];
    assert_eq!(floats(&first.positions()[1]), (1.0, 0.0, 0.0));
    assert_eq!(floats(&first.normals()[0]), (0.0, 0.0, 1.0));
    assert_eq!(first.uvs()[1].x.as_str().parse::<f32>().unwrap(), 1.0);
    assert_eq!(first.uvs()[1].y.as_str().parse::<f32>().unwrap(), 0.0);
    let corners = first.faces()[0].elements();
    assert_eq!(corners.len(), 3);
    assert_eq!((corners[0].position_index(), corners[0].uv_index(), corners[0].normal_index()), (1, 1, 1));
    assert_eq!((corners[2].position_index(), corners[2].uv_index(), corners[2].normal_index()), (3, 0, 1));
    assert_eq!(floats(&obj.meshes()[1].positions()[0]), (0.5, 0.5, 0.5));
}

#[test]
fn all_positions_come_mesh_after_mesh() {
    let obj = finished(Obj::parse("cube.obj", CUBE));
    let all: Vec<(f32, f32, f32)> = obj.all_pos_data().iter().map(floats).collect();
    assert_eq!(all, vec![(0.0, 0.0, 0.0), (1.0, 0.0, 0.0), (1.0, 1.0, 0.0), (0.5, 0.5, 0.5)]);
    assert_eq!(Obj::empty().all_pos_data().len(), 0);
}

#[test]
fn empty_text_is_an_empty_scene() {
    assert_eq!(finished(Obj::parse("a.obj", "")).meshes().len(), 0);
    assert_eq!(finished(Obj::parse("a.obj", "# nothing\n\n   \ns 1\n")).meshes().len(), 0);
}

#[test]
fn object_name_is_the_rest_of_the_line() {
    let obj = finished(Obj::parse("a.obj", "o My Mesh.001\no \n"));
    assert_eq!(obj.meshes()[0].name(), "My Mesh.001");
    assert_eq!(obj.meshes()[1].name(), "");
    assert_eq!(failed(Obj::parse("a.obj", "o")), ImportError::InvalidData);
}

#[test]
fn data_before_any_object_is_invalid_data() {
    for line in ["v 1 2 3", "vn 1 2 3", "vt 1 2", "f 1 2 3", "usemtl m"] {
        assert_eq!(failed(Obj::parse("a.obj", line)), ImportError::InvalidData, "{}", line);
    }
}

#[test]
fn mesh_file_malformed_or_missing_number_is_invalid_data() {
    for line in ["v 1 2", "v 1 2 z", "v", "vn 1 2", "vn a b c", "vt 1", "vt 1 one"] {
        let text = format!("o m\n{}\n", line);
        assert_eq!(failed(Obj::parse("a.obj", &text)), ImportError::InvalidData, "{}", line);
    }
}

#[test]
fn mesh_file_unknown_keyword_fails_with_the_keyword() {
    assert_eq!(
        failed(Obj::parse("a.obj", "zz 1 2 3")),
        ImportError::UnrecognisedToken("zz".to_string())
    );
    assert_eq!(
        failed(Obj::parse("a.obj", "o m\nv 1 2 3\nzz 1 2 3\nv 4 5 6\n")),
        ImportError::UnrecognisedToken("zz".to_string())
    );
    assert_eq!(
        failed(Obj::parse("a.obj", "o m\ng group\n")),
        ImportError::UnrecognisedToken("g".to_string())
    );
}

#[test]
fn unknown_keyword_in_a_library_fails_the_import() {
    let r = import("a.obj", "mtllib a.mtl\no m\n", &[("a.mtl", "newmtl m\nzz 1 2 3\n")]);
    assert_eq!(r.err(), Some(ImportError::UnrecognisedToken("zz".to_string())));
}

#[test]
fn comments_say_nothing() {
    let obj = finished(Obj::parse("a.obj", "#comment\n# comment\n  #\no m\n"));
    assert_eq!(obj.meshes().len(), 1);
}

#[test]
fn library_is_asked_for_beside_the_mesh_file() {
    match Obj::parse("models/cube.obj", "mtllib sub/lib.mtl\no m\n") {
        ObjStep::NeedLibrary(path, _) => assert_eq!(path, "models/sub/lib.mtl"),
        other => panic!("no library asked for: {:?}", other),
    }
}

#[test]
fn library_location_is_relative_to_the_mesh_file() {
    assert_eq!(locate_library("models/cube.obj", "sub/lib.mtl"), Ok("models/sub/lib.mtl".to_string()));
    assert_eq!(locate_library("cube.obj", "lib.mtl"), Ok("lib.mtl".to_string()));
    assert_eq!(locate_library("/a/b/cube.obj", "lib.mtl"), Ok("/a/b/lib.mtl".to_string()));
    assert_eq!(locate_library("a/cube.obj", "/abs/lib.mtl"), Ok("/abs/lib.mtl".to_string()));
    assert_eq!(locate_library("a/cube.obj", "my lib.mtl"), Ok("a/my lib.mtl".to_string()));
}

#[test]
fn mesh_path_without_a_directory_part_is_an_invalid_path() {
    assert_eq!(locate_library("", "lib.mtl"), Err(ImportError::InvalidPath(String::new())));
    assert_eq!(locate_library("/", "lib.mtl"), Err(ImportError::InvalidPath("/".to_string())));
    assert_eq!(
        failed(Obj::parse("", "mtllib lib.mtl\n")),
        ImportError::InvalidPath(String::new())
    );
}

#[test]
fn library_without_a_file_name_is_invalid_data() {
    assert_eq!(failed(Obj::parse("a.obj", "mtllib")), ImportError::InvalidData);
}

#[test]
fn material_is_bound_to_the_current_mesh() {
    let text = "mtllib lib.mtl\no a\nusemtl red\no b\nv 1 2 3\n";
    let lib = "newmtl red\nKd 1 0 0\nnewmtl blue\nKd 0 0 1\n";
    let obj = import("dir/a.obj", text, &[("dir/lib.mtl", lib)]).unwrap();
    let a = &obj.meshes()[0];
    assert_eq!(a.get_material().get_name(), "red");
    assert_eq!(floats(a.get_material().diffuse_color()), (1.0, 0.0, 0.0));
    let b = &obj.meshes()[1];
    assert_eq!(b.get_material().get_name(), "");
    assert_eq!(floats(b.get_material().diffuse_color()), (0.0, 0.0, 0.0));
    assert_eq!(b.get_material().opacity().as_str().parse::<f32>().unwrap(), 1.0);
}

#[test]
fn unknown_material_is_invalid_data() {
    let lib = "newmtl red\n";
    let r = import("a.obj", "mtllib lib.mtl\no a\nusemtl green\n", &[("lib.mtl", lib)]);
    assert_eq!(r.err(), Some(ImportError::InvalidData));
    assert_eq!(failed(Obj::parse("a.obj", "o a\nusemtl red\n")), ImportError::InvalidData);
    assert_eq!(failed(Obj::parse("a.obj", "o a\nusemtl")), ImportError::InvalidData);
}

#[test]
fn second_library_replaces_the_first() {
    let text = "o a\nmtllib one.mtl\nusemtl m\nmtllib two.mtl\no b\nusemtl m\n";
    let libraries = [("one.mtl", "newmtl m\nillum 1\n"), ("two.mtl", "newmtl m\nillum 2\n")];
    let obj = import("a.obj", text, &libraries).unwrap();
    assert_eq!(obj.meshes()[0].get_material().illum(), 1);
    assert_eq!(obj.meshes()[1].get_material().illum(), 2);
    let text = "o a\nmtllib one.mtl\nmtllib two.mtl\nusemtl only_in_one\n";
    let libraries = [("one.mtl", "newmtl only_in_one\n"), ("two.mtl", "newmtl other\n")];
    assert_eq!(import("a.obj", text, &libraries).err(), Some(ImportError::InvalidData));
}

#[test]
fn missing_library_fails_before_later_lines_are_read() {
    let r = import("a.obj", "mtllib gone.mtl\nzz\n", &[]);
    assert_eq!(r.err(), Some(ImportError::InvalidPath("gone.mtl".to_string())));
    let r = import("a.obj", "zz\nmtllib gone.mtl\n", &[]);
    assert_eq!(r.err(), Some(ImportError::UnrecognisedToken("zz".to_string())));
}

#[test]
fn bound_material_is_a_copy() {
    let mut mesh = ObjMesh::empty();
    let mtl = Mtl::parse("newmtl m\nillum 5\n").unwrap();
    mesh.set_material(mtl.get_material("m").unwrap().clone());
    drop(mtl);
    assert_eq!(mesh.get_material().illum(), 5);
    mesh.set_name("renamed");
    assert_eq!(mesh.name(), "renamed");
}

#[test]
fn failed_line_leaves_the_scene_as_it_was() {
    let mut obj = finished(Obj::parse("a.obj", "o m\nv 1 2 3\n"));
    let library = Mtl::empty();
    let line: Vec<char> = "v 1 2".chars().collect();
    assert_eq!(obj.apply(&library, &line), Err(ImportError::InvalidData));
    assert_eq!(obj.meshes()[0].positions().len(), 1);
    let line: Vec<char> = "mtllib x.mtl".chars().collect();
    assert_eq!(obj.apply(&library, &line), Ok(Some("x.mtl".to_string())));
    let line: Vec<char> = "v 4 5 6".chars().collect();
    assert_eq!(obj.apply(&library, &line), Ok(None));
    assert_eq!(obj.meshes()[0].positions().len(), 2);
}

#[test]
fn mesh_file_directive_of_each_keyword() {
    let cases = [
        ("mtllib", ObjDirective::MaterialLibrary),
        ("usemtl", ObjDirective::UseMaterial),
        ("o", ObjDirective::Object),
        ("v", ObjDirective::Position),
        ("vn", ObjDirective::Normal),
        ("vt", ObjDirective::TexCoord),
        ("f", ObjDirective::Polygon),
        ("s", ObjDirective::Nothing),
        ("#", ObjDirective::Nothing),
        ("#x", ObjDirective::Nothing),
        ("", ObjDirective::Nothing),
        ("zz", ObjDirective::Unrecognised),
        ("V", ObjDirective::Unrecognised),
        ("vp", ObjDirective::Unrecognised),
    ];
    for (word, expected) in cases {
        let chars: Vec<char> = word.chars().collect();
        assert_eq!(ObjDirective::of(&chars), expected, "{}", word);
    }
}

#[test]
fn reading_twice_gives_the_same_scene() {
    let first = finished(Obj::parse("cube.obj", CUBE));
    let second = finished(Obj::parse("cube.obj", CUBE));
    assert_eq!(first.meshes().len(), 2);
    assert_eq!(first, second);
}
