use crate::error::ImportError;
use crate::error::ImportErrorView;
use crate::fs::float_field;
use crate::fs::uint_field;
use crate::fs::vector3_field;
use crate::fs::Fs;
use crate::mtl_material::MaterialView;
use crate::mtl_material::MtlMaterial;
use crate::text::chars_of;
use crate::text::is_word;
use crate::model::views;
use crate::text::lines;
use crate::text::string_of;
use crate::tokens::arguments;
use crate::tokens::keyword;
use crate::tokens::Tokens;
use crate::tokens::TokensView;
use vstd::prelude::*;

verus! {

/// What a line of a material library asks for.
#[derive(Debug, Clone, Copy, PartialEq, Eq, Structural)]
pub enum MtlDirective {
    /// `newmtl`: a new material starts.
    NewMaterial,
    /// `map_Kd`: the diffuse texture of the current material.
    DiffuseMap,
    /// `illum`: its illumination model.
    Illumination,
    /// `Ka`: its ambient colour.
    Ambient,
    /// `Kd`: its diffuse colour.
    Diffuse,
    /// `Ks`: its specular colour.
    Specular,
    /// `Ns`: its specular exponent.
    SpecularExponent,
    /// `Ke`: its emissive colour.
    Emissive,
    /// `Ni`: its optical density.
    OpticalDensity,
    /// `d`: its opacity.
    Opacity,
    /// A blank line or a comment.
    Nothing,
    /// Any other keyword.
    Unrecognised,
}

/// Whether a line with this keyword says nothing: it is blank, or a comment,
/// which starts with `#`.
pub open spec fn is_silent(cmd: Seq<char>) -> bool {
    cmd.len() == 0 || cmd[0] == '#'
}

/// The directive that a keyword selects in a material library.
pub open spec fn mtl_directive(cmd: Seq<char>) -> MtlDirective {
    if cmd == "newmtl"@ {
        MtlDirective::NewMaterial
    } else if cmd == "map_Kd"@ {
        MtlDirective::DiffuseMap
    } else if cmd == "illum"@ {
        MtlDirective::Illumination
    } else if cmd == "Ka"@ {
        MtlDirective::Ambient
    } else if cmd == "Kd"@ {
        MtlDirective::Diffuse
    } else if cmd == "Ks"@ {
        MtlDirective::Specular
    } else if cmd == "Ns"@ {
        MtlDirective::SpecularExponent
    } else if cmd == "Ke"@ {
        MtlDirective::Emissive
    } else if cmd == "Ni"@ {
        MtlDirective::OpticalDensity
    } else if cmd == "d"@ {
        MtlDirective::Opacity
    } else if is_silent(cmd) {
        MtlDirective::Nothing
    } else {
        MtlDirective::Unrecognised
    }
}

/// The material that a property directive makes of `m`, given the cursor
/// behind the keyword; nothing where a field is missing or malformed, or
/// where the directive sets no property.
pub open spec fn mtl_edit(d: MtlDirective, m: MaterialView, args: TokensView) -> Option<
    MaterialView,
> {
    match d {
        MtlDirective::DiffuseMap => match args.remainder() {
            Some(p) => Some(MaterialView { diffuse_texmap: Some(p), ..m }),
            None => None,
        },
        MtlDirective::Illumination => match uint_field(args) {
            Some(n) => Some(MaterialView { illumination_model: n, ..m }),
            None => None,
        },
        MtlDirective::Ambient => match vector3_field(args) {
            Some(c) => Some(MaterialView { ambient_color: c, ..m }),
            None => None,
        },
        MtlDirective::Diffuse => match vector3_field(args) {
            Some(c) => Some(MaterialView { diffuse_color: c, ..m }),
            None => None,
        },
        MtlDirective::Specular => match vector3_field(args) {
            Some(c) => Some(MaterialView { specular_color: c, ..m }),
            None => None,
        },
        MtlDirective::SpecularExponent => match float_field(args) {
            Some(x) => Some(MaterialView { specular_exponent: x, ..m }),
            None => None,
        },
        MtlDirective::Emissive => match vector3_field(args) {
            Some(c) => Some(MaterialView { emissive: c, ..m }),
            None => None,
        },
        MtlDirective::OpticalDensity => match float_field(args) {
            Some(x) => Some(MaterialView { optical_density: x, ..m }),
            None => None,
        },
        MtlDirective::Opacity => match float_field(args) {
            Some(x) => Some(MaterialView { opacity: x, ..m }),
            None => None,
        },
        _ => None,
    }
}

/// The materials after one line of a library, or the error that the line
/// raises. `newmtl` appends a neutral material under the name that the rest
/// of the line gives. A property directive changes the last material, and is
/// invalid data where there is none yet.
pub open spec fn mtl_apply(mats: Seq<MaterialView>, line: Seq<char>) -> Result<
    Seq<MaterialView>,
    ImportErrorView,
> {
    let args = arguments(line);
    match mtl_directive(keyword(line)) {
        MtlDirective::NewMaterial => match args.remainder() {
            Some(name) => Ok(mats.push(MaterialView::named(name))),
            None => Err(ImportErrorView::InvalidData),
        },
        MtlDirective::Nothing => Ok(mats),
        MtlDirective::Unrecognised => Err(ImportErrorView::UnrecognisedToken(keyword(line))),
        property => if mats.len() == 0 {
            Err(ImportErrorView::InvalidData)
        } else {
            match mtl_edit(property, mats.last(), args) {
                Some(m) => Ok(mats.update(mats.len() - 1, m)),
                None => Err(ImportErrorView::InvalidData),
            }
        },
    }
}

/// The materials after all of `lines`, starting from `mats`, or the error of
/// the first line that raises one.
pub open spec fn mtl_run(lines: Seq<Seq<char>>, mats: Seq<MaterialView>) -> Result<
    Seq<MaterialView>,
    ImportErrorView,
>
    decreases lines.len(),
{
    if lines.len() == 0 {
        Ok(mats)
    } else {
        match mtl_apply(mats, lines[0]) {
            Ok(next) => mtl_run(lines.skip(1), next),
            Err(e) => Err(e),
        }
    }
}

/// The materials that the text of a library defines, or the error of the
/// first line that raises one.
pub open spec fn mtl_parse(text: Seq<char>) -> Result<Seq<MaterialView>, ImportErrorView> {
    mtl_run(lines(text), Seq::empty())
}

/// The first material of `mats` with this name.
pub open spec fn find_material(mats: Seq<MaterialView>, name: Seq<char>) -> Option<MaterialView>
    decreases mats.len(),
{
    if mats.len() == 0 {
        None
    } else if mats[0].name == name {
        Some(mats[0])
    } else {
        find_material(mats.skip(1), name)
    }
}

/// The view of an optional material.
pub open spec fn opt_material_view(m: Option<&MtlMaterial>) -> Option<MaterialView> {
    match m {
        Some(x) => Some(x@),
        None => None,
    }
}

/// Whether an outcome in code is the outcome that the model gives.
pub open spec fn mtl_outcome_is(
    r: Result<Mtl, ImportError>,
    model: Result<Seq<MaterialView>, ImportErrorView>,
) -> bool {
    match model {
        Ok(mats) => r is Ok && r->Ok_0@ == mats,
        Err(e) => r is Err && r->Err_0@ == e,
    }
}

/// A material library: materials in the order of their definition.
#[derive(Debug, PartialEq, Eq)]
pub struct Mtl {
    materials: Vec<MtlMaterial>,
}

impl View for Mtl {
    type V = Seq<MaterialView>;

    closed spec fn view(&self) -> Seq<MaterialView> {
        views(self.materials@)
    }
}

impl MtlDirective {
    /// The directive that a keyword selects in a material library.
    pub fn of(cmd: &[char]) -> (r: MtlDirective)
        ensures
            r == mtl_directive(cmd@),
    {
        if is_word(cmd, "newmtl") {
            MtlDirective::NewMaterial
        } else if is_word(cmd, "map_Kd") {
            MtlDirective::DiffuseMap
        } else if is_word(cmd, "illum") {
            MtlDirective::Illumination
        } else if is_word(cmd, "Ka") {
            MtlDirective::Ambient
        } else if is_word(cmd, "Kd") {
            MtlDirective::Diffuse
        } else if is_word(cmd, "Ks") {
            MtlDirective::Specular
        } else if is_word(cmd, "Ns") {
            MtlDirective::SpecularExponent
        } else if is_word(cmd, "Ke") {
            MtlDirective::Emissive
        } else if is_word(cmd, "Ni") {
            MtlDirective::OpticalDensity
        } else if is_word(cmd, "d") {
            MtlDirective::Opacity
        } else if cmd.len() == 0 || cmd[0] == '#' {
            MtlDirective::Nothing
        } else {
            MtlDirective::Unrecognised
        }
    }
}

impl MtlMaterial {
    /// Applies a property directive to the material. A field that is missing
    /// or malformed is invalid data, and then the material stays as it was.
    pub fn edit(&mut self, d: MtlDirective, tokens: &mut Tokens) -> (r: Result<(), ImportError>)
        ensures
            match mtl_edit(d, old(self)@, old(tokens)@) {
                Some(m) => r is Ok && final(self)@ == m,
                None => r == Err::<(), ImportError>(ImportError::InvalidData) && final(self)@
                    == old(self)@,
            },
    {
        match d {
            MtlDirective::DiffuseMap => match tokens.remainder() {
                Some(p) => {
                    self.set_diffuse_path(string_of(p));
                    Ok(())
                },
                None => Err(ImportError::InvalidData),
            },
            MtlDirective::Illumination => match Fs::parse_uint(tokens) {
                Ok(n) => {
                    self.set_illum(n);
                    Ok(())
                },
                Err(e) => Err(e),
            },
            MtlDirective::Ambient => match Fs::parse_vector3(tokens) {
                Ok(c) => {
                    self.set_ambient_color(c);
                    Ok(())
                },
                Err(e) => Err(e),
            },
            MtlDirective::Diffuse => match Fs::parse_vector3(tokens) {
                Ok(c) => {
                    self.set_diffuse_color(c);
                    Ok(())
                },
                Err(e) => Err(e),
            },
            MtlDirective::Specular => match Fs::parse_vector3(tokens) {
                Ok(c) => {
                    self.set_specular_color(c);
                    Ok(())
                },
                Err(e) => Err(e),
            },
            MtlDirective::SpecularExponent => match Fs::parse_float(tokens) {
                Ok(x) => {
                    self.set_specular_exponent(x);
                    Ok(())
                },
                Err(e) => Err(e),
            },
            MtlDirective::Emissive => match Fs::parse_vector3(tokens) {
                Ok(c) => {
                    self.set_emissive(c);
                    Ok(())
                },
                Err(e) => Err(e),
            },
            MtlDirective::OpticalDensity => match Fs::parse_float(tokens) {
                Ok(x) => {
                    self.set_optical_density(x);
                    Ok(())
                },
                Err(e) => Err(e),
            },
            MtlDirective::Opacity => match Fs::parse_float(tokens) {
                Ok(x) => {
                    self.set_opacity(x);
                    Ok(())
                },
                Err(e) => Err(e),
            },
            _ => Err(ImportError::InvalidData),
        }
    }
}

impl Mtl {
    /// The library without materials.
    pub fn empty() -> (r: Mtl)
        ensures
            r@ == Seq::<MaterialView>::empty(),
    {
        let r = Mtl { materials: Vec::new() };
        assert(r@ =~= Seq::<MaterialView>::empty());
        r
    }

    /// The materials of the library, in the order of their definition.
    pub fn materials(&self) -> (r: &Vec<MtlMaterial>)
        ensures
            views(r@) == self@,
    {
        &self.materials
    }

    /// The first material with this name.
    pub fn get_material(&self, material_name: &str) -> (r: Option<&MtlMaterial>)
        ensures
            opt_material_view(r) == find_material(self@, material_name@),
    {
        let key = chars_of(material_name);
        let mut i: usize = 0;
        assert(self@.skip(0) =~= self@);
        while i < self.materials.len()
            invariant
                i <= self.materials@.len(),
                key@ == material_name@,
                find_material(self@, material_name@) == find_material(
                    self@.skip(i as int),
                    material_name@,
                ),
            decreases self.materials@.len() - i,
        {
            let mat = &self.materials[i];
            let ghost tail = self@.skip(i as int);
            assert(tail[0] == mat@);
            assert(tail.skip(1) =~= self@.skip(i + 1));
            if is_word(key.as_slice(), mat.get_name()) {
                return Some(mat);
            }
            i = i + 1;
        }
        None
    }

    /// Applies one line of a library. Where the line raises an error, the
    /// library stays as it was.
    pub fn apply(&mut self, line: &[char]) -> (r: Result<(), ImportError>)
        ensures
            match mtl_apply(old(self)@, line@) {
                Ok(mats) => r is Ok && final(self)@ == mats,
                Err(e) => r is Err && r->Err_0@ == e && final(self)@ == old(self)@,
            },
    {
        let (cmd, mut tokens) = Tokens::directive(line);
        let d = MtlDirective::of(cmd);
        match d {
            MtlDirective::NewMaterial => match tokens.remainder() {
                Some(name) => {
                    let mut material = MtlMaterial::empty();
                    let name_string = string_of(name);
                    material.set_name(name_string.as_str());
                    self.materials.push(material);
                    assert(self@ =~= old(self)@.push(MaterialView::named(name@)));
                    Ok(())
                },
                None => Err(ImportError::InvalidData),
            },
            MtlDirective::Nothing => Ok(()),
            MtlDirective::Unrecognised => Err(ImportError::UnrecognisedToken(string_of(cmd))),
            _ => match self.materials.pop() {
                Some(mut material) => {
                    let ghost before = material@;
                    assert(before == old(self)@.last());
                    let r = material.edit(d, &mut tokens);
                    self.materials.push(material);
                    assert(self@ =~= old(self)@.update(old(self)@.len() - 1, material@));
                    assert(old(self)@.update(old(self)@.len() - 1, before) =~= old(self)@);
                    r
                },
                None => Err(ImportError::InvalidData),
            },
        }
    }

    /// Reads the text of a material library.
    pub fn parse(text: &str) -> (r: Result<Mtl, ImportError>)
        ensures
            mtl_outcome_is(r, mtl_parse(text@)),
    {
        let rows = Fs::parse_lines(text);
        let mut mtl = Mtl::empty();
        let mut i: usize = 0;
        assert(views(rows@).skip(0) =~= views(rows@));
        while i < rows.len()
            invariant
                i <= rows@.len(),
                views(rows@) == lines(text@),
                mtl_run(views(rows@).skip(i as int), mtl@) == mtl_parse(text@),
            decreases rows@.len() - i,
        {
            let ghost rest = views(rows@).skip(i as int);
            assert(rest[0] == rows@[i as int]@);
            assert(rest.skip(1) =~= views(rows@).skip(i + 1));
            match mtl.apply(rows[i].as_slice()) {
                Ok(()) => {},
                Err(e) => {
                    return Err(e);
                },
            }
            i = i + 1;
        }
        Ok(mtl)
    }
}

/// Whether a directive sets a property of the current material.
pub open spec fn sets_property(d: MtlDirective) -> bool {
    d != MtlDirective::NewMaterial && d != MtlDirective::Nothing && d
        != MtlDirective::Unrecognised
}

/// A property directive that comes before any `newmtl` is invalid data,
/// whatever its fields are.
pub proof fn lemma_property_needs_material(line: Seq<char>)
    requires
        sets_property(mtl_directive(keyword(line))),
    ensures
        mtl_apply(Seq::empty(), line) == Err::<Seq<MaterialView>, ImportErrorView>(
            ImportErrorView::InvalidData,
        ),
{
}

/// A library in which a property directive is the first line that says
/// anything is invalid data as a whole.
pub proof fn lemma_property_first_fails(lines: Seq<Seq<char>>, i: int)
    requires
        0 <= i < lines.len(),
        sets_property(mtl_directive(keyword(lines[i]))),
        forall|j: int| 0 <= j < i ==> mtl_directive(keyword(#[trigger] lines[j])) == MtlDirective::Nothing,
    ensures
        mtl_run(lines, Seq::empty()) == Err::<Seq<MaterialView>, ImportErrorView>(
            ImportErrorView::InvalidData,
        ),
    decreases i,
{
    if i > 0 {
        let rest = lines.skip(1);
        assert(rest[i - 1] == lines[i]);
        assert forall|j: int| 0 <= j < i - 1 implies mtl_directive(keyword(#[trigger] rest[j]))
            == MtlDirective::Nothing by {
            assert(rest[j] == lines[j + 1]);
        }
        lemma_property_first_fails(rest, i - 1);
    }
}

/// A line with a keyword that the format does not know fails with that
/// keyword, whatever the materials so far.
pub proof fn lemma_unknown_keyword(mats: Seq<MaterialView>, line: Seq<char>)
    requires
        mtl_directive(keyword(line)) == MtlDirective::Unrecognised,
    ensures
        mtl_apply(mats, line) == Err::<Seq<MaterialView>, ImportErrorView>(
            ImportErrorView::UnrecognisedToken(keyword(line)),
        ),
{
}

/// A library that holds a line with an unknown keyword yields no materials.
/// Where the lines before it raise no error, the error is that keyword.
pub proof fn lemma_unknown_keyword_fails(lines: Seq<Seq<char>>, mats: Seq<MaterialView>, i: int)
    requires
        0 <= i < lines.len(),
        mtl_directive(keyword(lines[i])) == MtlDirective::Unrecognised,
    ensures
        mtl_run(lines, mats) is Err,
        mtl_run(lines.take(i), mats) is Ok ==> mtl_run(lines, mats) == Err::<
            Seq<MaterialView>,
            ImportErrorView,
        >(ImportErrorView::UnrecognisedToken(keyword(lines[i]))),
    decreases i,
{
    if i > 0 {
        match mtl_apply(mats, lines[0]) {
            Ok(next) => {
                let rest = lines.skip(1);
                assert(rest[i - 1] == lines[i]);
                assert(lines.take(i).skip(1) =~= rest.take(i - 1));
                assert(lines.take(i)[0] == lines[0]);
                lemma_unknown_keyword_fails(rest, next, i - 1);
            },
            Err(e) => {
                assert(lines.take(i)[0] == lines[0]);
            },
        }
    }
}

/// A material that is appended under a name that no other material has is
/// the one that a lookup of the name finds.
pub proof fn lemma_find_appended(mats: Seq<MaterialView>, m: MaterialView)
    requires
        find_material(mats, m.name) is None,
    ensures
        find_material(mats.push(m), m.name) == Some(m),
    decreases mats.len(),
{
    let all = mats.push(m);
    if mats.len() == 0 {
        assert(all[0] == m);
    } else {
        assert(all[0] == mats[0]);
        assert(all.skip(1) =~= mats.skip(1).push(m));
        lemma_find_appended(mats.skip(1), m);
    }
}

/// A `newmtl` line and a property line behind it define a material that is
/// neutral but for its name and that one property, and a lookup of the name
/// finds it, unless an earlier material has the name.
pub proof fn lemma_new_material_is_neutral(
    mats: Seq<MaterialView>,
    first: Seq<char>,
    second: Seq<char>,
)
    requires
        mtl_directive(keyword(first)) == MtlDirective::NewMaterial,
        arguments(first).remainder() is Some,
        sets_property(mtl_directive(keyword(second))),
        mtl_edit(
            mtl_directive(keyword(second)),
            MaterialView::named(arguments(first).remainder()->0),
            arguments(second),
        ) is Some,
        find_material(mats, arguments(first).remainder()->0) is None,
    ensures
        ({
            let name = arguments(first).remainder()->0;
            let m = mtl_edit(
                mtl_directive(keyword(second)),
                MaterialView::named(name),
                arguments(second),
            )->0;
            &&& mtl_run(seq![first, second], mats) == Ok::<Seq<MaterialView>, ImportErrorView>(
                mats.push(m),
            )
            &&& find_material(mats.push(m), name) == Some(m)
        }),
{
    let name = arguments(first).remainder()->0;
    let d = mtl_directive(keyword(second));
    let m = mtl_edit(d, MaterialView::named(name), arguments(second))->0;
    let ls = seq![first, second];
    let after_first = mats.push(MaterialView::named(name));
    assert(mtl_apply(mats, first) == Ok::<Seq<MaterialView>, ImportErrorView>(after_first));
    assert(after_first.update(after_first.len() - 1, m) =~= mats.push(m));
    assert(mtl_apply(after_first, second) == Ok::<Seq<MaterialView>, ImportErrorView>(
        mats.push(m),
    ));
    assert(ls.skip(1)[0] == second);
    assert(ls.skip(1).skip(1).len() == 0);
    reveal_with_fuel(mtl_run, 3);
    assert(m.name == name);
    lemma_find_appended(mats, m);
}

/// Reading a library is a function of its text: two readings of the same
/// text end alike, with the same materials or with the same error.
pub proof fn lemma_parse_is_function(
    text: Seq<char>,
    first: Result<Mtl, ImportError>,
    second: Result<Mtl, ImportError>,
)
    requires
        mtl_outcome_is(first, mtl_parse(text)),
        mtl_outcome_is(second, mtl_parse(text)),
    ensures
        first is Ok <==> second is Ok,
        first is Ok ==> first->Ok_0@ == second->Ok_0@,
        first is Err ==> first->Err_0@ == second->Err_0@,
{
}

} // verus!
