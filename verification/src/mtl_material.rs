use crate::number::Decimal;
use crate::vector::Vector3;
use vstd::prelude::*;

verus! {

/// A named set of shading coefficients.
#[derive(Debug, PartialEq, Eq)]
pub struct MtlMaterial {
    name: String,
    ambient_color: Vector3,
    diffuse_color: Vector3,
    specular_color: Vector3,
    specular_exponent: Decimal,
    emissive: Vector3,
    opacity: Decimal,
    optical_density: Decimal,
    illumination_model: u32,
    diffuse_texmap: Option<String>,
}

/// What a material holds: texts as character sequences, numbers as their
/// numerals.
pub struct MaterialView {
    pub name: Seq<char>,
    pub ambient_color: (Seq<char>, Seq<char>, Seq<char>),
    pub diffuse_color: (Seq<char>, Seq<char>, Seq<char>),
    pub specular_color: (Seq<char>, Seq<char>, Seq<char>),
    pub specular_exponent: Seq<char>,
    pub emissive: (Seq<char>, Seq<char>, Seq<char>),
    pub opacity: Seq<char>,
    pub optical_density: Seq<char>,
    pub illumination_model: u32,
    pub diffuse_texmap: Option<Seq<char>>,
}

impl MaterialView {
    /// The neutral material: no name, black colours, exponent 0, opaque,
    /// optical density 1, illumination model 0 and no texture.
    pub open spec fn empty() -> MaterialView {
        MaterialView {
            name: Seq::empty(),
            ambient_color: Vector3::zero_view(),
            diffuse_color: Vector3::zero_view(),
            specular_color: Vector3::zero_view(),
            specular_exponent: "0.0"@,
            emissive: Vector3::zero_view(),
            opacity: "1.0"@,
            optical_density: "1.0"@,
            illumination_model: 0,
            diffuse_texmap: None,
        }
    }

    /// The neutral material under the given name.
    pub open spec fn named(name: Seq<char>) -> MaterialView {
        MaterialView { name, ..MaterialView::empty() }
    }
}

/// The characters of an optional string.
pub open spec fn opt_string_view(s: Option<String>) -> Option<Seq<char>> {
    match s {
        Some(t) => Some(t@),
        None => None,
    }
}

impl View for MtlMaterial {
    type V = MaterialView;

    closed spec fn view(&self) -> MaterialView {
        MaterialView {
            name: self.name@,
            ambient_color: self.ambient_color@,
            diffuse_color: self.diffuse_color@,
            specular_color: self.specular_color@,
            specular_exponent: self.specular_exponent@,
            emissive: self.emissive@,
            opacity: self.opacity@,
            optical_density: self.optical_density@,
            illumination_model: self.illumination_model,
            diffuse_texmap: opt_string_view(self.diffuse_texmap),
        }
    }
}

impl MtlMaterial {
    /// The neutral material.
    pub fn empty() -> (r: MtlMaterial)
        ensures
            r@ == MaterialView::empty(),
    {
        MtlMaterial {
            name: String::new(),
            ambient_color: Vector3::zero(),
            diffuse_color: Vector3::zero(),
            specular_color: Vector3::zero(),
            specular_exponent: Decimal::zero(),
            emissive: Vector3::zero(),
            opacity: Decimal::one(),
            optical_density: Decimal::one(),
            illumination_model: 0,
            diffuse_texmap: None,
        }
    }

    /// The name of the material.
    pub fn get_name(&self) -> (r: &str)
        ensures
            r@ == self@.name,
    {
        self.name.as_str()
    }

    /// Renames the material.
    pub fn set_name(&mut self, value: &str)
        ensures
            final(self)@ == (MaterialView { name: value@, ..old(self)@ }),
    {
        self.name = value.to_owned();
    }

    /// The path of the diffuse texture, if the material has one.
    pub fn get_diffuse_path(&self) -> (r: &Option<String>)
        ensures
            opt_string_view(*r) == self@.diffuse_texmap,
    {
        &self.diffuse_texmap
    }

    /// Sets the path of the diffuse texture.
    pub fn set_diffuse_path(&mut self, path: String)
        ensures
            final(self)@ == (MaterialView { diffuse_texmap: Some(path@), ..old(self)@ }),
    {
        self.diffuse_texmap = Some(path);
    }

    /// The ambient colour.
    pub fn ambient_color(&self) -> (r: &Vector3)
        ensures
            r@ == self@.ambient_color,
    {
        &self.ambient_color
    }

    /// Sets the ambient colour.
    pub fn set_ambient_color(&mut self, ambient_color: Vector3)
        ensures
            final(self)@ == (MaterialView { ambient_color: ambient_color@, ..old(self)@ }),
    {
        self.ambient_color = ambient_color;
    }

    /// The diffuse colour.
    pub fn diffuse_color(&self) -> (r: &Vector3)
        ensures
            r@ == self@.diffuse_color,
    {
        &self.diffuse_color
    }

    /// Sets the diffuse colour.
    pub fn set_diffuse_color(&mut self, diffuse_color: Vector3)
        ensures
            final(self)@ == (MaterialView { diffuse_color: diffuse_color@, ..old(self)@ }),
    {
        self.diffuse_color = diffuse_color;
    }

    /// The number of the illumination model.
    pub fn illum(&self) -> (r: u32)
        ensures
            r == self@.illumination_model,
    {
        self.illumination_model
    }

    /// Sets the number of the illumination model.
    pub fn set_illum(&mut self, value: u32)
        ensures
            final(self)@ == (MaterialView { illumination_model: value, ..old(self)@ }),
    {
        self.illumination_model = value;
    }

    /// The opacity.
    pub fn opacity(&self) -> (r: &Decimal)
        ensures
            r@ == self@.opacity,
    {
        &self.opacity
    }

    /// Sets the opacity.
    pub fn set_opacity(&mut self, value: Decimal)
        ensures
            final(self)@ == (MaterialView { opacity: value@, ..old(self)@ }),
    {
        self.opacity = value;
    }

    /// The specular colour.
    pub fn specular_color(&self) -> (r: &Vector3)
        ensures
            r@ == self@.specular_color,
    {
        &self.specular_color
    }

    /// Sets the specular colour.
    pub fn set_specular_color(&mut self, value: Vector3)
        ensures
            final(self)@ == (MaterialView { specular_color: value@, ..old(self)@ }),
    {
        self.specular_color = value;
    }

    /// The specular exponent.
    pub fn specular_exponent(&self) -> (r: &Decimal)
        ensures
            r@ == self@.specular_exponent,
    {
        &self.specular_exponent
    }

    /// Sets the specular exponent.
    pub fn set_specular_exponent(&mut self, value: Decimal)
        ensures
            final(self)@ == (MaterialView { specular_exponent: value@, ..old(self)@ }),
    {
        self.specular_exponent = value;
    }

    /// The optical density.
    pub fn optical_density(&self) -> (r: &Decimal)
        ensures
            r@ == self@.optical_density,
    {
        &self.optical_density
    }

    /// Sets the optical density.
    pub fn set_optical_density(&mut self, value: Decimal)
        ensures
            final(self)@ == (MaterialView { optical_density: value@, ..old(self)@ }),
    {
        self.optical_density = value;
    }

    /// The emissive colour.
    pub fn emissive(&self) -> (r: &Vector3)
        ensures
            r@ == self@.emissive,
    {
        &self.emissive
    }

    /// Sets the emissive colour.
    pub fn set_emissive(&mut self, emissive: Vector3)
        ensures
            final(self)@ == (MaterialView { emissive: emissive@, ..old(self)@ }),
    {
        self.emissive = emissive;
    }
}

impl Clone for MtlMaterial {
    fn clone(&self) -> (r: MtlMaterial)
        ensures
            r@ == self@,
    {
        MtlMaterial {
            name: self.name.clone(),
            ambient_color: self.ambient_color.clone(),
            diffuse_color: self.diffuse_color.clone(),
            specular_color: self.specular_color.clone(),
            specular_exponent: self.specular_exponent.clone(),
            emissive: self.emissive.clone(),
            opacity: self.opacity.clone(),
            optical_density: self.optical_density.clone(),
            illumination_model: self.illumination_model,
            diffuse_texmap: match &self.diffuse_texmap {
                Some(p) => Some(p.clone()),
                None => None,
            },
        }
    }
}

} // verus!
