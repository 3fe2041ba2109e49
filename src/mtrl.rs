//! Materials: the shader package a material uses, its texture paths, its
//! shader keys, its samplers' texture usages and its color table, as counted
//! arrays and a tagged variant.

use vstd::prelude::*;
use crate::buffer::{c_string_of, c_strings_match, copy_vec, ffi_free_string, ffi_to_c_string, no_nul, texts_convert, texts_view, to_c_strings};

verus! {

/// A shader key a material sets: its category and its value.
#[derive(Clone, Copy, PartialEq, Eq, Structural, Debug)]
pub struct ShaderKey {
    pub category: u32,
    pub value: u32,
}

/// A row of a color table in the older layout; each float is held as its
/// bit pattern.
#[derive(Clone, Copy, PartialEq, Eq, Debug)]
pub struct LegacyColorTableRow {
    pub diffuse_color: [u32; 3],
    pub specular_strength: u32,
    pub specular_color: [u32; 3],
    pub gloss_strength: u32,
    pub emissive_color: [u32; 3],
    pub tile_set: u16,
    pub material_repeat_x: u32,
    pub material_skew: [u32; 2],
    pub material_repeat_y: u32,
}

/// A row of a color table in the newer layout; each float is held as its
/// bit pattern.
#[derive(Clone, Copy, PartialEq, Eq, Debug)]
pub struct DawntrailColorTableRow {
    pub diffuse_color: [u32; 3],
    pub unknown1: u32,
    pub specular_color: [u32; 3],
    pub unknown2: u32,
    pub emissive_color: [u32; 3],
    pub unknown3: u32,
    pub sheen_rate: u32,
    pub sheen_tint: u32,
    pub sheen_aperture: u32,
    pub unknown4: u32,
    pub roughness: u32,
    pub unknown5: u32,
    pub metalness: u32,
    pub anisotropy: u32,
    pub unknown6: u32,
    pub sphere_mask: u32,
    pub unknown7: u32,
    pub unknown8: u32,
    pub shader_index: u16,
    pub tile_set: u16,
    pub tile_alpha: u32,
    pub sphere_index: u16,
    pub material_repeat: [u32; 2],
    pub material_skew: [u32; 2],
}

/// A decoded color table: rows in one of two layouts, or a table whose
/// rows the decoder does not read.
pub enum ColorTable {
    LegacyColorTable(Vec<LegacyColorTableRow>),
    DawntrailColorTable(Vec<DawntrailColorTableRow>),
    OpaqueColorTable,
}

/// A decoded material.
pub struct Material {
    pub shader_package_name: Vec<u8>,
    pub texture_paths: Vec<Vec<u8>>,
    pub shader_keys: Vec<ShaderKey>,
    pub sampler_texture_usages: Vec<u32>,
    pub color_table: Option<ColorTable>,
}

/// Exported rows in the older layout, counted.
pub struct physis_LegacyColorTable {
    pub num_rows: u32,
    pub rows: Vec<LegacyColorTableRow>,
}

/// Exported rows in the newer layout, counted.
pub struct physis_DawntrailColorTable {
    pub num_rows: u32,
    pub rows: Vec<DawntrailColorTableRow>,
}

/// The exported color table: an arm per decoded kind, and `Absent` for a
/// material without one.
pub enum physis_ColorTable {
    Absent,
    LegacyColorTable(physis_LegacyColorTable),
    DawntrailColorTable(physis_DawntrailColorTable),
    OpaqueColorTable,
}

/// An exported material.
pub struct physis_Material {
    pub shpk_name: Vec<u8>,
    pub num_textures: u32,
    pub textures: Vec<Vec<u8>>,
    pub num_shader_keys: u32,
    pub shader_keys: Vec<ShaderKey>,
    pub num_samplers: u32,
    pub sampler_texture_usages: Vec<u32>,
    pub color_table: physis_ColorTable,
}

/// The discriminant a decoded color table exports with.
pub open spec fn color_table_tag(c: Option<ColorTable>) -> u32 {
    match c {
        None => 0,
        Some(ColorTable::LegacyColorTable(_)) => 1,
        Some(ColorTable::DawntrailColorTable(_)) => 2,
        Some(ColorTable::OpaqueColorTable) => 3,
    }
}

/// The discriminant of an exported color table.
pub open spec fn c_color_table_tag(e: physis_ColorTable) -> u32 {
    match e {
        physis_ColorTable::Absent => 0,
        physis_ColorTable::LegacyColorTable(_) => 1,
        physis_ColorTable::DawntrailColorTable(_) => 2,
        physis_ColorTable::OpaqueColorTable => 3,
    }
}

impl physis_ColorTable {
    /// The discriminant shared by construction and release.
    pub fn discriminant(&self) -> (r: u32)
        ensures
            r == c_color_table_tag(*self),
    {
        match self {
            physis_ColorTable::Absent => 0,
            physis_ColorTable::LegacyColorTable(_) => 1,
            physis_ColorTable::DawntrailColorTable(_) => 2,
            physis_ColorTable::OpaqueColorTable => 3,
        }
    }
}

/// A color table exports: its row count fits.
pub open spec fn color_table_converts(c: Option<ColorTable>) -> bool {
    match c {
        Some(ColorTable::LegacyColorTable(rows)) => rows@.len() <= u32::MAX,
        Some(ColorTable::DawntrailColorTable(rows)) => rows@.len() <= u32::MAX,
        _ => true,
    }
}

/// The exported color table carries the decoded one's kind, row count and
/// rows.
pub open spec fn color_table_matches(e: physis_ColorTable, c: Option<ColorTable>) -> bool {
    c_color_table_tag(e) == color_table_tag(c) && match (c, e) {
        (None, physis_ColorTable::Absent) => true,
        (Some(ColorTable::LegacyColorTable(rows)), physis_ColorTable::LegacyColorTable(t)) => t.num_rows as int
            == rows@.len() && t.rows@ == rows@,
        (Some(ColorTable::DawntrailColorTable(rows)), physis_ColorTable::DawntrailColorTable(t)) => t.num_rows as int
            == rows@.len() && t.rows@ == rows@,
        (Some(ColorTable::OpaqueColorTable), physis_ColorTable::OpaqueColorTable) => true,
        _ => false,
    }
}

/// Exports a color table; `None` when its rows do not fit the count.
pub fn to_c_color_table(c: &Option<ColorTable>) -> (r: Option<physis_ColorTable>)
    ensures
        match r {
            None => !color_table_converts(*c),
            Some(e) => color_table_converts(*c) && color_table_matches(e, *c),
        },
{
    match c {
        None => Some(physis_ColorTable::Absent),
        Some(ColorTable::LegacyColorTable(rows)) => {
            if rows.len() > u32::MAX as usize {
                return None;
            }
            let rows = copy_vec(rows);
            Some(physis_ColorTable::LegacyColorTable(physis_LegacyColorTable { num_rows: rows.len() as u32, rows }))
        },
        Some(ColorTable::DawntrailColorTable(rows)) => {
            if rows.len() > u32::MAX as usize {
                return None;
            }
            let rows = copy_vec(rows);
            Some(physis_ColorTable::DawntrailColorTable(physis_DawntrailColorTable { num_rows: rows.len() as u32, rows }))
        },
        Some(ColorTable::OpaqueColorTable) => Some(physis_ColorTable::OpaqueColorTable),
    }
}

impl physis_Material {
    /// The sentinel material: a null name and no arrays.
    pub open spec fn is_empty(&self) -> bool {
        &&& self.shpk_name@.len() == 0
        &&& self.num_textures == 0 && self.textures@.len() == 0
        &&& self.num_shader_keys == 0 && self.shader_keys@.len() == 0
        &&& self.num_samplers == 0 && self.sampler_texture_usages@.len() == 0
        &&& self.color_table is Absent
    }

    /// The sentinel material.
    pub fn empty() -> (r: physis_Material)
        ensures
            r.is_empty(),
    {
        physis_Material {
            shpk_name: Vec::new(),
            num_textures: 0,
            textures: Vec::new(),
            num_shader_keys: 0,
            shader_keys: Vec::new(),
            num_samplers: 0,
            sampler_texture_usages: Vec::new(),
            color_table: physis_ColorTable::Absent,
        }
    }
}

/// A material exports: its texts hold no NUL byte and its counts fit.
pub open spec fn material_converts(m: Material) -> bool {
    &&& no_nul(m.shader_package_name@)
    &&& m.texture_paths@.len() <= u32::MAX
    &&& texts_convert(texts_view(m.texture_paths@))
    &&& m.shader_keys@.len() <= u32::MAX
    &&& m.sampler_texture_usages@.len() <= u32::MAX
    &&& color_table_converts(m.color_table)
}

/// The exported material carries the decoded one.
pub open spec fn material_matches(e: physis_Material, m: Material) -> bool {
    &&& c_string_of(m.shader_package_name@) == Some(e.shpk_name@)
    &&& e.num_textures as int == m.texture_paths@.len()
    &&& c_strings_match(e.textures@, texts_view(m.texture_paths@))
    &&& e.num_shader_keys as int == m.shader_keys@.len() && e.shader_keys@ == m.shader_keys@
    &&& e.num_samplers as int == m.sampler_texture_usages@.len()
    &&& e.sampler_texture_usages@ == m.sampler_texture_usages@
    &&& color_table_matches(e.color_table, m.color_table)
}

/// Exports a decoded material; the sentinel when a text holds a NUL byte
/// or a count does not fit.
pub fn to_c_material(m: &Material) -> (r: physis_Material)
    ensures
        material_converts(*m) ==> material_matches(r, *m),
        !material_converts(*m) ==> r.is_empty(),
{
    if m.texture_paths.len() > u32::MAX as usize || m.shader_keys.len() > u32::MAX as usize
        || m.sampler_texture_usages.len() > u32::MAX as usize {
        return physis_Material::empty();
    }
    let shpk_name = match ffi_to_c_string(&m.shader_package_name) {
        Some(n) => n,
        None => return physis_Material::empty(),
    };
    let textures = match to_c_strings(&m.texture_paths) {
        Some(t) => t,
        None => return physis_Material::empty(),
    };
    let color_table = match to_c_color_table(&m.color_table) {
        Some(c) => c,
        None => return physis_Material::empty(),
    };
    let shader_keys = copy_vec(&m.shader_keys);
    let usages = copy_vec(&m.sampler_texture_usages);
    physis_Material {
        shpk_name,
        num_textures: textures.len() as u32,
        textures,
        num_shader_keys: shader_keys.len() as u32,
        shader_keys,
        num_samplers: usages.len() as u32,
        sampler_texture_usages: usages,
        color_table,
    }
}

/// The rows an exported color table holds.
pub open spec fn color_table_rows(e: physis_ColorTable) -> nat {
    match e {
        physis_ColorTable::LegacyColorTable(t) => t.rows@.len(),
        physis_ColorTable::DawntrailColorTable(t) => t.rows@.len(),
        _ => 0,
    }
}

/// What releasing an exported material destroys: its name, if not null,
/// each texture path's slot and string, each key, each sampler usage and
/// each color table row.
pub open spec fn material_cost(m: physis_Material) -> nat {
    (if m.shpk_name@.len() == 0 { 0nat } else { 1nat }) + 2 * m.textures@.len() + m.shader_keys@.len()
        + m.sampler_texture_usages@.len() + color_table_rows(m.color_table)
}

/// Releases an exported material, returning how many elements were
/// destroyed. The sentinel releases nothing.
pub fn physis_material_free(material: physis_Material) -> (released: usize)
    requires
        material_cost(material) <= usize::MAX,
    ensures
        released == material_cost(material),
        material.is_empty() ==> released == 0,
{
    let name: usize = if material.shpk_name.len() == 0 { 0 } else { 1 };
    let keys = material.shader_keys.len();
    let usages = material.sampler_texture_usages.len();
    let rows: usize = match &material.color_table {
        physis_ColorTable::LegacyColorTable(t) => t.rows.len(),
        physis_ColorTable::DawntrailColorTable(t) => t.rows.len(),
        _ => 0,
    };
    let ghost total = material.textures@.len();
    let mut list = material.textures;
    let mut released: usize = 0;
    while list.len() > 0
        invariant
            name + 2 * total + keys + usages + rows <= usize::MAX,
            released + 2 * list@.len() == 2 * total,
        decreases list@.len(),
    {
        let x = list.pop().unwrap();
        released = released + 1 + ffi_free_string(Some(x));
    }
    released + name + keys + usages + rows
}

} // verus!
