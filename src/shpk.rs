//! Shader packages: each shader's bytecode and named parameter slots, the
//! package's keys and its nodes, exported as counted arrays.

use vstd::prelude::*;
use crate::buffer::{c_string_of, copy_vec, ffi_free_string, ffi_to_c_string, no_nul};
use crate::release::sum_of;

verus! {

/// A named parameter slot of a shader.
pub struct ShaderParameter {
    pub slot: u16,
    pub name: Vec<u8>,
}

/// A decoded shader: its bytecode and its parameter slots.
pub struct Shader {
    pub bytecode: Vec<u8>,
    pub scalar_parameters: Vec<ShaderParameter>,
    pub resource_parameters: Vec<ShaderParameter>,
}

/// A shader key and its default value.
#[derive(Clone, Copy, PartialEq, Eq, Structural, Debug)]
pub struct Key {
    pub id: u32,
    pub default_value: u32,
}

/// A decoded shader package.
pub struct ShaderPackage {
    pub vertex_shaders: Vec<Shader>,
    pub pixel_shaders: Vec<Shader>,
    pub system_keys: Vec<Key>,
    pub scene_keys: Vec<Key>,
    pub material_keys: Vec<Key>,
    pub sub_view_key1_default: u32,
    pub sub_view_key2_default: u32,
    pub material_parameters_size: u32,
}

/// A decoded node of a shader package: its selector, passes and key values.
pub struct ShaderNode {
    pub selector: u32,
    pub pass_count: u32,
    pub pass_indices: [u8; 16],
    pub system_keys: Vec<u32>,
    pub scene_keys: Vec<u32>,
    pub material_keys: Vec<u32>,
    pub subview_keys: Vec<u32>,
}

/// An exported parameter slot.
pub struct physis_ShaderParameter {
    pub slot: u16,
    pub name: Vec<u8>,
}

/// An exported shader.
pub struct physis_Shader {
    pub len: i32,
    pub bytecode: Vec<u8>,
    pub num_scalar_parameters: i32,
    pub scalar_parameters: Vec<physis_ShaderParameter>,
    pub num_resource_parameters: i32,
    pub resource_parameters: Vec<physis_ShaderParameter>,
}

/// An exported shader package.
pub struct physis_SHPK {
    pub num_vertex_shaders: i32,
    pub vertex_shaders: Vec<physis_Shader>,
    pub num_pixel_shaders: i32,
    pub pixel_shaders: Vec<physis_Shader>,
    pub num_system_keys: i32,
    pub system_keys: Vec<Key>,
    pub num_scene_keys: i32,
    pub scene_keys: Vec<Key>,
    pub num_material_keys: i32,
    pub material_keys: Vec<Key>,
    pub sub_view_key1_default: u32,
    pub sub_view_key2_default: u32,
    pub material_parameters_size: u32,
}

/// An exported node.
pub struct physis_SHPKNode {
    pub selector: u32,
    pub pass_count: u32,
    pub pass_indices: [u8; 16],
    pub system_key_count: u32,
    pub system_keys: Vec<u32>,
    pub scene_key_count: u32,
    pub scene_keys: Vec<u32>,
    pub material_key_count: u32,
    pub material_keys: Vec<u32>,
    pub subview_key_count: u32,
    pub subview_keys: Vec<u32>,
}

/// Every parameter's name exports, and their count fits.
pub open spec fn parameters_convert(ps: Seq<ShaderParameter>) -> bool {
    &&& ps.len() <= i32::MAX
    &&& forall|i: int| 0 <= i < ps.len() ==> no_nul((#[trigger] ps[i]).name@)
}

/// The exported parameters carry the decoded ones, in order.
pub open spec fn parameters_match(es: Seq<physis_ShaderParameter>, ps: Seq<ShaderParameter>) -> bool {
    &&& es.len() == ps.len()
    &&& forall|i: int| 0 <= i < ps.len() ==> (#[trigger] es[i]).slot == ps[i].slot
        && c_string_of(ps[i].name@) == Some(es[i].name@)
}

/// Exports parameter slots; `None` when a name holds a NUL byte or there
/// are more than fit a signed 32-bit count.
pub fn physis_get_shader_parameter_array(ps: &Vec<ShaderParameter>) -> (r: Option<Vec<physis_ShaderParameter>>)
    ensures
        match r {
            None => !parameters_convert(ps@),
            Some(es) => parameters_convert(ps@) && parameters_match(es@, ps@),
        },
{
    if ps.len() > i32::MAX as usize {
        return None;
    }
    let mut out: Vec<physis_ShaderParameter> = Vec::new();
    let mut i: usize = 0;
    while i < ps.len()
        invariant
            ps@.len() <= i32::MAX,
            i <= ps@.len(),
            out@.len() == i,
            forall|m: int| 0 <= m < i ==> (#[trigger] out@[m]).slot == ps@[m].slot
                && c_string_of(ps@[m].name@) == Some(out@[m].name@),
        decreases ps@.len() - i,
    {
        let name = match ffi_to_c_string(&ps[i].name) {
            Some(n) => n,
            None => return None,
        };
        out.push(physis_ShaderParameter { slot: ps[i].slot, name });
        i = i + 1;
    }
    assert forall|m: int| 0 <= m < ps@.len() implies no_nul((#[trigger] ps@[m]).name@) by {
        assert(out@[m].slot == ps@[m].slot);
    }
    Some(out)
}

/// A shader exports: its parameters do, and its counts fit.
pub open spec fn shader_converts(s: Shader) -> bool {
    &&& s.bytecode@.len() <= i32::MAX
    &&& parameters_convert(s.scalar_parameters@)
    &&& parameters_convert(s.resource_parameters@)
}

/// The exported shader carries the decoded one.
pub open spec fn shader_matches(e: physis_Shader, s: Shader) -> bool {
    &&& e.len as int == s.bytecode@.len()
    &&& e.bytecode@ == s.bytecode@
    &&& e.num_scalar_parameters as int == s.scalar_parameters@.len()
    &&& parameters_match(e.scalar_parameters@, s.scalar_parameters@)
    &&& e.num_resource_parameters as int == s.resource_parameters@.len()
    &&& parameters_match(e.resource_parameters@, s.resource_parameters@)
}

/// A shader exports, as `e`.
pub open spec fn shader_exports(e: physis_Shader, s: Shader) -> bool {
    shader_converts(s) && shader_matches(e, s)
}

/// Exports a shader; `None` when a parameter fails or a count does not fit.
pub fn to_c_shader(s: &Shader) -> (r: Option<physis_Shader>)
    ensures
        match r {
            None => !shader_converts(*s),
            Some(e) => shader_exports(e, *s),
        },
{
    if s.bytecode.len() > i32::MAX as usize {
        return None;
    }
    let scalar_parameters = match physis_get_shader_parameter_array(&s.scalar_parameters) {
        Some(p) => p,
        None => return None,
    };
    let resource_parameters = match physis_get_shader_parameter_array(&s.resource_parameters) {
        Some(p) => p,
        None => return None,
    };
    let bytecode = copy_vec(&s.bytecode);
    Some(physis_Shader {
        len: bytecode.len() as i32,
        bytecode,
        num_scalar_parameters: scalar_parameters.len() as i32,
        scalar_parameters,
        num_resource_parameters: resource_parameters.len() as i32,
        resource_parameters,
    })
}

/// Every shader exports, and their count fits.
pub open spec fn shaders_convert(ss: Seq<Shader>) -> bool {
    &&& ss.len() <= i32::MAX
    &&& forall|i: int| 0 <= i < ss.len() ==> shader_converts(#[trigger] ss[i])
}

/// The exported shaders carry the decoded ones, in order.
pub open spec fn shaders_match(es: Seq<physis_Shader>, ss: Seq<Shader>) -> bool {
    &&& es.len() == ss.len()
    &&& forall|i: int| 0 <= i < ss.len() ==> shader_matches(#[trigger] es[i], ss[i])
}

fn to_c_shaders(ss: &Vec<Shader>) -> (r: Option<Vec<physis_Shader>>)
    ensures
        match r {
            None => !shaders_convert(ss@),
            Some(es) => shaders_convert(ss@) && shaders_match(es@, ss@),
        },
{
    if ss.len() > i32::MAX as usize {
        return None;
    }
    let mut out: Vec<physis_Shader> = Vec::new();
    let mut i: usize = 0;
    while i < ss.len()
        invariant
            i <= ss@.len(),
            out@.len() == i,
            forall|m: int| 0 <= m < i ==> shader_exports(#[trigger] out@[m], ss@[m]),
        decreases ss@.len() - i,
    {
        match to_c_shader(&ss[i]) {
            Some(e) => {
                out.push(e);
                assert(out@[i as int] == e);
            },
            None => return None,
        }
        i = i + 1;
    }
    assert forall|m: int| 0 <= m < ss@.len() implies shader_converts(#[trigger] ss@[m]) && shader_matches(out@[m], ss@[m]) by {
        assert(shader_exports(out@[m], ss@[m]));
    }
    Some(out)
}

/// A package exports: every shader does, and every count fits.
pub open spec fn shpk_converts(p: ShaderPackage) -> bool {
    &&& shaders_convert(p.vertex_shaders@)
    &&& shaders_convert(p.pixel_shaders@)
    &&& p.system_keys@.len() <= i32::MAX
    &&& p.scene_keys@.len() <= i32::MAX
    &&& p.material_keys@.len() <= i32::MAX
}

/// The exported package carries the decoded one; each key list is
/// exported as itself.
pub open spec fn shpk_matches(e: physis_SHPK, p: ShaderPackage) -> bool {
    &&& e.num_vertex_shaders as int == p.vertex_shaders@.len()
    &&& shaders_match(e.vertex_shaders@, p.vertex_shaders@)
    &&& e.num_pixel_shaders as int == p.pixel_shaders@.len()
    &&& shaders_match(e.pixel_shaders@, p.pixel_shaders@)
    &&& e.num_system_keys as int == p.system_keys@.len() && e.system_keys@ == p.system_keys@
    &&& e.num_scene_keys as int == p.scene_keys@.len() && e.scene_keys@ == p.scene_keys@
    &&& e.num_material_keys as int == p.material_keys@.len() && e.material_keys@ == p.material_keys@
    &&& e.sub_view_key1_default == p.sub_view_key1_default
    &&& e.sub_view_key2_default == p.sub_view_key2_default
    &&& e.material_parameters_size == p.material_parameters_size
}

impl physis_SHPK {
    /// The sentinel package: no shaders, no keys.
    pub open spec fn is_empty(&self) -> bool {
        &&& self.num_vertex_shaders == 0 && self.vertex_shaders@.len() == 0
        &&& self.num_pixel_shaders == 0 && self.pixel_shaders@.len() == 0
        &&& self.num_system_keys == 0 && self.system_keys@.len() == 0
        &&& self.num_scene_keys == 0 && self.scene_keys@.len() == 0
        &&& self.num_material_keys == 0 && self.material_keys@.len() == 0
        &&& self.sub_view_key1_default == 0 && self.sub_view_key2_default == 0
        &&& self.material_parameters_size == 0
    }

    /// The sentinel package.
    pub fn empty() -> (r: physis_SHPK)
        ensures
            r.is_empty(),
    {
        physis_SHPK {
            num_vertex_shaders: 0,
            vertex_shaders: Vec::new(),
            num_pixel_shaders: 0,
            pixel_shaders: Vec::new(),
            num_system_keys: 0,
            system_keys: Vec::new(),
            num_scene_keys: 0,
            scene_keys: Vec::new(),
            num_material_keys: 0,
            material_keys: Vec::new(),
            sub_view_key1_default: 0,
            sub_view_key2_default: 0,
            material_parameters_size: 0,
        }
    }
}

/// Exports a decoded shader package; the empty package when anything in it
/// fails to export.
pub fn to_c_shpk(p: &ShaderPackage) -> (r: physis_SHPK)
    ensures
        shpk_converts(*p) ==> shpk_matches(r, *p),
        !shpk_converts(*p) ==> r.is_empty(),
{
    if p.system_keys.len() > i32::MAX as usize || p.scene_keys.len() > i32::MAX as usize
        || p.material_keys.len() > i32::MAX as usize {
        return physis_SHPK::empty();
    }
    let vertex_shaders = match to_c_shaders(&p.vertex_shaders) {
        Some(v) => v,
        None => return physis_SHPK::empty(),
    };
    let pixel_shaders = match to_c_shaders(&p.pixel_shaders) {
        Some(v) => v,
        None => return physis_SHPK::empty(),
    };
    let system_keys = copy_vec(&p.system_keys);
    let scene_keys = copy_vec(&p.scene_keys);
    let material_keys = copy_vec(&p.material_keys);
    physis_SHPK {
        num_vertex_shaders: vertex_shaders.len() as i32,
        vertex_shaders,
        num_pixel_shaders: pixel_shaders.len() as i32,
        pixel_shaders,
        num_system_keys: system_keys.len() as i32,
        system_keys,
        num_scene_keys: scene_keys.len() as i32,
        scene_keys,
        num_material_keys: material_keys.len() as i32,
        material_keys,
        sub_view_key1_default: p.sub_view_key1_default,
        sub_view_key2_default: p.sub_view_key2_default,
        material_parameters_size: p.material_parameters_size,
    }
}

/// The exported node carries the decoded one.
pub open spec fn node_matches(e: physis_SHPKNode, n: ShaderNode) -> bool {
    &&& e.selector == n.selector
    &&& e.pass_count == n.pass_count
    &&& e.pass_indices == n.pass_indices
    &&& e.system_key_count as int == n.system_keys@.len() && e.system_keys@ == n.system_keys@
    &&& e.scene_key_count as int == n.scene_keys@.len() && e.scene_keys@ == n.scene_keys@
    &&& e.material_key_count as int == n.material_keys@.len() && e.material_keys@ == n.material_keys@
    &&& e.subview_key_count as int == n.subview_keys@.len() && e.subview_keys@ == n.subview_keys@
}

/// Exports a node of a shader package.
pub fn to_c_shpk_node(n: &ShaderNode) -> (r: physis_SHPKNode)
    requires
        n.system_keys@.len() <= u32::MAX,
        n.scene_keys@.len() <= u32::MAX,
        n.material_keys@.len() <= u32::MAX,
        n.subview_keys@.len() <= u32::MAX,
    ensures
        node_matches(r, *n),
{
    let system_keys = copy_vec(&n.system_keys);
    let scene_keys = copy_vec(&n.scene_keys);
    let material_keys = copy_vec(&n.material_keys);
    let subview_keys = copy_vec(&n.subview_keys);
    physis_SHPKNode {
        selector: n.selector,
        pass_count: n.pass_count,
        pass_indices: n.pass_indices,
        system_key_count: system_keys.len() as u32,
        system_keys,
        scene_key_count: scene_keys.len() as u32,
        scene_keys,
        material_key_count: material_keys.len() as u32,
        material_keys,
        subview_key_count: subview_keys.len() as u32,
        subview_keys,
    }
}

/// The selector of a list of keys: the sum of each key times 31 to the
/// power of its position, modulo 2 to the 32.
pub open spec fn selector_of(keys: Seq<u32>) -> u32
    decreases keys.len(),
{
    if keys.len() == 0 {
        0
    } else {
        ((keys[0] as int + 31 * selector_of(keys.drop_first()) as int) % 0x1_0000_0000) as u32
    }
}

/// The selector of a list of keys.
pub fn build_selector(keys: &[u32]) -> (r: u32)
    ensures
        r == selector_of(keys@),
{
    let mut selector: u32 = 0;
    let mut i: usize = keys.len();
    assert(keys@.subrange(i as int, keys@.len() as int) =~= Seq::<u32>::empty());
    while i > 0
        invariant
            i <= keys@.len(),
            selector == selector_of(keys@.subrange(i as int, keys@.len() as int)),
        decreases i,
    {
        let ghost rest = keys@.subrange(i as int, keys@.len() as int);
        i = i - 1;
        assert(keys@.subrange(i as int, keys@.len() as int).drop_first() =~= rest);
        selector = ((keys[i] as u64 + 31 * selector as u64) % 0x1_0000_0000u64) as u32;
    }
    assert(keys@.subrange(0, keys@.len() as int) =~= keys@);
    selector
}

/// The selector of a node from its four key lists: the selector of the
/// four lists' selectors.
pub fn physis_shpk_build_selector_from_all_keys(
    system_keys: &[u32],
    scene_keys: &[u32],
    material_keys: &[u32],
    subview_keys: &[u32],
) -> (r: u32)
    ensures
        r == selector_of(
            seq![selector_of(system_keys@), selector_of(scene_keys@), selector_of(material_keys@), selector_of(subview_keys@)],
        ),
{
    let keys = [
        build_selector(system_keys),
        build_selector(scene_keys),
        build_selector(material_keys),
        build_selector(subview_keys),
    ];
    let r = build_selector(&keys);
    assert(keys@ =~= seq![selector_of(system_keys@), selector_of(scene_keys@), selector_of(material_keys@), selector_of(subview_keys@)]);
    r
}

/// The checksum shader packages name their keys and values by.
pub uninterp spec fn shader_crc_of(name: Seq<char>) -> u32;

/// Relies on physis::shpk::ShaderPackage::crc, whose result depends on the
/// text alone.
#[verifier::external_body]
fn shader_crc(name: &str) -> (r: u32)
    ensures
        r == shader_crc_of(name@),
{
    physis::shpk::ShaderPackage::crc(name)
}

/// The checksum of a key or value name.
pub fn physis_shpk_crc(name: &str) -> (r: u32)
    ensures
        r == shader_crc_of(name@),
{
    shader_crc(name)
}

/// What releasing an exported shader destroys: the shader, its bytecode
/// and each parameter with its name.
pub open spec fn shader_cost(e: physis_Shader) -> nat {
    1 + e.bytecode@.len() + 2 * e.scalar_parameters@.len() + 2 * e.resource_parameters@.len()
}

/// What releasing an exported package destroys: its shaders and its keys.
pub open spec fn shpk_cost(e: physis_SHPK) -> nat {
    sum_of(e.vertex_shaders@.map_values(|s: physis_Shader| shader_cost(s)))
        + sum_of(e.pixel_shaders@.map_values(|s: physis_Shader| shader_cost(s)))
        + e.system_keys@.len() + e.scene_keys@.len() + e.material_keys@.len()
}

fn release_parameters(ps: Vec<physis_ShaderParameter>) -> (released: usize)
    requires
        2 * ps@.len() <= usize::MAX,
    ensures
        released == 2 * ps@.len(),
{
    let ghost total = ps@.len();
    let mut list = ps;
    let mut released: usize = 0;
    while list.len() > 0
        invariant
            2 * total <= usize::MAX,
            released + 2 * list@.len() == 2 * total,
        decreases list@.len(),
    {
        let p = list.pop().unwrap();
        released = released + 1 + ffi_free_string(Some(p.name));
    }
    released
}

fn release_shaders(shaders: Vec<physis_Shader>) -> (released: usize)
    requires
        sum_of(shaders@.map_values(|s: physis_Shader| shader_cost(s))) <= usize::MAX,
    ensures
        released == sum_of(shaders@.map_values(|s: physis_Shader| shader_cost(s))),
{
    let ghost total = sum_of(shaders@.map_values(|s: physis_Shader| shader_cost(s)));
    let mut list = shaders;
    let mut released: usize = 0;
    while list.len() > 0
        invariant
            total <= usize::MAX,
            released + sum_of(list@.map_values(|s: physis_Shader| shader_cost(s))) == total,
        decreases list@.len(),
    {
        let ghost before = list@;
        let s = list.pop().unwrap();
        assert(before.map_values(|s: physis_Shader| shader_cost(s)).drop_last()
            =~= list@.map_values(|s: physis_Shader| shader_cost(s)));
        let bytes = s.bytecode.len();
        let scalar = release_parameters(s.scalar_parameters);
        let resource = release_parameters(s.resource_parameters);
        released = released + 1 + bytes + scalar + resource;
    }
    released
}

/// Releases an exported shader package, returning how many elements were
/// destroyed. The sentinel releases nothing.
pub fn physis_shpk_free(shpk: physis_SHPK) -> (released: usize)
    requires
        shpk_cost(shpk) <= usize::MAX,
    ensures
        released == shpk_cost(shpk),
{
    let keys = shpk.system_keys.len() + shpk.scene_keys.len() + shpk.material_keys.len();
    let vertex = release_shaders(shpk.vertex_shaders);
    let pixel = release_shaders(shpk.pixel_shaders);
    vertex + pixel + keys
}

/// Releases an exported node, returning how many key values were
/// destroyed.
pub fn physis_shpk_node_free(node: physis_SHPKNode) -> (released: usize)
    requires
        node.system_keys@.len() + node.scene_keys@.len() + node.material_keys@.len() + node.subview_keys@.len()
            <= usize::MAX,
    ensures
        released == node.system_keys@.len() + node.scene_keys@.len() + node.material_keys@.len()
            + node.subview_keys@.len(),
{
    node.system_keys.len() + node.scene_keys.len() + node.material_keys.len() + node.subview_keys.len()
}

} // verus!
