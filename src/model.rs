//! Models: levels of detail made of mesh parts, each part's vertices,
//! streams, indices, submeshes and shapes exported as counted arrays.

use vstd::prelude::*;
use crate::buffer::{c_string_of, c_strings_match, copy_vec, ffi_free_string, ffi_to_c_string, no_nul, texts_convert, texts_view, to_c_strings};
use crate::release::sum_of;

verus! {

/// A vertex; each float is held as its bit pattern.
#[derive(Clone, Copy, PartialEq, Eq, Debug)]
pub struct Vertex {
    pub position: [u32; 3],
    pub uv0: [u32; 2],
    pub uv1: [u32; 2],
    pub normal: [u32; 3],
    pub bitangent: [u32; 4],
    pub color: [u32; 4],
    pub bone_weight: [u32; 4],
    pub bone_id: [u8; 4],
}

/// A run of indices drawn together.
#[derive(Clone, Copy, PartialEq, Eq, Structural, Debug)]
pub struct SubMesh {
    pub index_count: u32,
    pub index_offset: u32,
}

/// Where a vertex attribute sits in the streams; type and usage are the
/// decoder's codes.
#[derive(Clone, Copy, PartialEq, Eq, Structural, Debug)]
pub struct VertexElement {
    pub stream: u8,
    pub offset: u8,
    pub vertex_type: u8,
    pub vertex_usage: u8,
    pub usage_index: u8,
}

/// A decoded shape: its name and the vertices it moves to.
pub struct Shape {
    pub name: Vec<u8>,
    pub morphed_vertices: Vec<Vertex>,
}

/// A decoded mesh part.
pub struct Part {
    pub vertices: Vec<Vertex>,
    pub vertex_streams: Vec<Vec<u8>>,
    pub vertex_stream_strides: Vec<usize>,
    pub indices: Vec<u16>,
    pub material_index: u16,
    pub submeshes: Vec<SubMesh>,
    pub shapes: Vec<Shape>,
}

/// A decoded level of detail and its vertex layout.
pub struct Lod {
    pub vertex_elements: Vec<VertexElement>,
    pub parts: Vec<Part>,
}

/// A decoded model.
pub struct Model {
    pub lods: Vec<Lod>,
    pub affected_bone_names: Vec<Vec<u8>>,
    pub material_names: Vec<Vec<u8>>,
}

/// An exported shape.
pub struct physis_Shape {
    pub name: Vec<u8>,
    pub morphed_vertices: Vec<Vertex>,
}

/// An exported part. `stream_sizes` holds each stream's length in bytes;
/// `num_streams` counts the strides.
pub struct physis_Part {
    pub num_vertices: u32,
    pub vertices: Vec<Vertex>,
    pub streams: Vec<Vec<u8>>,
    pub stream_sizes: Vec<usize>,
    pub stream_strides: Vec<usize>,
    pub num_streams: usize,
    pub num_indices: u32,
    pub indices: Vec<u16>,
    pub material_index: u16,
    pub num_submeshes: u32,
    pub submeshes: Vec<SubMesh>,
    pub num_shapes: u32,
    pub shapes: Vec<physis_Shape>,
}

/// An exported level of detail.
pub struct physis_LOD {
    pub num_vertex_elements: u32,
    pub vertex_elements: Vec<VertexElement>,
    pub num_parts: u32,
    pub parts: Vec<physis_Part>,
}

/// An exported model.
pub struct physis_MDL {
    pub num_lod: u32,
    pub lods: Vec<physis_LOD>,
    pub num_affected_bones: u32,
    pub affected_bone_names: Vec<Vec<u8>>,
    pub num_material_names: u32,
    pub material_names: Vec<Vec<u8>>,
}

/// A shape exports: its name holds no NUL byte.
pub open spec fn shape_converts(s: Shape) -> bool {
    no_nul(s.name@)
}

/// The exported shape carries the decoded one.
pub open spec fn shape_matches(e: physis_Shape, s: Shape) -> bool {
    c_string_of(s.name@) == Some(e.name@) && e.morphed_vertices@ == s.morphed_vertices@
}

/// The byte lengths of a list of streams.
pub open spec fn stream_lengths(streams: Seq<Vec<u8>>) -> Seq<usize> {
    streams.map_values(|s: Vec<u8>| s@.len() as usize)
}

/// A part exports: its shapes do, and its counts fit.
pub open spec fn part_converts(p: Part) -> bool {
    &&& p.vertices@.len() <= u32::MAX
    &&& p.indices@.len() <= u32::MAX
    &&& p.submeshes@.len() <= u32::MAX
    &&& p.shapes@.len() <= u32::MAX
    &&& forall|k: int| 0 <= k < p.shapes@.len() ==> shape_converts(#[trigger] p.shapes@[k])
}

/// The exported part carries the decoded one.
pub open spec fn part_matches(e: physis_Part, p: Part) -> bool {
    &&& e.num_vertices as int == p.vertices@.len() && e.vertices@ == p.vertices@
    &&& e.streams@.len() == p.vertex_streams@.len()
    &&& forall|k: int| 0 <= k < p.vertex_streams@.len() ==> (#[trigger] e.streams@[k])@ == p.vertex_streams@[k]@
    &&& e.stream_sizes@ == stream_lengths(p.vertex_streams@)
    &&& e.stream_strides@ == p.vertex_stream_strides@
    &&& e.num_streams as int == p.vertex_stream_strides@.len()
    &&& e.num_indices as int == p.indices@.len() && e.indices@ == p.indices@
    &&& e.material_index == p.material_index
    &&& e.num_submeshes as int == p.submeshes@.len() && e.submeshes@ == p.submeshes@
    &&& e.num_shapes as int == p.shapes@.len()
    &&& e.shapes@.len() == p.shapes@.len()
    &&& forall|k: int| 0 <= k < p.shapes@.len() ==> shape_matches(#[trigger] e.shapes@[k], p.shapes@[k])
}

/// A part exports, as `e`.
pub open spec fn part_exports(e: physis_Part, p: Part) -> bool {
    part_converts(p) && part_matches(e, p)
}

fn copy_streams(streams: &Vec<Vec<u8>>) -> (r: (Vec<Vec<u8>>, Vec<usize>))
    ensures
        r.0@.len() == streams@.len(),
        forall|k: int| 0 <= k < streams@.len() ==> (#[trigger] r.0@[k])@ == streams@[k]@,
        r.1@ == stream_lengths(streams@),
{
    let mut out: Vec<Vec<u8>> = Vec::new();
    let mut sizes: Vec<usize> = Vec::new();
    let mut i: usize = 0;
    while i < streams.len()
        invariant
            i <= streams@.len(),
            out@.len() == i,
            forall|k: int| 0 <= k < i ==> (#[trigger] out@[k])@ == streams@[k]@,
            sizes@ == stream_lengths(streams@).subrange(0, i as int),
        decreases streams@.len() - i,
    {
        let s = copy_vec(&streams[i]);
        sizes.push(s.len());
        out.push(s);
        i = i + 1;
        assert(sizes@ =~= stream_lengths(streams@).subrange(0, i as int));
    }
    assert(sizes@ =~= stream_lengths(streams@));
    (out, sizes)
}

/// Exports a mesh part; `None` when a shape's name holds a NUL byte or a
/// count does not fit.
pub fn to_c_part(p: &Part) -> (r: Option<physis_Part>)
    ensures
        match r {
            None => !part_converts(*p),
            Some(e) => part_exports(e, *p),
        },
{
    if p.vertices.len() > u32::MAX as usize || p.indices.len() > u32::MAX as usize
        || p.submeshes.len() > u32::MAX as usize || p.shapes.len() > u32::MAX as usize {
        return None;
    }
    let mut shapes: Vec<physis_Shape> = Vec::new();
    let mut k: usize = 0;
    while k < p.shapes.len()
        invariant
            k <= p.shapes@.len(),
            shapes@.len() == k,
            forall|m: int| 0 <= m < k ==> shape_matches(#[trigger] shapes@[m], p.shapes@[m]),
        decreases p.shapes@.len() - k,
    {
        let s = &p.shapes[k];
        let name = match ffi_to_c_string(&s.name) {
            Some(n) => n,
            None => return None,
        };
        shapes.push(physis_Shape { name, morphed_vertices: copy_vec(&s.morphed_vertices) });
        assert(shape_matches(shapes@[k as int], p.shapes@[k as int]));
        k = k + 1;
    }
    assert forall|m: int| 0 <= m < p.shapes@.len() implies shape_converts(#[trigger] p.shapes@[m]) by {
        assert(shape_matches(shapes@[m], p.shapes@[m]));
    }
    let (streams, stream_sizes) = copy_streams(&p.vertex_streams);
    let stream_strides = copy_vec(&p.vertex_stream_strides);
    let vertices = copy_vec(&p.vertices);
    let indices = copy_vec(&p.indices);
    let submeshes = copy_vec(&p.submeshes);
    Some(physis_Part {
        num_vertices: vertices.len() as u32,
        vertices,
        streams,
        stream_sizes,
        num_streams: stream_strides.len(),
        stream_strides,
        num_indices: indices.len() as u32,
        indices,
        material_index: p.material_index,
        num_submeshes: submeshes.len() as u32,
        submeshes,
        num_shapes: shapes.len() as u32,
        shapes,
    })
}

/// A level of detail exports: every part does, and its counts fit.
pub open spec fn lod_converts(l: Lod) -> bool {
    &&& l.vertex_elements@.len() <= u32::MAX
    &&& l.parts@.len() <= u32::MAX
    &&& forall|k: int| 0 <= k < l.parts@.len() ==> part_converts(#[trigger] l.parts@[k])
}

/// The exported level of detail carries the decoded one.
pub open spec fn lod_matches(e: physis_LOD, l: Lod) -> bool {
    &&& e.num_vertex_elements as int == l.vertex_elements@.len() && e.vertex_elements@ == l.vertex_elements@
    &&& e.num_parts as int == l.parts@.len()
    &&& e.parts@.len() == l.parts@.len()
    &&& forall|k: int| 0 <= k < l.parts@.len() ==> part_matches(#[trigger] e.parts@[k], l.parts@[k])
}

/// A level of detail exports, as `e`.
pub open spec fn lod_exports(e: physis_LOD, l: Lod) -> bool {
    lod_converts(l) && lod_matches(e, l)
}

/// Exports a level of detail; `None` when a part fails.
pub fn to_c_lod(l: &Lod) -> (r: Option<physis_LOD>)
    ensures
        match r {
            None => !lod_converts(*l),
            Some(e) => lod_exports(e, *l),
        },
{
    if l.vertex_elements.len() > u32::MAX as usize || l.parts.len() > u32::MAX as usize {
        return None;
    }
    let mut parts: Vec<physis_Part> = Vec::new();
    let mut k: usize = 0;
    while k < l.parts.len()
        invariant
            k <= l.parts@.len(),
            parts@.len() == k,
            forall|m: int| 0 <= m < k ==> part_exports(#[trigger] parts@[m], l.parts@[m]),
        decreases l.parts@.len() - k,
    {
        match to_c_part(&l.parts[k]) {
            Some(e) => {
                parts.push(e);
                assert(parts@[k as int] == e);
            },
            None => return None,
        }
        k = k + 1;
    }
    assert forall|m: int| 0 <= m < l.parts@.len() implies part_converts(#[trigger] l.parts@[m]) && part_matches(parts@[m], l.parts@[m]) by {
        assert(part_exports(parts@[m], l.parts@[m]));
    }
    let vertex_elements = copy_vec(&l.vertex_elements);
    Some(physis_LOD {
        num_vertex_elements: vertex_elements.len() as u32,
        vertex_elements,
        num_parts: parts.len() as u32,
        parts,
    })
}

/// Every level of detail exports, and their count fits.
pub open spec fn lods_convert(lods: Seq<Lod>) -> bool {
    &&& lods.len() <= u32::MAX
    &&& forall|k: int| 0 <= k < lods.len() ==> lod_converts(#[trigger] lods[k])
}

/// The exported levels of detail carry the decoded ones, in order.
pub open spec fn lods_match(es: Seq<physis_LOD>, lods: Seq<Lod>) -> bool {
    &&& es.len() == lods.len()
    &&& forall|k: int| 0 <= k < lods.len() ==> lod_matches(#[trigger] es[k], lods[k])
}

/// Exports every level of detail of a model; `None` when any fails.
pub fn physis_mdl_update_vertices(lods: &Vec<Lod>) -> (r: Option<Vec<physis_LOD>>)
    ensures
        match r {
            None => !lods_convert(lods@),
            Some(es) => lods_convert(lods@) && lods_match(es@, lods@),
        },
{
    if lods.len() > u32::MAX as usize {
        return None;
    }
    let mut out: Vec<physis_LOD> = Vec::new();
    let mut k: usize = 0;
    while k < lods.len()
        invariant
            k <= lods@.len(),
            out@.len() == k,
            forall|m: int| 0 <= m < k ==> lod_exports(#[trigger] out@[m], lods@[m]),
        decreases lods@.len() - k,
    {
        match to_c_lod(&lods[k]) {
            Some(e) => {
                out.push(e);
                assert(out@[k as int] == e);
            },
            None => return None,
        }
        k = k + 1;
    }
    assert forall|m: int| 0 <= m < lods@.len() implies lod_converts(#[trigger] lods@[m]) && lod_matches(out@[m], lods@[m]) by {
        assert(lod_exports(out@[m], lods@[m]));
    }
    Some(out)
}

/// A model exports: every level of detail and every name does, and the
/// counts fit.
pub open spec fn model_converts(m: Model) -> bool {
    &&& lods_convert(m.lods@)
    &&& m.affected_bone_names@.len() <= u32::MAX
    &&& texts_convert(texts_view(m.affected_bone_names@))
    &&& m.material_names@.len() <= u32::MAX
    &&& texts_convert(texts_view(m.material_names@))
}

/// The exported model carries the decoded one.
pub open spec fn model_matches(e: physis_MDL, m: Model) -> bool {
    &&& e.num_lod as int == m.lods@.len()
    &&& lods_match(e.lods@, m.lods@)
    &&& e.num_affected_bones as int == m.affected_bone_names@.len()
    &&& c_strings_match(e.affected_bone_names@, texts_view(m.affected_bone_names@))
    &&& e.num_material_names as int == m.material_names@.len()
    &&& c_strings_match(e.material_names@, texts_view(m.material_names@))
}

impl physis_MDL {
    /// The sentinel model: nothing in it.
    pub open spec fn is_empty(&self) -> bool {
        &&& self.num_lod == 0 && self.lods@.len() == 0
        &&& self.num_affected_bones == 0 && self.affected_bone_names@.len() == 0
        &&& self.num_material_names == 0 && self.material_names@.len() == 0
    }

    /// The sentinel model.
    pub fn empty() -> (r: physis_MDL)
        ensures
            r.is_empty(),
    {
        physis_MDL {
            num_lod: 0,
            lods: Vec::new(),
            num_affected_bones: 0,
            affected_bone_names: Vec::new(),
            num_material_names: 0,
            material_names: Vec::new(),
        }
    }
}

/// Exports a decoded model; the empty model when anything fails.
pub fn to_c_model(m: &Model) -> (r: physis_MDL)
    ensures
        model_converts(*m) ==> model_matches(r, *m),
        !model_converts(*m) ==> r.is_empty(),
{
    if m.affected_bone_names.len() > u32::MAX as usize || m.material_names.len() > u32::MAX as usize {
        return physis_MDL::empty();
    }
    let lods = match physis_mdl_update_vertices(&m.lods) {
        Some(l) => l,
        None => return physis_MDL::empty(),
    };
    let bones = match to_c_strings(&m.affected_bone_names) {
        Some(b) => b,
        None => return physis_MDL::empty(),
    };
    let materials = match to_c_strings(&m.material_names) {
        Some(n) => n,
        None => return physis_MDL::empty(),
    };
    physis_MDL {
        num_lod: lods.len() as u32,
        lods,
        num_affected_bones: bones.len() as u32,
        affected_bone_names: bones,
        num_material_names: materials.len() as u32,
        material_names: materials,
    }
}

/// What releasing an exported shape destroys: the shape, its name and its
/// vertices.
pub open spec fn shape_cost(e: physis_Shape) -> nat {
    2 + e.morphed_vertices@.len()
}

/// What releasing a stream destroys: the stream and its bytes.
pub open spec fn stream_cost(b: Vec<u8>) -> nat {
    1 + b@.len()
}

/// What releasing an exported part destroys: the part and every element
/// of its arrays.
pub open spec fn part_cost(e: physis_Part) -> nat {
    1 + e.vertices@.len() + sum_of(e.streams@.map_values(|b: Vec<u8>| stream_cost(b))) + e.stream_sizes@.len()
        + e.stream_strides@.len() + e.indices@.len() + e.submeshes@.len()
        + sum_of(e.shapes@.map_values(|s: physis_Shape| shape_cost(s)))
}

/// What releasing an exported level of detail destroys.
pub open spec fn lod_cost(e: physis_LOD) -> nat {
    1 + e.vertex_elements@.len() + sum_of(e.parts@.map_values(|p: physis_Part| part_cost(p)))
}

/// What releasing an exported model destroys: its levels of detail and
/// each name's slot and string.
pub open spec fn model_cost(e: physis_MDL) -> nat {
    sum_of(e.lods@.map_values(|l: physis_LOD| lod_cost(l))) + 2 * e.affected_bone_names@.len()
        + 2 * e.material_names@.len()
}

fn release_streams(streams: Vec<Vec<u8>>) -> (released: usize)
    requires
        sum_of(streams@.map_values(|b: Vec<u8>| stream_cost(b))) <= usize::MAX,
    ensures
        released == sum_of(streams@.map_values(|b: Vec<u8>| stream_cost(b))),
{
    let ghost total = sum_of(streams@.map_values(|b: Vec<u8>| stream_cost(b)));
    let mut list = streams;
    let mut released: usize = 0;
    while list.len() > 0
        invariant
            total <= usize::MAX,
            released + sum_of(list@.map_values(|b: Vec<u8>| stream_cost(b))) == total,
        decreases list@.len(),
    {
        let ghost before = list@;
        let b = list.pop().unwrap();
        assert(before.map_values(|b: Vec<u8>| stream_cost(b)).drop_last() =~= list@.map_values(|b: Vec<u8>| stream_cost(b)));
        released = released + 1 + b.len();
    }
    released
}

fn release_shapes(shapes: Vec<physis_Shape>) -> (released: usize)
    requires
        sum_of(shapes@.map_values(|s: physis_Shape| shape_cost(s))) <= usize::MAX,
    ensures
        released == sum_of(shapes@.map_values(|s: physis_Shape| shape_cost(s))),
{
    let ghost total = sum_of(shapes@.map_values(|s: physis_Shape| shape_cost(s)));
    let mut list = shapes;
    let mut released: usize = 0;
    while list.len() > 0
        invariant
            total <= usize::MAX,
            released + sum_of(list@.map_values(|s: physis_Shape| shape_cost(s))) == total,
        decreases list@.len(),
    {
        let ghost before = list@;
        let s = list.pop().unwrap();
        assert(before.map_values(|s: physis_Shape| shape_cost(s)).drop_last()
            =~= list@.map_values(|s: physis_Shape| shape_cost(s)));
        released = released + 1 + ffi_free_string(Some(s.name)) + s.morphed_vertices.len();
    }
    released
}

fn release_part(p: physis_Part) -> (released: usize)
    requires
        part_cost(p) <= usize::MAX,
    ensures
        released == part_cost(p),
{
    let flat = p.vertices.len() + p.stream_sizes.len() + p.stream_strides.len() + p.indices.len()
        + p.submeshes.len();
    let streams = release_streams(p.streams);
    let shapes = release_shapes(p.shapes);
    1 + flat + streams + shapes
}

fn release_parts(parts: Vec<physis_Part>) -> (released: usize)
    requires
        sum_of(parts@.map_values(|p: physis_Part| part_cost(p))) <= usize::MAX,
    ensures
        released == sum_of(parts@.map_values(|p: physis_Part| part_cost(p))),
{
    let ghost total = sum_of(parts@.map_values(|p: physis_Part| part_cost(p)));
    let mut list = parts;
    let mut released: usize = 0;
    while list.len() > 0
        invariant
            total <= usize::MAX,
            released + sum_of(list@.map_values(|p: physis_Part| part_cost(p))) == total,
        decreases list@.len(),
    {
        let ghost before = list@;
        let p = list.pop().unwrap();
        assert(before.map_values(|p: physis_Part| part_cost(p)).drop_last()
            =~= list@.map_values(|p: physis_Part| part_cost(p)));
        released = released + release_part(p);
    }
    released
}

fn release_names(names: Vec<Vec<u8>>) -> (released: usize)
    requires
        2 * names@.len() <= usize::MAX,
    ensures
        released == 2 * names@.len(),
{
    let ghost total = names@.len();
    let mut list = names;
    let mut released: usize = 0;
    while list.len() > 0
        invariant
            2 * total <= usize::MAX,
            released + 2 * list@.len() == 2 * total,
        decreases list@.len(),
    {
        let n = list.pop().unwrap();
        released = released + 1 + ffi_free_string(Some(n));
    }
    released
}

/// Releases an exported model and everything it holds, returning how many
/// elements were destroyed. The sentinel releases nothing.
pub fn physis_mdl_free(mdl: physis_MDL) -> (released: usize)
    requires
        model_cost(mdl) <= usize::MAX,
    ensures
        released == model_cost(mdl),
{
    let bones = release_names(mdl.affected_bone_names);
    let materials = release_names(mdl.material_names);
    let ghost total = sum_of(mdl.lods@.map_values(|l: physis_LOD| lod_cost(l)));
    let mut lods = mdl.lods;
    let mut released: usize = 0;
    while lods.len() > 0
        invariant
            total + bones + materials <= usize::MAX,
            released + sum_of(lods@.map_values(|l: physis_LOD| lod_cost(l))) == total,
        decreases lods@.len(),
    {
        let ghost before = lods@;
        let l = lods.pop().unwrap();
        assert(before.map_values(|l: physis_LOD| lod_cost(l)).drop_last() =~= lods@.map_values(|l: physis_LOD| lod_cost(l)));
        released = released + 1 + l.vertex_elements.len() + release_parts(l.parts);
    }
    released + bones + materials
}

} // verus!
