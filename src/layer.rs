//! Layer groups: chunks of layers of placed objects, each object's kind
//! exported as a closed tagged union with an arm for kinds not carried.

use vstd::prelude::*;
use crate::buffer::{c_string_of, ffi_free_string, ffi_to_c_string, no_nul};
use crate::release::sum_of;

verus! {

/// The base of a placed game object.
#[derive(Clone, Copy, PartialEq, Eq, Structural, Debug)]
pub struct physis_GameInstanceObject {
    pub base_id: u32,
}

/// An event object.
#[derive(Clone, Copy, PartialEq, Eq, Structural, Debug)]
pub struct physis_EventInstanceObject {
    pub parent_data: physis_GameInstanceObject,
    pub bound_instance_id: u32,
    pub linked_instance_id: u32,
}

/// A spawn range; `pop_type` is the decoder's code for the spawn kind.
#[derive(Clone, Copy, PartialEq, Eq, Structural, Debug)]
pub struct physis_PopRangeInstanceObject {
    pub pop_type: i32,
    pub index: u8,
}

/// The part every placed character shares.
#[derive(Clone, Copy, PartialEq, Eq, Structural, Debug)]
pub struct physis_NPCInstanceObject {
    pub parent_data: physis_GameInstanceObject,
    pub pop_weather: u32,
    pub pop_time_start: u8,
    pub pop_time_end: u8,
    pub move_ai: u32,
    pub wandering_range: u8,
    pub route: u8,
    pub event_group: u16,
}

/// An event character.
#[derive(Clone, Copy, PartialEq, Eq, Structural, Debug)]
pub struct physis_ENPCInstanceObject {
    pub parent_data: physis_NPCInstanceObject,
    pub behavior: u32,
}

/// A trigger volume; `trigger_box_shape` is the decoder's shape code.
#[derive(Clone, Copy, PartialEq, Eq, Structural, Debug)]
pub struct physis_TriggerBoxInstanceObject {
    pub trigger_box_shape: i32,
    pub priority: i16,
    pub enabled: bool,
}

/// A map range.
#[derive(Clone, Copy, PartialEq, Eq, Structural, Debug)]
pub struct physis_MapRangeInstanceObject {
    pub parent_data: physis_TriggerBoxInstanceObject,
    pub place_name_block: u32,
    pub place_name_spot: u32,
    pub rest_bonus_effective: bool,
    pub discovery_id: u8,
    pub place_name_enabled: bool,
    pub discovery_enabled: bool,
    pub rest_bonus_enabled: bool,
}

/// A decoded background model: its two asset paths.
pub struct BgObject {
    pub asset_path: Vec<u8>,
    pub collision_asset_path: Vec<u8>,
}

/// An exported background model: its two paths, null-terminated.
pub struct physis_BGInstanceObject {
    pub asset_path: Vec<u8>,
    pub collision_asset_path: Vec<u8>,
}

/// A decoded object kind; `Other` stands for every kind the export does
/// not carry.
pub enum LayerEntryData {
    BG(BgObject),
    EventObject(physis_EventInstanceObject),
    PopRange(physis_PopRangeInstanceObject),
    EventNPC(physis_ENPCInstanceObject),
    MapRange(physis_MapRangeInstanceObject),
    Other,
}

/// The exported object kind; `Unhandled` is the arm for kinds not carried.
pub enum physis_LayerEntry {
    Unhandled,
    BG(physis_BGInstanceObject),
    EventObject(physis_EventInstanceObject),
    PopRange(physis_PopRangeInstanceObject),
    EventNPC(physis_ENPCInstanceObject),
    MapRange(physis_MapRangeInstanceObject),
}

/// A decoded placed object; its transform is nine floats as bit patterns.
pub struct InstanceObject {
    pub instance_id: u32,
    pub name: Vec<u8>,
    pub transform: [u32; 9],
    pub data: LayerEntryData,
}

/// A decoded layer.
pub struct Layer {
    pub name: Vec<u8>,
    pub id: u32,
    pub festival_id: u16,
    pub festival_phase_id: u16,
    pub objects: Vec<InstanceObject>,
}

/// A decoded chunk of layers.
pub struct LayerChunk {
    pub layers: Vec<Layer>,
}

/// An exported placed object.
pub struct physis_InstanceObject {
    pub instance_id: u32,
    pub name: Vec<u8>,
    pub transform: [u32; 9],
    pub data: physis_LayerEntry,
}

/// An exported layer.
pub struct physis_Layer {
    pub objects: Vec<physis_InstanceObject>,
    pub num_objects: u32,
    pub name: Vec<u8>,
    pub id: u32,
    pub festival_id: u16,
    pub festival_phase_id: u16,
}

/// An exported chunk.
pub struct physis_LayerChunk {
    pub layers: Vec<physis_Layer>,
    pub num_layers: u32,
}

/// An exported layer group.
pub struct physis_LayerGroup {
    pub chunks: Vec<physis_LayerChunk>,
    pub num_chunks: u32,
}

/// The discriminant a decoded kind exports with.
pub open spec fn entry_tag(d: LayerEntryData) -> u32 {
    match d {
        LayerEntryData::Other => 0,
        LayerEntryData::BG(_) => 1,
        LayerEntryData::EventObject(_) => 2,
        LayerEntryData::PopRange(_) => 3,
        LayerEntryData::EventNPC(_) => 4,
        LayerEntryData::MapRange(_) => 5,
    }
}

/// The discriminant of an exported kind.
pub open spec fn c_entry_tag(e: physis_LayerEntry) -> u32 {
    match e {
        physis_LayerEntry::Unhandled => 0,
        physis_LayerEntry::BG(_) => 1,
        physis_LayerEntry::EventObject(_) => 2,
        physis_LayerEntry::PopRange(_) => 3,
        physis_LayerEntry::EventNPC(_) => 4,
        physis_LayerEntry::MapRange(_) => 5,
    }
}

impl physis_LayerEntry {
    /// The discriminant shared by construction and release.
    pub fn discriminant(&self) -> (r: u32)
        ensures
            r == c_entry_tag(*self),
    {
        match self {
            physis_LayerEntry::Unhandled => 0,
            physis_LayerEntry::BG(_) => 1,
            physis_LayerEntry::EventObject(_) => 2,
            physis_LayerEntry::PopRange(_) => 3,
            physis_LayerEntry::EventNPC(_) => 4,
            physis_LayerEntry::MapRange(_) => 5,
        }
    }
}

/// A decoded kind exports: its paths hold no NUL byte.
pub open spec fn entry_converts(d: LayerEntryData) -> bool {
    match d {
        LayerEntryData::BG(bg) => no_nul(bg.asset_path@) && no_nul(bg.collision_asset_path@),
        _ => true,
    }
}

/// The exported kind carries the decoded kind's discriminant and payload.
pub open spec fn entry_matches(e: physis_LayerEntry, d: LayerEntryData) -> bool {
    c_entry_tag(e) == entry_tag(d) && match (d, e) {
        (LayerEntryData::BG(a), physis_LayerEntry::BG(b)) => c_string_of(a.asset_path@) == Some(b.asset_path@)
            && c_string_of(a.collision_asset_path@) == Some(b.collision_asset_path@),
        (LayerEntryData::EventObject(a), physis_LayerEntry::EventObject(b)) => a == b,
        (LayerEntryData::PopRange(a), physis_LayerEntry::PopRange(b)) => a == b,
        (LayerEntryData::EventNPC(a), physis_LayerEntry::EventNPC(b)) => a == b,
        (LayerEntryData::MapRange(a), physis_LayerEntry::MapRange(b)) => a == b,
        (LayerEntryData::Other, physis_LayerEntry::Unhandled) => true,
        _ => false,
    }
}

/// Exports an object kind; `None` when a path holds a NUL byte.
pub fn convert_data(d: &LayerEntryData) -> (r: Option<physis_LayerEntry>)
    ensures
        match r {
            None => !entry_converts(*d),
            Some(e) => entry_converts(*d) && entry_matches(e, *d),
        },
{
    match d {
        LayerEntryData::BG(bg) => {
            let asset_path = match ffi_to_c_string(&bg.asset_path) {
                Some(p) => p,
                None => return None,
            };
            let collision_asset_path = match ffi_to_c_string(&bg.collision_asset_path) {
                Some(p) => p,
                None => return None,
            };
            Some(physis_LayerEntry::BG(physis_BGInstanceObject { asset_path, collision_asset_path }))
        },
        LayerEntryData::EventObject(o) => Some(physis_LayerEntry::EventObject(*o)),
        LayerEntryData::PopRange(o) => Some(physis_LayerEntry::PopRange(*o)),
        LayerEntryData::EventNPC(o) => Some(physis_LayerEntry::EventNPC(*o)),
        LayerEntryData::MapRange(o) => Some(physis_LayerEntry::MapRange(*o)),
        LayerEntryData::Other => Some(physis_LayerEntry::Unhandled),
    }
}

/// A decoded object exports.
pub open spec fn object_converts(o: InstanceObject) -> bool {
    no_nul(o.name@) && entry_converts(o.data)
}

/// The exported object carries the decoded one.
pub open spec fn object_matches(e: physis_InstanceObject, o: InstanceObject) -> bool {
    &&& e.instance_id == o.instance_id
    &&& c_string_of(o.name@) == Some(e.name@)
    &&& e.transform == o.transform
    &&& entry_matches(e.data, o.data)
}

/// A decoded object exports, as `e`.
pub open spec fn object_exports(e: physis_InstanceObject, o: InstanceObject) -> bool {
    object_converts(o) && object_matches(e, o)
}

/// Exports a placed object; `None` when its name or a path holds a NUL byte.
pub fn to_c_object(o: &InstanceObject) -> (r: Option<physis_InstanceObject>)
    ensures
        match r {
            None => !object_converts(*o),
            Some(e) => object_converts(*o) && object_matches(e, *o),
        },
{
    let name = match ffi_to_c_string(&o.name) {
        Some(n) => n,
        None => return None,
    };
    let data = match convert_data(&o.data) {
        Some(d) => d,
        None => return None,
    };
    Some(physis_InstanceObject { instance_id: o.instance_id, name, transform: o.transform, data })
}

/// A decoded layer exports: its name, its count and every object.
pub open spec fn layer_converts(l: Layer) -> bool {
    &&& no_nul(l.name@)
    &&& l.objects@.len() <= u32::MAX
    &&& forall|k: int| 0 <= k < l.objects@.len() ==> object_converts(#[trigger] l.objects@[k])
}

/// The exported layer carries the decoded one.
pub open spec fn layer_matches(e: physis_Layer, l: Layer) -> bool {
    &&& c_string_of(l.name@) == Some(e.name@)
    &&& e.id == l.id
    &&& e.festival_id == l.festival_id
    &&& e.festival_phase_id == l.festival_phase_id
    &&& e.num_objects as int == l.objects@.len()
    &&& e.objects@.len() == l.objects@.len()
    &&& forall|k: int| 0 <= k < l.objects@.len() ==> object_matches(#[trigger] e.objects@[k], l.objects@[k])
}

/// A decoded layer exports, as `e`.
pub open spec fn layer_exports(e: physis_Layer, l: Layer) -> bool {
    layer_converts(l) && layer_matches(e, l)
}

/// Exports a layer; `None` when anything in it fails.
pub fn to_c_layer(l: &Layer) -> (r: Option<physis_Layer>)
    ensures
        match r {
            None => !layer_converts(*l),
            Some(e) => layer_converts(*l) && layer_matches(e, *l),
        },
{
    if l.objects.len() > u32::MAX as usize {
        return None;
    }
    let name = match ffi_to_c_string(&l.name) {
        Some(n) => n,
        None => return None,
    };
    let mut objects: Vec<physis_InstanceObject> = Vec::new();
    let mut k: usize = 0;
    while k < l.objects.len()
        invariant
            k <= l.objects@.len(),
            objects@.len() == k,
            forall|m: int| 0 <= m < k ==> object_exports(#[trigger] objects@[m], l.objects@[m]),
        decreases l.objects@.len() - k,
    {
        match to_c_object(&l.objects[k]) {
            Some(e) => {
                objects.push(e);
                assert(objects@[k as int] == e);
                assert(object_exports(objects@[k as int], l.objects@[k as int]));
            },
            None => return None,
        }
        k = k + 1;
    }
    assert forall|m: int| 0 <= m < l.objects@.len() implies object_converts(#[trigger] l.objects@[m]) by {
        assert(object_exports(objects@[m], l.objects@[m]));
    }
    assert forall|m: int| 0 <= m < l.objects@.len() implies object_matches(#[trigger] objects@[m], l.objects@[m]) by {
        assert(object_exports(objects@[m], l.objects@[m]));
    }
    let num_objects = objects.len() as u32;
    Some(physis_Layer {
        objects,
        num_objects,
        name,
        id: l.id,
        festival_id: l.festival_id,
        festival_phase_id: l.festival_phase_id,
    })
}

/// A decoded chunk exports.
pub open spec fn chunk_converts(c: LayerChunk) -> bool {
    &&& c.layers@.len() <= u32::MAX
    &&& forall|k: int| 0 <= k < c.layers@.len() ==> layer_converts(#[trigger] c.layers@[k])
}

/// The exported chunk carries the decoded one.
pub open spec fn chunk_matches(e: physis_LayerChunk, c: LayerChunk) -> bool {
    &&& e.num_layers as int == c.layers@.len()
    &&& e.layers@.len() == c.layers@.len()
    &&& forall|k: int| 0 <= k < c.layers@.len() ==> layer_matches(#[trigger] e.layers@[k], c.layers@[k])
}

/// A decoded chunk exports, as `e`.
pub open spec fn chunk_exports(e: physis_LayerChunk, c: LayerChunk) -> bool {
    chunk_converts(c) && chunk_matches(e, c)
}

/// Exports a chunk; `None` when anything in it fails.
pub fn to_c_chunk(c: &LayerChunk) -> (r: Option<physis_LayerChunk>)
    ensures
        match r {
            None => !chunk_converts(*c),
            Some(e) => chunk_converts(*c) && chunk_matches(e, *c),
        },
{
    if c.layers.len() > u32::MAX as usize {
        return None;
    }
    let mut layers: Vec<physis_Layer> = Vec::new();
    let mut k: usize = 0;
    while k < c.layers.len()
        invariant
            k <= c.layers@.len(),
            layers@.len() == k,
            forall|m: int| 0 <= m < k ==> layer_exports(#[trigger] layers@[m], c.layers@[m]),
        decreases c.layers@.len() - k,
    {
        match to_c_layer(&c.layers[k]) {
            Some(e) => {
                layers.push(e);
                assert(layers@[k as int] == e);
                assert(layer_exports(layers@[k as int], c.layers@[k as int]));
            },
            None => return None,
        }
        k = k + 1;
    }
    assert forall|m: int| 0 <= m < c.layers@.len() implies layer_converts(#[trigger] c.layers@[m]) by {
        assert(layer_exports(layers@[m], c.layers@[m]));
    }
    assert forall|m: int| 0 <= m < c.layers@.len() implies layer_matches(#[trigger] layers@[m], c.layers@[m]) by {
        assert(layer_exports(layers@[m], c.layers@[m]));
    }
    let num_layers = layers.len() as u32;
    Some(physis_LayerChunk { layers, num_layers })
}

/// Every chunk of a group exports.
pub open spec fn group_converts(chunks: Seq<LayerChunk>) -> bool {
    &&& chunks.len() <= u32::MAX
    &&& forall|k: int| 0 <= k < chunks.len() ==> chunk_converts(#[trigger] chunks[k])
}

/// The exported group carries the decoded chunks.
pub open spec fn group_matches(e: physis_LayerGroup, chunks: Seq<LayerChunk>) -> bool {
    &&& e.num_chunks as int == chunks.len()
    &&& e.chunks@.len() == chunks.len()
    &&& forall|k: int| 0 <= k < chunks.len() ==> chunk_matches(#[trigger] e.chunks@[k], chunks[k])
}

impl physis_LayerGroup {
    /// The sentinel group: no chunks.
    pub open spec fn is_empty(&self) -> bool {
        self.num_chunks == 0 && self.chunks@.len() == 0
    }

    /// The sentinel group.
    pub fn empty() -> (r: physis_LayerGroup)
        ensures
            r.is_empty(),
    {
        physis_LayerGroup { chunks: Vec::new(), num_chunks: 0 }
    }
}

impl Default for physis_LayerGroup {
    fn default() -> (r: physis_LayerGroup)
        ensures
            r.is_empty(),
    {
        physis_LayerGroup::empty()
    }
}

/// Exports decoded chunks as a layer group; if anything fails, the whole
/// group is the empty sentinel.
pub fn to_c_layer_group(chunks: &Vec<LayerChunk>) -> (r: physis_LayerGroup)
    ensures
        group_converts(chunks@) ==> group_matches(r, chunks@),
        !group_converts(chunks@) ==> r.is_empty(),
{
    if chunks.len() > u32::MAX as usize {
        return physis_LayerGroup::empty();
    }
    let mut out: Vec<physis_LayerChunk> = Vec::new();
    let mut k: usize = 0;
    while k < chunks.len()
        invariant
            chunks@.len() <= u32::MAX,
            k <= chunks@.len(),
            out@.len() == k,
            forall|m: int| 0 <= m < k ==> chunk_exports(#[trigger] out@[m], chunks@[m]),
        decreases chunks@.len() - k,
    {
        match to_c_chunk(&chunks[k]) {
            Some(e) => {
                out.push(e);
                assert(out@[k as int] == e);
                assert(chunk_exports(out@[k as int], chunks@[k as int]));
            },
            None => return physis_LayerGroup::empty(),
        }
        k = k + 1;
    }
    assert forall|m: int| 0 <= m < chunks@.len() implies chunk_converts(#[trigger] chunks@[m]) by {
        assert(chunk_exports(out@[m], chunks@[m]));
    }
    assert forall|m: int| 0 <= m < chunks@.len() implies chunk_matches(#[trigger] out@[m], chunks@[m]) by {
        assert(chunk_exports(out@[m], chunks@[m]));
    }
    let num_chunks = out.len() as u32;
    physis_LayerGroup { chunks: out, num_chunks }
}

/// What releasing an exported kind destroys beyond the object: its strings.
pub open spec fn c_entry_cost(e: physis_LayerEntry) -> nat {
    match e {
        physis_LayerEntry::BG(_) => 2,
        _ => 0,
    }
}

/// What releasing an exported object destroys: the object, its name and
/// its kind's strings.
pub open spec fn c_object_cost(o: physis_InstanceObject) -> nat {
    2 + c_entry_cost(o.data)
}

/// What releasing an exported layer destroys: the layer, its name and its
/// objects.
pub open spec fn c_layer_cost(l: physis_Layer) -> nat {
    2 + sum_of(l.objects@.map_values(|o: physis_InstanceObject| c_object_cost(o)))
}

/// What releasing an exported chunk destroys: the chunk and its layers.
pub open spec fn c_chunk_cost(c: physis_LayerChunk) -> nat {
    1 + sum_of(c.layers@.map_values(|l: physis_Layer| c_layer_cost(l)))
}

/// What releasing an exported group destroys.
pub open spec fn group_cost(g: physis_LayerGroup) -> nat {
    sum_of(g.chunks@.map_values(|c: physis_LayerChunk| c_chunk_cost(c)))
}

/// What dropping a decoded kind destroys beyond the object: its strings.
pub open spec fn entry_cost(d: LayerEntryData) -> nat {
    match d {
        LayerEntryData::BG(_) => 2,
        _ => 0,
    }
}

/// What dropping a decoded object destroys.
pub open spec fn object_cost(o: InstanceObject) -> nat {
    2 + entry_cost(o.data)
}

/// What dropping a decoded layer destroys.
pub open spec fn layer_cost(l: Layer) -> nat {
    2 + sum_of(l.objects@.map_values(|o: InstanceObject| object_cost(o)))
}

/// What dropping a decoded chunk destroys.
pub open spec fn chunk_cost(c: LayerChunk) -> nat {
    1 + sum_of(c.layers@.map_values(|l: Layer| layer_cost(l)))
}

/// What dropping decoded chunks destroys.
pub open spec fn chunks_cost(chunks: Seq<LayerChunk>) -> nat {
    sum_of(chunks.map_values(|c: LayerChunk| chunk_cost(c)))
}

fn release_object(o: physis_InstanceObject) -> (released: usize)
    ensures
        released == c_object_cost(o),
{
    let strings: usize = match o.data {
        physis_LayerEntry::BG(bg) => ffi_free_string(Some(bg.asset_path)) + ffi_free_string(Some(bg.collision_asset_path)),
        _ => 0,
    };
    1 + ffi_free_string(Some(o.name)) + strings
}

fn release_objects(objects: Vec<physis_InstanceObject>) -> (released: usize)
    requires
        sum_of(objects@.map_values(|o: physis_InstanceObject| c_object_cost(o))) <= usize::MAX,
    ensures
        released == sum_of(objects@.map_values(|o: physis_InstanceObject| c_object_cost(o))),
{
    let ghost total = sum_of(objects@.map_values(|o: physis_InstanceObject| c_object_cost(o)));
    let mut objects = objects;
    let mut released: usize = 0;
    while objects.len() > 0
        invariant
            total <= usize::MAX,
            released + sum_of(objects@.map_values(|o: physis_InstanceObject| c_object_cost(o))) == total,
        decreases objects@.len(),
    {
        let ghost before = objects@;
        let o = objects.pop().unwrap();
        assert(before.map_values(|o: physis_InstanceObject| c_object_cost(o)).drop_last()
            =~= objects@.map_values(|o: physis_InstanceObject| c_object_cost(o)));
        released = released + release_object(o);
    }
    released
}

pub(crate) fn release_layers(layers: Vec<physis_Layer>) -> (released: usize)
    requires
        sum_of(layers@.map_values(|l: physis_Layer| c_layer_cost(l))) <= usize::MAX,
    ensures
        released == sum_of(layers@.map_values(|l: physis_Layer| c_layer_cost(l))),
{
    let ghost total = sum_of(layers@.map_values(|l: physis_Layer| c_layer_cost(l)));
    let mut layers = layers;
    let mut released: usize = 0;
    while layers.len() > 0
        invariant
            total <= usize::MAX,
            released + sum_of(layers@.map_values(|l: physis_Layer| c_layer_cost(l))) == total,
        decreases layers@.len(),
    {
        let ghost before = layers@;
        let l = layers.pop().unwrap();
        assert(before.map_values(|l: physis_Layer| c_layer_cost(l)).drop_last()
            =~= layers@.map_values(|l: physis_Layer| c_layer_cost(l)));
        released = released + 1 + ffi_free_string(Some(l.name)) + release_objects(l.objects);
    }
    released
}

/// Releases an exported layer group and everything it holds, returning how
/// many elements were destroyed. The sentinel releases nothing.
pub fn physis_layergroup_free(group: physis_LayerGroup) -> (released: usize)
    requires
        group_cost(group) <= usize::MAX,
    ensures
        released == group_cost(group),
{
    let ghost total = group_cost(group);
    let mut chunks = group.chunks;
    let mut released: usize = 0;
    while chunks.len() > 0
        invariant
            total <= usize::MAX,
            released + sum_of(chunks@.map_values(|c: physis_LayerChunk| c_chunk_cost(c))) == total,
        decreases chunks@.len(),
    {
        let ghost before = chunks@;
        let c = chunks.pop().unwrap();
        assert(before.map_values(|c: physis_LayerChunk| c_chunk_cost(c)).drop_last()
            =~= chunks@.map_values(|c: physis_LayerChunk| c_chunk_cost(c)));
        released = released + 1 + release_layers(c.layers);
    }
    released
}

proof fn lemma_layer_cost(e: physis_Layer, l: Layer)
    requires
        layer_matches(e, l),
    ensures
        c_layer_cost(e) == layer_cost(l),
{
    assert forall|k: int| 0 <= k < l.objects@.len() implies c_object_cost(#[trigger] e.objects@[k])
        == object_cost(l.objects@[k]) by {
        assert(object_matches(e.objects@[k], l.objects@[k]));
    }
    assert(e.objects@.map_values(|o: physis_InstanceObject| c_object_cost(o))
        =~= l.objects@.map_values(|o: InstanceObject| object_cost(o)));
}

proof fn lemma_chunk_cost(e: physis_LayerChunk, c: LayerChunk)
    requires
        chunk_matches(e, c),
    ensures
        c_chunk_cost(e) == chunk_cost(c),
{
    assert forall|k: int| 0 <= k < c.layers@.len() implies c_layer_cost(#[trigger] e.layers@[k])
        == layer_cost(c.layers@[k]) by {
        lemma_layer_cost(e.layers@[k], c.layers@[k]);
    }
    assert(e.layers@.map_values(|l: physis_Layer| c_layer_cost(l)) =~= c.layers@.map_values(|l: Layer| layer_cost(l)));
}

/// Releasing a layer group exported from decoded chunks destroys exactly as
/// many elements as dropping those chunks would.
pub proof fn lemma_group_release_matches_drop(chunks: Seq<LayerChunk>, g: physis_LayerGroup)
    requires
        group_converts(chunks),
        group_matches(g, chunks),
    ensures
        group_cost(g) == chunks_cost(chunks),
{
    assert forall|k: int| 0 <= k < chunks.len() implies c_chunk_cost(#[trigger] g.chunks@[k]) == chunk_cost(chunks[k]) by {
        lemma_chunk_cost(g.chunks@[k], chunks[k]);
    }
    assert(g.chunks@.map_values(|c: physis_LayerChunk| c_chunk_cost(c))
        =~= chunks.map_values(|c: LayerChunk| chunk_cost(c)));
}

/// The empty group is a valid input to its release call, which destroys
/// nothing.
pub proof fn lemma_empty_group_release(g: physis_LayerGroup)
    requires
        g.is_empty(),
    ensures
        group_cost(g) == 0,
{
    assert(g.chunks@.map_values(|c: physis_LayerChunk| c_chunk_cost(c)) =~= Seq::<nat>::empty());
}

} // verus!
