//! Scene sections, as embedded in shared groups and levels: their layer
//! groups, background path, timelines and layer group paths, each exported
//! with the conversions of the layer and timeline modules.

use vstd::prelude::*;
use crate::buffer::{c_string_of, c_strings_match, copy_vec, ffi_free_string, ffi_to_c_string, no_nul, texts_convert, texts_view, to_c_strings};
use crate::layer::{Layer, c_layer_cost, layer_converts, layer_exports, layer_matches, physis_Layer, release_layers, to_c_layer};
use crate::release::sum_of;
use crate::tmb::{
    TimelineNodeData, check_timeline_fits, physis_Tmb, physis_tmb_free, timeline_fits, timeline_matches, tmb_cost,
    to_c_tmb,
};

verus! {

/// Where a timeline plays: an actor node's time and an object's id.
#[derive(Clone, Copy, PartialEq, Eq, Structural, Debug)]
pub struct ScnTimelineInstance {
    pub tmac_time: i32,
    pub instance_id: i32,
}

/// A decoded embedded timeline and where it plays.
pub struct ScnTimeline {
    pub nodes: Vec<TimelineNodeData>,
    pub instances: Vec<ScnTimelineInstance>,
}

/// A decoded layer group of a section.
pub struct ScnLayerGroup {
    pub layer_group_id: u32,
    pub name: Vec<u8>,
    pub layers: Vec<Layer>,
}

/// A decoded scene section.
pub struct ScnSection {
    pub layer_groups: Vec<ScnLayerGroup>,
    pub bg_path: Vec<u8>,
    pub timelines: Vec<ScnTimeline>,
    pub lgb_paths: Vec<Vec<u8>>,
}

/// An exported layer group of a section.
pub struct physis_ScnLayerGroup {
    pub layer_group_id: u32,
    pub name: Vec<u8>,
    pub layer_count: u32,
    pub layers: Vec<physis_Layer>,
}

/// The exported general part of a section.
pub struct physis_ScnGeneralSection {
    pub bg_path: Vec<u8>,
}

/// An exported embedded timeline.
pub struct physis_ScnTimeline {
    pub tmb: physis_Tmb,
    pub instance_count: u32,
    pub instances: Vec<ScnTimelineInstance>,
}

/// The exported timelines of a section.
pub struct physis_ScnTimelinesSection {
    pub timeline_count: u32,
    pub timelines: Vec<physis_ScnTimeline>,
}

/// An exported scene section.
pub struct physis_ScnSection {
    pub num_layer_groups: u32,
    pub layer_groups: Vec<physis_ScnLayerGroup>,
    pub general: physis_ScnGeneralSection,
    pub timelines: physis_ScnTimelinesSection,
    pub num_lgb_paths: u32,
    pub lgb_paths: Vec<Vec<u8>>,
}

/// A decoded layer group exports.
pub open spec fn scn_group_converts(g: ScnLayerGroup) -> bool {
    &&& no_nul(g.name@)
    &&& g.layers@.len() <= u32::MAX
    &&& forall|k: int| 0 <= k < g.layers@.len() ==> layer_converts(#[trigger] g.layers@[k])
}

/// The exported layer group carries the decoded one.
pub open spec fn scn_group_matches(e: physis_ScnLayerGroup, g: ScnLayerGroup) -> bool {
    &&& e.layer_group_id == g.layer_group_id
    &&& c_string_of(g.name@) == Some(e.name@)
    &&& e.layer_count as int == g.layers@.len()
    &&& e.layers@.len() == g.layers@.len()
    &&& forall|k: int| 0 <= k < g.layers@.len() ==> layer_matches(#[trigger] e.layers@[k], g.layers@[k])
}

/// A decoded layer group exports, as `e`.
pub open spec fn scn_group_exports(e: physis_ScnLayerGroup, g: ScnLayerGroup) -> bool {
    scn_group_converts(g) && scn_group_matches(e, g)
}

/// Exports a section's layer group; `None` when anything in it fails.
pub fn to_c_scn_layer_group(g: &ScnLayerGroup) -> (r: Option<physis_ScnLayerGroup>)
    ensures
        match r {
            None => !scn_group_converts(*g),
            Some(e) => scn_group_exports(e, *g),
        },
{
    if g.layers.len() > u32::MAX as usize {
        return None;
    }
    let name = match ffi_to_c_string(&g.name) {
        Some(n) => n,
        None => return None,
    };
    let mut layers: Vec<physis_Layer> = Vec::new();
    let mut k: usize = 0;
    while k < g.layers.len()
        invariant
            k <= g.layers@.len(),
            layers@.len() == k,
            forall|m: int| 0 <= m < k ==> layer_exports(#[trigger] layers@[m], g.layers@[m]),
        decreases g.layers@.len() - k,
    {
        match to_c_layer(&g.layers[k]) {
            Some(e) => {
                layers.push(e);
                assert(layers@[k as int] == e);
                assert(layer_exports(layers@[k as int], g.layers@[k as int]));
            },
            None => return None,
        }
        k = k + 1;
    }
    assert forall|m: int| 0 <= m < g.layers@.len() implies layer_converts(#[trigger] g.layers@[m]) by {
        assert(layer_exports(layers@[m], g.layers@[m]));
    }
    assert forall|m: int| 0 <= m < g.layers@.len() implies layer_matches(#[trigger] layers@[m], g.layers@[m]) by {
        assert(layer_exports(layers@[m], g.layers@[m]));
    }
    let layer_count = layers.len() as u32;
    Some(physis_ScnLayerGroup { layer_group_id: g.layer_group_id, name, layer_count, layers })
}

/// A decoded timeline's counts fit the exported counts.
pub open spec fn scn_timeline_converts(t: ScnTimeline) -> bool {
    timeline_fits(t.nodes@) && t.instances@.len() <= u32::MAX
}

/// The exported timeline carries the decoded one.
pub open spec fn scn_timeline_matches(e: physis_ScnTimeline, t: ScnTimeline) -> bool {
    &&& timeline_matches(e.tmb, t.nodes@)
    &&& e.instance_count as int == t.instances@.len()
    &&& e.instances@ == t.instances@
}

/// A decoded timeline exports, as `e`.
pub open spec fn scn_timeline_exports(e: physis_ScnTimeline, t: ScnTimeline) -> bool {
    scn_timeline_converts(t) && scn_timeline_matches(e, t)
}

/// Exports an embedded timeline; `None` when a count does not fit.
pub fn to_c_timeline(t: &ScnTimeline) -> (r: Option<physis_ScnTimeline>)
    ensures
        match r {
            None => !scn_timeline_converts(*t),
            Some(e) => scn_timeline_exports(e, *t),
        },
{
    if !check_timeline_fits(&t.nodes) || t.instances.len() > u32::MAX as usize {
        return None;
    }
    let tmb = to_c_tmb(&t.nodes);
    let instances = copy_vec(&t.instances);
    let instance_count = instances.len() as u32;
    Some(physis_ScnTimeline { tmb, instance_count, instances })
}

/// A decoded section exports: every part, and every count fits.
pub open spec fn section_converts(s: ScnSection) -> bool {
    &&& s.layer_groups@.len() <= u32::MAX
    &&& forall|k: int| 0 <= k < s.layer_groups@.len() ==> scn_group_converts(#[trigger] s.layer_groups@[k])
    &&& no_nul(s.bg_path@)
    &&& s.timelines@.len() <= u32::MAX
    &&& forall|k: int| 0 <= k < s.timelines@.len() ==> scn_timeline_converts(#[trigger] s.timelines@[k])
    &&& s.lgb_paths@.len() <= u32::MAX
    &&& texts_convert(texts_view(s.lgb_paths@))
}

/// The exported section carries the decoded one, part by part, in order.
pub open spec fn section_matches(e: physis_ScnSection, s: ScnSection) -> bool {
    &&& e.num_layer_groups as int == s.layer_groups@.len()
    &&& e.layer_groups@.len() == s.layer_groups@.len()
    &&& forall|k: int| 0 <= k < s.layer_groups@.len() ==> scn_group_matches(#[trigger] e.layer_groups@[k], s.layer_groups@[k])
    &&& c_string_of(s.bg_path@) == Some(e.general.bg_path@)
    &&& e.timelines.timeline_count as int == s.timelines@.len()
    &&& e.timelines.timelines@.len() == s.timelines@.len()
    &&& forall|k: int| 0 <= k < s.timelines@.len() ==> scn_timeline_matches(#[trigger] e.timelines.timelines@[k], s.timelines@[k])
    &&& e.num_lgb_paths as int == s.lgb_paths@.len()
    &&& c_strings_match(e.lgb_paths@, texts_view(s.lgb_paths@))
}

/// A decoded section exports, as `e`.
pub open spec fn section_exports(e: physis_ScnSection, s: ScnSection) -> bool {
    section_converts(s) && section_matches(e, s)
}

/// Exports a scene section; `None` when any part of it fails.
pub fn to_c_section(s: &ScnSection) -> (r: Option<physis_ScnSection>)
    ensures
        match r {
            None => !section_converts(*s),
            Some(e) => section_exports(e, *s),
        },
{
    if s.layer_groups.len() > u32::MAX as usize || s.timelines.len() > u32::MAX as usize
        || s.lgb_paths.len() > u32::MAX as usize {
        return None;
    }
    let mut groups: Vec<physis_ScnLayerGroup> = Vec::new();
    let mut k: usize = 0;
    while k < s.layer_groups.len()
        invariant
            k <= s.layer_groups@.len(),
            groups@.len() == k,
            forall|m: int| 0 <= m < k ==> scn_group_exports(#[trigger] groups@[m], s.layer_groups@[m]),
        decreases s.layer_groups@.len() - k,
    {
        match to_c_scn_layer_group(&s.layer_groups[k]) {
            Some(e) => {
                groups.push(e);
                assert(groups@[k as int] == e);
            },
            None => return None,
        }
        k = k + 1;
    }
    let bg_path = match ffi_to_c_string(&s.bg_path) {
        Some(p) => p,
        None => return None,
    };
    let mut timelines: Vec<physis_ScnTimeline> = Vec::new();
    let mut j: usize = 0;
    while j < s.timelines.len()
        invariant
            j <= s.timelines@.len(),
            timelines@.len() == j,
            forall|m: int| 0 <= m < j ==> scn_timeline_exports(#[trigger] timelines@[m], s.timelines@[m]),
        decreases s.timelines@.len() - j,
    {
        match to_c_timeline(&s.timelines[j]) {
            Some(e) => {
                timelines.push(e);
                assert(timelines@[j as int] == e);
            },
            None => return None,
        }
        j = j + 1;
    }
    let lgb_paths = match to_c_strings(&s.lgb_paths) {
        Some(p) => p,
        None => return None,
    };
    assert forall|m: int| 0 <= m < s.layer_groups@.len() implies scn_group_converts(#[trigger] s.layer_groups@[m])
        && scn_group_matches(groups@[m], s.layer_groups@[m]) by {
        assert(scn_group_exports(groups@[m], s.layer_groups@[m]));
    }
    assert forall|m: int| 0 <= m < s.timelines@.len() implies scn_timeline_converts(#[trigger] s.timelines@[m])
        && scn_timeline_matches(timelines@[m], s.timelines@[m]) by {
        assert(scn_timeline_exports(timelines@[m], s.timelines@[m]));
    }
    let num_layer_groups = groups.len() as u32;
    let timeline_count = timelines.len() as u32;
    let num_lgb_paths = lgb_paths.len() as u32;
    Some(physis_ScnSection {
        num_layer_groups,
        layer_groups: groups,
        general: physis_ScnGeneralSection { bg_path },
        timelines: physis_ScnTimelinesSection { timeline_count, timelines },
        num_lgb_paths,
        lgb_paths,
    })
}

/// Every section exports, and their count fits.
pub open spec fn sections_convert(sections: Seq<ScnSection>) -> bool {
    &&& sections.len() <= u32::MAX
    &&& forall|k: int| 0 <= k < sections.len() ==> section_converts(#[trigger] sections[k])
}

/// The exported sections carry the decoded ones, in order.
pub open spec fn sections_match(es: Seq<physis_ScnSection>, sections: Seq<ScnSection>) -> bool {
    &&& es.len() == sections.len()
    &&& forall|k: int| 0 <= k < sections.len() ==> section_matches(#[trigger] es[k], sections[k])
}

/// Exports a list of sections; `None` when any section fails.
pub fn to_c_sections(sections: &Vec<ScnSection>) -> (r: Option<Vec<physis_ScnSection>>)
    ensures
        match r {
            None => !sections_convert(sections@),
            Some(es) => sections_convert(sections@) && sections_match(es@, sections@),
        },
{
    if sections.len() > u32::MAX as usize {
        return None;
    }
    let mut out: Vec<physis_ScnSection> = Vec::new();
    let mut k: usize = 0;
    while k < sections.len()
        invariant
            k <= sections@.len(),
            out@.len() == k,
            forall|m: int| 0 <= m < k ==> section_exports(#[trigger] out@[m], sections@[m]),
        decreases sections@.len() - k,
    {
        match to_c_section(&sections[k]) {
            Some(e) => {
                out.push(e);
                assert(out@[k as int] == e);
            },
            None => return None,
        }
        k = k + 1;
    }
    assert forall|m: int| 0 <= m < sections@.len() implies section_converts(#[trigger] sections@[m])
        && section_matches(out@[m], sections@[m]) by {
        assert(section_exports(out@[m], sections@[m]));
    }
    Some(out)
}

/// An exported shared group: its sections, counted.
pub struct physis_Sgb {
    pub section_count: u32,
    pub sections: Vec<physis_ScnSection>,
}

/// An exported level: its sections, counted.
pub struct physis_Lvb {
    pub section_count: u32,
    pub sections: Vec<physis_ScnSection>,
}

/// Exports a shared group's sections; the empty group when any fails.
pub fn to_c_sgb(sections: &Vec<ScnSection>) -> (r: physis_Sgb)
    ensures
        sections_convert(sections@) ==> r.section_count as int == sections@.len() && sections_match(r.sections@, sections@),
        !sections_convert(sections@) ==> r.section_count == 0 && r.sections@.len() == 0,
{
    match to_c_sections(sections) {
        Some(es) => physis_Sgb { section_count: es.len() as u32, sections: es },
        None => physis_Sgb { section_count: 0, sections: Vec::new() },
    }
}

/// Exports a level's sections; the empty level when any fails.
pub fn to_c_lvb(sections: &Vec<ScnSection>) -> (r: physis_Lvb)
    ensures
        sections_convert(sections@) ==> r.section_count as int == sections@.len() && sections_match(r.sections@, sections@),
        !sections_convert(sections@) ==> r.section_count == 0 && r.sections@.len() == 0,
{
    match to_c_sections(sections) {
        Some(es) => physis_Lvb { section_count: es.len() as u32, sections: es },
        None => physis_Lvb { section_count: 0, sections: Vec::new() },
    }
}

/// What releasing an exported layer group destroys: the group, its name
/// and its layers.
pub open spec fn scn_group_cost(g: physis_ScnLayerGroup) -> nat {
    2 + sum_of(g.layers@.map_values(|l: physis_Layer| c_layer_cost(l)))
}

/// What releasing an exported embedded timeline destroys.
pub open spec fn scn_timeline_cost(t: physis_ScnTimeline) -> nat {
    1 + tmb_cost(t.tmb) + t.instances@.len()
}

/// What releasing an exported section destroys: the section, its groups,
/// its background path, its timelines and each layer group path's slot
/// and string.
pub open spec fn section_cost(s: physis_ScnSection) -> nat {
    2 + sum_of(s.layer_groups@.map_values(|g: physis_ScnLayerGroup| scn_group_cost(g)))
        + sum_of(s.timelines.timelines@.map_values(|t: physis_ScnTimeline| scn_timeline_cost(t)))
        + 2 * s.lgb_paths@.len()
}

/// What releasing exported sections destroys.
pub open spec fn sections_cost(ss: Seq<physis_ScnSection>) -> nat {
    sum_of(ss.map_values(|s: physis_ScnSection| section_cost(s)))
}

fn release_groups(groups: Vec<physis_ScnLayerGroup>) -> (released: usize)
    requires
        sum_of(groups@.map_values(|g: physis_ScnLayerGroup| scn_group_cost(g))) <= usize::MAX,
    ensures
        released == sum_of(groups@.map_values(|g: physis_ScnLayerGroup| scn_group_cost(g))),
{
    let ghost total = sum_of(groups@.map_values(|g: physis_ScnLayerGroup| scn_group_cost(g)));
    let mut list = groups;
    let mut released: usize = 0;
    while list.len() > 0
        invariant
            total <= usize::MAX,
            released + sum_of(list@.map_values(|g: physis_ScnLayerGroup| scn_group_cost(g))) == total,
        decreases list@.len(),
    {
        let ghost before = list@;
        let g = list.pop().unwrap();
        assert(before.map_values(|g: physis_ScnLayerGroup| scn_group_cost(g)).drop_last()
            =~= list@.map_values(|g: physis_ScnLayerGroup| scn_group_cost(g)));
        released = released + 1 + ffi_free_string(Some(g.name)) + release_layers(g.layers);
    }
    released
}

fn release_timelines(timelines: Vec<physis_ScnTimeline>) -> (released: usize)
    requires
        sum_of(timelines@.map_values(|t: physis_ScnTimeline| scn_timeline_cost(t))) <= usize::MAX,
    ensures
        released == sum_of(timelines@.map_values(|t: physis_ScnTimeline| scn_timeline_cost(t))),
{
    let ghost total = sum_of(timelines@.map_values(|t: physis_ScnTimeline| scn_timeline_cost(t)));
    let mut list = timelines;
    let mut released: usize = 0;
    while list.len() > 0
        invariant
            total <= usize::MAX,
            released + sum_of(list@.map_values(|t: physis_ScnTimeline| scn_timeline_cost(t))) == total,
        decreases list@.len(),
    {
        let ghost before = list@;
        let t = list.pop().unwrap();
        assert(before.map_values(|t: physis_ScnTimeline| scn_timeline_cost(t)).drop_last()
            =~= list@.map_values(|t: physis_ScnTimeline| scn_timeline_cost(t)));
        let instances = t.instances.len();
        released = released + 1 + physis_tmb_free(t.tmb) + instances;
    }
    released
}

fn release_paths(paths: Vec<Vec<u8>>) -> (released: usize)
    requires
        2 * paths@.len() <= usize::MAX,
    ensures
        released == 2 * paths@.len(),
{
    let ghost total = paths@.len();
    let mut list = paths;
    let mut released: usize = 0;
    while list.len() > 0
        invariant
            2 * total <= usize::MAX,
            released + 2 * list@.len() == 2 * total,
        decreases list@.len(),
    {
        let p = list.pop().unwrap();
        released = released + 1 + ffi_free_string(Some(p));
    }
    released
}

fn release_sections(sections: Vec<physis_ScnSection>) -> (released: usize)
    requires
        sections_cost(sections@) <= usize::MAX,
    ensures
        released == sections_cost(sections@),
{
    let ghost total = sections_cost(sections@);
    let mut list = sections;
    let mut released: usize = 0;
    while list.len() > 0
        invariant
            total <= usize::MAX,
            released + sections_cost(list@) == total,
        decreases list@.len(),
    {
        let ghost before = list@;
        let s = list.pop().unwrap();
        assert(before.map_values(|s: physis_ScnSection| section_cost(s)).drop_last()
            =~= list@.map_values(|s: physis_ScnSection| section_cost(s)));
        let groups = release_groups(s.layer_groups);
        let bg = ffi_free_string(Some(s.general.bg_path));
        let timelines = release_timelines(s.timelines.timelines);
        let paths = release_paths(s.lgb_paths);
        released = released + 1 + groups + bg + timelines + paths;
    }
    released
}

/// Releases an exported shared group and everything it holds, returning
/// how many elements were destroyed. The empty group releases nothing.
pub fn physis_sgb_free(sgb: physis_Sgb) -> (released: usize)
    requires
        sections_cost(sgb.sections@) <= usize::MAX,
    ensures
        released == sections_cost(sgb.sections@),
{
    release_sections(sgb.sections)
}

/// Releases an exported level and everything it holds, returning how many
/// elements were destroyed. The empty level releases nothing.
pub fn physis_lvb_free(lvb: physis_Lvb) -> (released: usize)
    requires
        sections_cost(lvb.sections@) <= usize::MAX,
    ensures
        released == sections_cost(lvb.sections@),
{
    release_sections(lvb.sections)
}

} // verus!
