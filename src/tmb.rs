//! Timelines: decoded timeline nodes exported as a closed tagged union,
//! with an explicit arm for every node kind the export does not carry.

use vstd::prelude::*;
use crate::buffer::copy_vec;
use crate::release::sum_of;

verus! {

/// The animated channel of a curve.
#[derive(Clone, Copy, PartialEq, Eq, Structural, Debug)]
pub enum Attribute {
    PositionX,
    PositionY,
    PositionZ,
    RotationX,
    RotationY,
    RotationZ,
    Unknown(u8),
}

/// One key of a curve: time and value, each float as its bit pattern.
#[derive(Clone, Copy, PartialEq, Eq, Structural, Debug)]
pub struct TmfcRow {
    pub time: u32,
    pub value: u32,
}

/// One curve of a curve node.
pub struct TmfcData {
    pub attribute: Attribute,
    pub rows: Vec<TmfcRow>,
}

/// A timeline header.
#[derive(Clone, Copy, PartialEq, Eq, Structural, Debug)]
pub struct Tmdh {
    pub duration: u16,
}

/// An actor node and the track nodes it owns.
pub struct Tmac {
    pub id: u16,
    pub time: u16,
    pub tmtr_ids: Vec<u16>,
}

/// A track node and the animations it plays.
pub struct Tmtr {
    pub id: u16,
    pub time: u16,
    pub animation_ids: Vec<u16>,
}

/// A curve node.
pub struct Tmfc {
    pub id: u16,
    pub time: u16,
    pub data: Vec<TmfcData>,
}

/// A model animation node.
#[derive(Clone, Copy, PartialEq, Eq, Structural, Debug)]
pub struct C013 {
    pub id: u16,
    pub time: u16,
    pub duration: i32,
    pub tmfc_id: i32,
}

/// A decoded timeline node, one variant per node kind the decoder knows.
pub enum TimelineNodeData {
    Tmdh(Tmdh),
    Tmal,
    Tmac(Tmac),
    Tmtr(Tmtr),
    Tmfc(Tmfc),
    C009,
    C013(C013),
    C042,
    Unknown,
}

/// The exported channel; any channel without an arm of its own is `Unknown`.
#[derive(Clone, Copy, PartialEq, Eq, Structural, Debug)]
pub enum physis_Attribute {
    PositionX,
    PositionY,
    PositionZ,
    RotationX,
    RotationY,
    RotationZ,
    Unknown,
}

/// An exported actor node.
pub struct physis_Tmac {
    pub id: u16,
    pub time: u16,
    pub tmtr_id_count: u32,
    pub tmtr_ids: Vec<u16>,
}

/// An exported track node.
pub struct physis_Tmtr {
    pub id: u16,
    pub animation_id_count: u32,
    pub animation_ids: Vec<u16>,
}

/// An exported curve.
pub struct physis_TmfcData {
    pub attribute: physis_Attribute,
    pub row_count: u32,
    pub rows: Vec<TmfcRow>,
}

/// An exported curve node.
pub struct physis_Tmfc {
    pub id: u16,
    pub data_count: u32,
    pub data: Vec<physis_TmfcData>,
}

/// The exported node: an arm per exported kind, and `Unknown` for the rest.
pub enum physis_TimelineNodeData {
    Tmdh(Tmdh),
    Tmac(physis_Tmac),
    Tmtr(physis_Tmtr),
    Tmfc(physis_Tmfc),
    C013(C013),
    Unknown,
}

/// An exported timeline node.
pub struct physis_TimelineNode {
    pub data: physis_TimelineNodeData,
}

/// An exported timeline.
pub struct physis_Tmb {
    pub node_count: u32,
    pub nodes: Vec<physis_TimelineNode>,
}

/// The exported channel of a decoded channel.
pub open spec fn attribute_of(a: Attribute) -> physis_Attribute {
    match a {
        Attribute::PositionX => physis_Attribute::PositionX,
        Attribute::PositionY => physis_Attribute::PositionY,
        Attribute::PositionZ => physis_Attribute::PositionZ,
        Attribute::RotationX => physis_Attribute::RotationX,
        Attribute::RotationY => physis_Attribute::RotationY,
        Attribute::RotationZ => physis_Attribute::RotationZ,
        Attribute::Unknown(_) => physis_Attribute::Unknown,
    }
}

/// Exports a channel.
pub fn to_c_attribute(a: Attribute) -> (r: physis_Attribute)
    ensures
        r == attribute_of(a),
{
    match a {
        Attribute::PositionX => physis_Attribute::PositionX,
        Attribute::PositionY => physis_Attribute::PositionY,
        Attribute::PositionZ => physis_Attribute::PositionZ,
        Attribute::RotationX => physis_Attribute::RotationX,
        Attribute::RotationY => physis_Attribute::RotationY,
        Attribute::RotationZ => physis_Attribute::RotationZ,
        Attribute::Unknown(_) => physis_Attribute::Unknown,
    }
}

/// The discriminant a decoded node exports with.
pub open spec fn node_tag(n: TimelineNodeData) -> u32 {
    match n {
        TimelineNodeData::Tmdh(_) => 0,
        TimelineNodeData::Tmac(_) => 1,
        TimelineNodeData::Tmtr(_) => 2,
        TimelineNodeData::Tmfc(_) => 3,
        TimelineNodeData::C013(_) => 4,
        _ => 5,
    }
}

/// The discriminant of an exported node.
pub open spec fn c_node_tag(c: physis_TimelineNodeData) -> u32 {
    match c {
        physis_TimelineNodeData::Tmdh(_) => 0,
        physis_TimelineNodeData::Tmac(_) => 1,
        physis_TimelineNodeData::Tmtr(_) => 2,
        physis_TimelineNodeData::Tmfc(_) => 3,
        physis_TimelineNodeData::C013(_) => 4,
        physis_TimelineNodeData::Unknown => 5,
    }
}

impl physis_TimelineNodeData {
    /// The discriminant shared by construction and release.
    pub fn discriminant(&self) -> (r: u32)
        ensures
            r == c_node_tag(*self),
    {
        match self {
            physis_TimelineNodeData::Tmdh(_) => 0,
            physis_TimelineNodeData::Tmac(_) => 1,
            physis_TimelineNodeData::Tmtr(_) => 2,
            physis_TimelineNodeData::Tmfc(_) => 3,
            physis_TimelineNodeData::C013(_) => 4,
            physis_TimelineNodeData::Unknown => 5,
        }
    }
}

/// The exported curve carries the decoded curve.
pub open spec fn curve_matches(c: physis_TmfcData, d: TmfcData) -> bool {
    &&& c.attribute == attribute_of(d.attribute)
    &&& c.row_count as int == d.rows@.len()
    &&& c.rows@ == d.rows@
}

/// The exported node carries the decoded node's discriminant and payload.
pub open spec fn node_matches(c: physis_TimelineNodeData, n: TimelineNodeData) -> bool {
    c_node_tag(c) == node_tag(n) && match (n, c) {
        (TimelineNodeData::Tmdh(a), physis_TimelineNodeData::Tmdh(b)) => a == b,
        (TimelineNodeData::Tmac(a), physis_TimelineNodeData::Tmac(b)) => {
            &&& b.id == a.id
            &&& b.time == a.time
            &&& b.tmtr_id_count as int == a.tmtr_ids@.len()
            &&& b.tmtr_ids@ == a.tmtr_ids@
        },
        (TimelineNodeData::Tmtr(a), physis_TimelineNodeData::Tmtr(b)) => {
            &&& b.id == a.id
            &&& b.animation_id_count as int == a.animation_ids@.len()
            &&& b.animation_ids@ == a.animation_ids@
        },
        (TimelineNodeData::Tmfc(a), physis_TimelineNodeData::Tmfc(b)) => {
            &&& b.id == a.id
            &&& b.data_count as int == a.data@.len()
            &&& b.data@.len() == a.data@.len()
            &&& forall|k: int| 0 <= k < a.data@.len() ==> curve_matches(#[trigger] b.data@[k], a.data@[k])
        },
        (TimelineNodeData::C013(a), physis_TimelineNodeData::C013(b)) => a == b,
        (_, physis_TimelineNodeData::Unknown) => true,
        _ => false,
    }
}

/// Every count of the node fits the exported counts.
pub open spec fn node_fits(n: TimelineNodeData) -> bool {
    match n {
        TimelineNodeData::Tmac(a) => a.tmtr_ids@.len() <= u32::MAX,
        TimelineNodeData::Tmtr(a) => a.animation_ids@.len() <= u32::MAX,
        TimelineNodeData::Tmfc(a) => a.data@.len() <= u32::MAX
            && forall|k: int| 0 <= k < a.data@.len() ==> (#[trigger] a.data@[k]).rows@.len() <= u32::MAX,
        _ => true,
    }
}

/// Whether every count of the node fits the exported counts.
pub fn check_node_fits(n: &TimelineNodeData) -> (r: bool)
    ensures
        r == node_fits(*n),
{
    match n {
        TimelineNodeData::Tmac(a) => a.tmtr_ids.len() <= u32::MAX as usize,
        TimelineNodeData::Tmtr(t) => t.animation_ids.len() <= u32::MAX as usize,
        TimelineNodeData::Tmfc(f) => {
            if f.data.len() > u32::MAX as usize {
                return false;
            }
            let mut k: usize = 0;
            while k < f.data.len()
                invariant
                    *n == TimelineNodeData::Tmfc(*f),
                    f.data@.len() <= u32::MAX,
                    k <= f.data@.len(),
                    forall|m: int| 0 <= m < k ==> (#[trigger] f.data@[m]).rows@.len() <= u32::MAX,
                decreases f.data@.len() - k,
            {
                if f.data[k].rows.len() > u32::MAX as usize {
                    return false;
                }
                k = k + 1;
            }
            true
        },
        _ => true,
    }
}

/// Every node fits, and so does their count.
pub open spec fn timeline_fits(nodes: Seq<TimelineNodeData>) -> bool {
    nodes.len() <= u32::MAX && forall|i: int| 0 <= i < nodes.len() ==> node_fits(#[trigger] nodes[i])
}

/// Whether a timeline's counts all fit the exported counts.
pub fn check_timeline_fits(nodes: &Vec<TimelineNodeData>) -> (r: bool)
    ensures
        r == timeline_fits(nodes@),
{
    if nodes.len() > u32::MAX as usize {
        return false;
    }
    let mut i: usize = 0;
    while i < nodes.len()
        invariant
            nodes@.len() <= u32::MAX,
            i <= nodes@.len(),
            forall|m: int| 0 <= m < i ==> node_fits(#[trigger] nodes@[m]),
        decreases nodes@.len() - i,
    {
        if !check_node_fits(&nodes[i]) {
            return false;
        }
        i = i + 1;
    }
    true
}

/// Exports one curve.
pub fn to_c_tmfc_data(data: &TmfcData) -> (r: physis_TmfcData)
    requires
        data.rows@.len() <= u32::MAX,
    ensures
        curve_matches(r, *data),
{
    let rows = copy_vec(&data.rows);
    physis_TmfcData { attribute: to_c_attribute(data.attribute), row_count: rows.len() as u32, rows }
}

/// Exports one node; a kind without an exported arm becomes `Unknown`.
pub fn to_c_data(node: &TimelineNodeData) -> (r: physis_TimelineNodeData)
    requires
        node_fits(*node),
    ensures
        node_matches(r, *node),
{
    match node {
        TimelineNodeData::Tmdh(h) => physis_TimelineNodeData::Tmdh(*h),
        TimelineNodeData::Tmac(a) => {
            let ids = copy_vec(&a.tmtr_ids);
            physis_TimelineNodeData::Tmac(
                physis_Tmac { id: a.id, time: a.time, tmtr_id_count: ids.len() as u32, tmtr_ids: ids },
            )
        },
        TimelineNodeData::Tmtr(t) => {
            let ids = copy_vec(&t.animation_ids);
            physis_TimelineNodeData::Tmtr(
                physis_Tmtr { id: t.id, animation_id_count: ids.len() as u32, animation_ids: ids },
            )
        },
        TimelineNodeData::Tmfc(f) => {
            let mut out: Vec<physis_TmfcData> = Vec::new();
            let mut k: usize = 0;
            while k < f.data.len()
                invariant
                    node_fits(*node),
                    *node == TimelineNodeData::Tmfc(*f),
                    k <= f.data@.len(),
                    out@.len() == k,
                    forall|m: int| 0 <= m < k ==> curve_matches(#[trigger] out@[m], f.data@[m]),
                decreases f.data@.len() - k,
            {
                assert(f.data@[k as int].rows@.len() <= u32::MAX);
                let c = to_c_tmfc_data(&f.data[k]);
                out.push(c);
                assert(out@[k as int] == c);
                k = k + 1;
            }
            physis_TimelineNodeData::Tmfc(physis_Tmfc { id: f.id, data_count: out.len() as u32, data: out })
        },
        TimelineNodeData::C013(c) => physis_TimelineNodeData::C013(*c),
        _ => physis_TimelineNodeData::Unknown,
    }
}

/// The exported timeline carries the decoded nodes, in order.
pub open spec fn timeline_matches(t: physis_Tmb, nodes: Seq<TimelineNodeData>) -> bool {
    &&& t.node_count as int == nodes.len()
    &&& t.nodes@.len() == nodes.len()
    &&& forall|i: int| 0 <= i < nodes.len() ==> node_matches((#[trigger] t.nodes@[i]).data, nodes[i])
}

/// Exports a decoded timeline, node by node, in order.
pub fn to_c_tmb(nodes: &Vec<TimelineNodeData>) -> (r: physis_Tmb)
    requires
        nodes@.len() <= u32::MAX,
        forall|i: int| 0 <= i < nodes@.len() ==> node_fits(#[trigger] nodes@[i]),
    ensures
        timeline_matches(r, nodes@),
{
    let mut out: Vec<physis_TimelineNode> = Vec::new();
    let mut i: usize = 0;
    while i < nodes.len()
        invariant
            nodes@.len() <= u32::MAX,
            forall|m: int| 0 <= m < nodes@.len() ==> node_fits(#[trigger] nodes@[m]),
            i <= nodes@.len(),
            out@.len() == i,
            forall|m: int| 0 <= m < i ==> node_matches((#[trigger] out@[m]).data, nodes@[m]),
        decreases nodes@.len() - i,
    {
        let d = to_c_data(&nodes[i]);
        out.push(physis_TimelineNode { data: d });
        i = i + 1;
    }
    physis_Tmb { node_count: out.len() as u32, nodes: out }
}

impl physis_Tmb {
    /// The sentinel timeline: no nodes.
    pub fn empty() -> (r: physis_Tmb)
        ensures
            r.node_count == 0,
            r.nodes@.len() == 0,
    {
        physis_Tmb { node_count: 0, nodes: Vec::new() }
    }
}

impl Default for physis_Tmb {
    fn default() -> (r: physis_Tmb)
        ensures
            r.node_count == 0,
            r.nodes@.len() == 0,
    {
        physis_Tmb::empty()
    }
}

/// What releasing an exported curve destroys: the curve and its keys.
pub open spec fn c_curve_cost(c: physis_TmfcData) -> nat {
    1 + c.rows@.len()
}

/// What releasing an exported node destroys: the node and its arrays.
pub open spec fn c_node_cost(c: physis_TimelineNodeData) -> nat {
    1 + match c {
        physis_TimelineNodeData::Tmac(a) => a.tmtr_ids@.len(),
        physis_TimelineNodeData::Tmtr(t) => t.animation_ids@.len(),
        physis_TimelineNodeData::Tmfc(f) => sum_of(f.data@.map_values(|d: physis_TmfcData| c_curve_cost(d))),
        _ => 0,
    }
}

/// What releasing an exported timeline destroys.
pub open spec fn tmb_cost(t: physis_Tmb) -> nat {
    sum_of(t.nodes@.map_values(|n: physis_TimelineNode| c_node_cost(n.data)))
}

/// What dropping a decoded curve destroys: the curve and its keys.
pub open spec fn curve_cost(d: TmfcData) -> nat {
    1 + d.rows@.len()
}

/// What dropping a decoded node destroys: the node and its arrays.
pub open spec fn node_cost(n: TimelineNodeData) -> nat {
    1 + match n {
        TimelineNodeData::Tmac(a) => a.tmtr_ids@.len(),
        TimelineNodeData::Tmtr(t) => t.animation_ids@.len(),
        TimelineNodeData::Tmfc(f) => sum_of(f.data@.map_values(|d: TmfcData| curve_cost(d))),
        _ => 0,
    }
}

/// What dropping decoded nodes destroys.
pub open spec fn nodes_cost(nodes: Seq<TimelineNodeData>) -> nat {
    sum_of(nodes.map_values(|n: TimelineNodeData| node_cost(n)))
}

fn release_curves(data: Vec<physis_TmfcData>) -> (released: usize)
    requires
        sum_of(data@.map_values(|d: physis_TmfcData| c_curve_cost(d))) <= usize::MAX,
    ensures
        released == sum_of(data@.map_values(|d: physis_TmfcData| c_curve_cost(d))),
{
    let ghost total = sum_of(data@.map_values(|d: physis_TmfcData| c_curve_cost(d)));
    let mut data = data;
    let mut released: usize = 0;
    while data.len() > 0
        invariant
            total <= usize::MAX,
            released + sum_of(data@.map_values(|d: physis_TmfcData| c_curve_cost(d))) == total,
        decreases data@.len(),
    {
        let ghost before = data@;
        let d = data.pop().unwrap();
        assert(before.map_values(|d: physis_TmfcData| c_curve_cost(d)).drop_last()
            =~= data@.map_values(|d: physis_TmfcData| c_curve_cost(d)));
        released = released + 1 + d.rows.len();
    }
    released
}

fn release_node(n: physis_TimelineNodeData) -> (released: usize)
    requires
        c_node_cost(n) <= usize::MAX,
    ensures
        released == c_node_cost(n),
{
    match n {
        physis_TimelineNodeData::Tmac(a) => 1 + a.tmtr_ids.len(),
        physis_TimelineNodeData::Tmtr(t) => 1 + t.animation_ids.len(),
        physis_TimelineNodeData::Tmfc(f) => 1 + release_curves(f.data),
        _ => 1,
    }
}

/// Releases an exported timeline and everything it holds, returning how
/// many elements were destroyed. The sentinel releases nothing.
pub fn physis_tmb_free(tmb: physis_Tmb) -> (released: usize)
    requires
        tmb_cost(tmb) <= usize::MAX,
    ensures
        released == tmb_cost(tmb),
{
    let ghost total = tmb_cost(tmb);
    let mut nodes = tmb.nodes;
    let mut released: usize = 0;
    while nodes.len() > 0
        invariant
            total <= usize::MAX,
            released + sum_of(nodes@.map_values(|n: physis_TimelineNode| c_node_cost(n.data))) == total,
        decreases nodes@.len(),
    {
        let ghost before = nodes@;
        let n = nodes.pop().unwrap();
        assert(before.map_values(|n: physis_TimelineNode| c_node_cost(n.data)).drop_last()
            =~= nodes@.map_values(|n: physis_TimelineNode| c_node_cost(n.data)));
        released = released + release_node(n.data);
    }
    released
}

proof fn lemma_node_cost(c: physis_TimelineNodeData, n: TimelineNodeData)
    requires
        node_matches(c, n),
    ensures
        c_node_cost(c) == node_cost(n),
{
    if let TimelineNodeData::Tmfc(a) = n {
        if let physis_TimelineNodeData::Tmfc(b) = c {
            assert(b.data@.map_values(|d: physis_TmfcData| c_curve_cost(d))
                =~= a.data@.map_values(|d: TmfcData| curve_cost(d))) by {
                assert forall|k: int| 0 <= k < a.data@.len() implies c_curve_cost(#[trigger] b.data@[k])
                    == curve_cost(a.data@[k]) by {
                    assert(curve_matches(b.data@[k], a.data@[k]));
                }
            }
        }
    }
}

/// Releasing a timeline exported from decoded nodes destroys exactly as
/// many elements as dropping those nodes would.
pub proof fn lemma_tmb_release_matches_drop(nodes: Seq<TimelineNodeData>, t: physis_Tmb)
    requires
        timeline_matches(t, nodes),
    ensures
        tmb_cost(t) == nodes_cost(nodes),
{
    assert forall|i: int| 0 <= i < nodes.len() implies c_node_cost((#[trigger] t.nodes@[i]).data) == node_cost(nodes[i]) by {
        lemma_node_cost(t.nodes@[i].data, nodes[i]);
    }
    assert(t.nodes@.map_values(|n: physis_TimelineNode| c_node_cost(n.data))
        =~= nodes.map_values(|n: TimelineNodeData| node_cost(n)));
}

/// The empty timeline is a valid input to its release call, which destroys
/// nothing.
pub proof fn lemma_empty_tmb_release(t: physis_Tmb)
    requires
        t.nodes@.len() == 0,
    ensures
        tmb_cost(t) == 0,
{
    assert(t.nodes@.map_values(|n: physis_TimelineNode| c_node_cost(n.data)) =~= Seq::<nat>::empty());
}

} // verus!
