use physis_capi::layer::{InstanceObject, Layer, LayerEntryData};
use physis_capi::scn::{
    to_c_lvb, to_c_section, to_c_sgb, ScnLayerGroup, ScnSection, ScnTimeline, ScnTimelineInstance,
};
use physis_capi::tmb::{physis_TimelineNodeData, Tmac, TimelineNodeData};

fn section(group_name: &str) -> ScnSection {
    ScnSection {
        layer_groups: vec![ScnLayerGroup {
            layer_group_id: 4,
            name: group_name.as_bytes().to_vec(),
            layers: vec![Layer {
                name: b"layer".to_vec(),
                id: 1,
                festival_id: 0,
                festival_phase_id: 0,
                objects: vec![InstanceObject {
                    instance_id: 77,
                    name: b"obj".to_vec(),
                    transform: [1; 9],
                    data: LayerEntryData::Other,
                }],
            }],
        }],
        bg_path: b"bg/x.mdl".to_vec(),
        timelines: vec![ScnTimeline {
            nodes: vec![TimelineNodeData::Tmac(Tmac { id: 1, time: 2, tmtr_ids: vec![3] })],
            instances: vec![ScnTimelineInstance { tmac_time: 2, instance_id: 77 }],
        }],
        lgb_paths: vec![b"bg/a.lgb".to_vec(), b"bg/b.lgb".to_vec()],
    }
}

#[test]
fn section_exports_every_part() {
    let e = to_c_section(&section("group")).unwrap();
    assert_eq!(e.num_layer_groups, 1);
    assert_eq!(e.layer_groups[0].layer_group_id, 4);
    assert_eq!(e.layer_groups[0].name, b"group\0".to_vec());
    assert_eq!(e.layer_groups[0].layer_count, 1);
    assert_eq!(e.layer_groups[0].layers[0].objects[0].instance_id, 77);
    assert_eq!(e.general.bg_path, b"bg/x.mdl\0".to_vec());
    assert_eq!(e.timelines.timeline_count, 1);
    let t = &e.timelines.timelines[0];
    assert_eq!(t.tmb.node_count, 1);
    assert!(matches!(t.tmb.nodes[0].data, physis_TimelineNodeData::Tmac(ref a) if a.tmtr_ids == vec![3]));
    assert_eq!(t.instance_count, 1);
    assert_eq!(t.instances, vec![ScnTimelineInstance { tmac_time: 2, instance_id: 77 }]);
    assert_eq!(e.num_lgb_paths, 2);
    assert_eq!(e.lgb_paths[1], b"bg/b.lgb\0".to_vec());
}

#[test]
fn section_with_bad_name_fails_whole_group() {
    assert!(to_c_section(&section("gr\0up")).is_none());
    let sgb = to_c_sgb(&vec![section("ok"), section("b\0d")]);
    assert_eq!(sgb.section_count, 0);
    assert!(sgb.sections.is_empty());
}

#[test]
fn level_keeps_section_order() {
    let lvb = to_c_lvb(&vec![section("first"), section("second")]);
    assert_eq!(lvb.section_count, 2);
    assert_eq!(lvb.sections[1].layer_groups[0].name, b"second\0".to_vec());
    assert_eq!(to_c_lvb(&Vec::new()).section_count, 0);
}

#[test]
fn shared_group_free_counts_every_element() {
    // section: 2 + group (2 + layer (2 + object 2)) + timeline (1 + node (1 + 1 id) + 1 instance) + 2 paths * 2
    let per_section = 2 + (2 + (2 + 2)) + (1 + 2 + 1) + 4;
    let sgb = to_c_sgb(&vec![section("a"), section("b")]);
    assert_eq!(physis_capi::scn::physis_sgb_free(sgb), 2 * per_section);
    assert_eq!(physis_capi::scn::physis_lvb_free(to_c_lvb(&Vec::new())), 0);
}
