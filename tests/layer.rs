use physis_capi::layer::{
    convert_data, physis_ENPCInstanceObject, physis_EventInstanceObject, physis_GameInstanceObject,
    physis_LayerEntry, physis_LayerGroup, physis_MapRangeInstanceObject, physis_NPCInstanceObject,
    physis_PopRangeInstanceObject, physis_TriggerBoxInstanceObject, physis_layergroup_free, to_c_layer_group, BgObject, InstanceObject,
    Layer, LayerChunk, LayerEntryData,
};

fn object(id: u32, name: &str, data: LayerEntryData) -> InstanceObject {
    InstanceObject { instance_id: id, name: name.as_bytes().to_vec(), transform: [0; 9], data }
}

fn layer(name: &str, objects: Vec<InstanceObject>) -> Layer {
    Layer { name: name.as_bytes().to_vec(), id: 3, festival_id: 1, festival_phase_id: 2, objects }
}

#[test]
fn every_kind_keeps_discriminant_and_payload() {
    let event = physis_EventInstanceObject {
        parent_data: physis_GameInstanceObject { base_id: 5 },
        bound_instance_id: 6,
        linked_instance_id: 7,
    };
    let pop = physis_PopRangeInstanceObject { pop_type: 2, index: 9 };
    let npc = physis_ENPCInstanceObject {
        parent_data: physis_NPCInstanceObject {
            parent_data: physis_GameInstanceObject { base_id: 1000 },
            pop_weather: 1,
            pop_time_start: 2,
            pop_time_end: 3,
            move_ai: 4,
            wandering_range: 5,
            route: 6,
            event_group: 7,
        },
        behavior: 8,
    };
    let map = physis_MapRangeInstanceObject {
        parent_data: physis_TriggerBoxInstanceObject { trigger_box_shape: 1, priority: -3, enabled: true },
        place_name_block: 10,
        place_name_spot: 11,
        rest_bonus_effective: true,
        discovery_id: 12,
        place_name_enabled: false,
        discovery_enabled: true,
        rest_bonus_enabled: false,
    };
    let bg = LayerEntryData::BG(BgObject { asset_path: b"bg/a.mdl".to_vec(), collision_asset_path: b"bg/a.pcb".to_vec() });
    match convert_data(&bg).unwrap() {
        physis_LayerEntry::BG(b) => {
            assert_eq!(b.asset_path, b"bg/a.mdl\0".to_vec());
            assert_eq!(b.collision_asset_path, b"bg/a.pcb\0".to_vec());
        }
        _ => panic!("wrong arm"),
    }
    let e = convert_data(&LayerEntryData::EventObject(event)).unwrap();
    assert!(matches!(e, physis_LayerEntry::EventObject(x) if x == event));
    assert_eq!(e.discriminant(), 2);
    let e = convert_data(&LayerEntryData::PopRange(pop)).unwrap();
    assert!(matches!(e, physis_LayerEntry::PopRange(x) if x == pop));
    assert_eq!(e.discriminant(), 3);
    let e = convert_data(&LayerEntryData::EventNPC(npc)).unwrap();
    assert!(matches!(e, physis_LayerEntry::EventNPC(x) if x == npc));
    assert_eq!(e.discriminant(), 4);
    let e = convert_data(&LayerEntryData::MapRange(map)).unwrap();
    assert!(matches!(e, physis_LayerEntry::MapRange(x) if x == map));
    assert_eq!(e.discriminant(), 5);
    let e = convert_data(&LayerEntryData::Other).unwrap();
    assert!(matches!(e, physis_LayerEntry::Unhandled));
    assert_eq!(e.discriminant(), 0);
}

#[test]
fn group_keeps_nesting_and_counts() {
    let chunks = vec![LayerChunk {
        layers: vec![
            layer("first", vec![object(1, "a", LayerEntryData::Other), object(2, "b", LayerEntryData::Other)]),
            layer("second", vec![]),
        ],
    }];
    let g = to_c_layer_group(&chunks);
    assert_eq!(g.num_chunks, 1);
    assert_eq!(g.chunks[0].num_layers, 2);
    let l = &g.chunks[0].layers[0];
    assert_eq!(l.num_objects, 2);
    assert_eq!(l.name, b"first\0".to_vec());
    assert_eq!((l.id, l.festival_id, l.festival_phase_id), (3, 1, 2));
    assert_eq!(l.objects[1].instance_id, 2);
    assert_eq!(l.objects[1].name, b"b\0".to_vec());
    assert_eq!(g.chunks[0].layers[1].num_objects, 0);
}

#[test]
fn nul_anywhere_gives_empty_group() {
    let bad_path = LayerEntryData::BG(BgObject { asset_path: b"a\0".to_vec(), collision_asset_path: vec![] });
    let chunks = vec![LayerChunk { layers: vec![layer("ok", vec![object(1, "x", bad_path)])] }];
    let g = to_c_layer_group(&chunks);
    assert_eq!(g.num_chunks, 0);
    assert!(g.chunks.is_empty());
    let chunks = vec![LayerChunk { layers: vec![layer("o\0k", vec![])] }];
    assert_eq!(to_c_layer_group(&chunks).num_chunks, 0);
    let d = physis_LayerGroup::default();
    assert_eq!(d.num_chunks, 0);
}

#[test]
fn group_release_counts_every_element() {
    let bg = LayerEntryData::BG(BgObject { asset_path: b"a".to_vec(), collision_asset_path: b"b".to_vec() });
    let chunks = vec![
        LayerChunk { layers: vec![layer("l", vec![object(1, "o", bg), object(2, "p", LayerEntryData::Other)])] },
        LayerChunk { layers: vec![] },
    ];
    // chunk 1: 1 + layer (2 + object (2 + 2) + object 2), chunk 2: 1
    assert_eq!(physis_layergroup_free(to_c_layer_group(&chunks)), 1 + 2 + 4 + 2 + 1);
    assert_eq!(physis_layergroup_free(physis_LayerGroup::default()), 0);
}
