use physis_capi::tmb::{
    physis_Attribute, physis_TimelineNodeData, physis_Tmb, physis_tmb_free, to_c_attribute, to_c_data, to_c_tmb, Attribute,
    TimelineNodeData, Tmac, Tmdh, Tmfc, TmfcData, TmfcRow, Tmtr, C013,
};

#[test]
fn attributes_map_one_for_one() {
    assert_eq!(to_c_attribute(Attribute::PositionX), physis_Attribute::PositionX);
    assert_eq!(to_c_attribute(Attribute::PositionY), physis_Attribute::PositionY);
    assert_eq!(to_c_attribute(Attribute::PositionZ), physis_Attribute::PositionZ);
    assert_eq!(to_c_attribute(Attribute::RotationX), physis_Attribute::RotationX);
    assert_eq!(to_c_attribute(Attribute::RotationY), physis_Attribute::RotationY);
    assert_eq!(to_c_attribute(Attribute::RotationZ), physis_Attribute::RotationZ);
    assert_eq!(to_c_attribute(Attribute::Unknown(70)), physis_Attribute::Unknown);
}

#[test]
fn actor_node_copies_ids() {
    let n = TimelineNodeData::Tmac(Tmac { id: 4, time: 9, tmtr_ids: vec![1, 2, 3] });
    match to_c_data(&n) {
        physis_TimelineNodeData::Tmac(t) => {
            assert_eq!(t.id, 4);
            assert_eq!(t.time, 9);
            assert_eq!(t.tmtr_id_count, 3);
            assert_eq!(t.tmtr_ids, vec![1, 2, 3]);
        }
        _ => panic!("wrong arm"),
    }
}

#[test]
fn track_node_copies_animation_ids() {
    let n = TimelineNodeData::Tmtr(Tmtr { id: 7, time: 1, animation_ids: vec![11, 12] });
    match to_c_data(&n) {
        physis_TimelineNodeData::Tmtr(t) => {
            assert_eq!(t.id, 7);
            assert_eq!(t.animation_id_count, 2);
            assert_eq!(t.animation_ids, vec![11, 12]);
        }
        _ => panic!("wrong arm"),
    }
}

#[test]
fn curve_node_copies_curves() {
    let rows = vec![TmfcRow { time: 0, value: 2.0f32.to_bits() }, TmfcRow { time: 1.0f32.to_bits(), value: 5 }];
    let n = TimelineNodeData::Tmfc(Tmfc {
        id: 2,
        time: 0,
        data: vec![TmfcData { attribute: Attribute::RotationY, rows: rows.clone() }],
    });
    match to_c_data(&n) {
        physis_TimelineNodeData::Tmfc(t) => {
            assert_eq!(t.id, 2);
            assert_eq!(t.data_count, 1);
            assert_eq!(t.data[0].attribute, physis_Attribute::RotationY);
            assert_eq!(t.data[0].row_count, 2);
            assert_eq!(t.data[0].rows, rows);
        }
        _ => panic!("wrong arm"),
    }
}

#[test]
fn kinds_without_an_arm_become_unknown() {
    for n in [TimelineNodeData::Tmal, TimelineNodeData::C009, TimelineNodeData::C042, TimelineNodeData::Unknown] {
        let c = to_c_data(&n);
        assert!(matches!(c, physis_TimelineNodeData::Unknown));
        assert_eq!(c.discriminant(), 5);
    }
}

#[test]
fn timeline_keeps_node_order_and_discriminants() {
    let nodes = vec![
        TimelineNodeData::Tmdh(Tmdh { duration: 30 }),
        TimelineNodeData::Tmac(Tmac { id: 1, time: 0, tmtr_ids: vec![] }),
        TimelineNodeData::Tmtr(Tmtr { id: 2, time: 0, animation_ids: vec![5] }),
        TimelineNodeData::Tmfc(Tmfc { id: 3, time: 0, data: vec![] }),
        TimelineNodeData::C013(C013 { id: 4, time: 2, duration: 10, tmfc_id: 3 }),
        TimelineNodeData::C042,
    ];
    let t = to_c_tmb(&nodes);
    assert_eq!(t.node_count, 6);
    let tags: Vec<u32> = t.nodes.iter().map(|n| n.data.discriminant()).collect();
    assert_eq!(tags, vec![0, 1, 2, 3, 4, 5]);
    assert!(matches!(t.nodes[0].data, physis_TimelineNodeData::Tmdh(Tmdh { duration: 30 })));
    assert!(matches!(
        t.nodes[4].data,
        physis_TimelineNodeData::C013(C013 { id: 4, time: 2, duration: 10, tmfc_id: 3 })
    ));
}

#[test]
fn empty_timeline_sentinel() {
    let t = physis_Tmb::default();
    assert_eq!(t.node_count, 0);
    assert!(t.nodes.is_empty());
    assert_eq!(to_c_tmb(&Vec::new()).node_count, 0);
}

#[test]
fn timeline_release_counts_nodes_and_arrays() {
    let nodes = vec![
        TimelineNodeData::Tmac(Tmac { id: 1, time: 0, tmtr_ids: vec![1, 2] }),
        TimelineNodeData::Tmtr(Tmtr { id: 2, time: 0, animation_ids: vec![3] }),
        TimelineNodeData::Tmfc(Tmfc {
            id: 3,
            time: 0,
            data: vec![
                TmfcData { attribute: Attribute::PositionX, rows: vec![TmfcRow { time: 0, value: 0 }; 4] },
                TmfcData { attribute: Attribute::PositionY, rows: vec![] },
            ],
        }),
        TimelineNodeData::C042,
    ];
    // (1 + 2) + (1 + 1) + (1 + (1 + 4) + (1 + 0)) + 1
    assert_eq!(physis_tmb_free(to_c_tmb(&nodes)), 13);
    assert_eq!(physis_tmb_free(physis_Tmb::default()), 0);
}
