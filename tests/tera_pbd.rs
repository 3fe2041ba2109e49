use physis_capi::pbd::{to_c_deform_matrices, PreBoneDeformBone};
use physis_capi::tera::{to_c_terrain, PlateModel};

#[test]
fn plates_export_with_positions_and_names() {
    let plates = vec![
        PlateModel { position: [1.5f32.to_bits(), (-2.0f32).to_bits()], filename: b"0000.mdl".to_vec() },
        PlateModel { position: [0, 0], filename: b"0001.mdl".to_vec() },
    ];
    let t = to_c_terrain(&plates);
    assert_eq!(t.num_plates, 2);
    assert_eq!(f32::from_bits(t.plates[0].position[1]), -2.0f32);
    assert_eq!(t.plates[1].filename, b"0001.mdl\0".to_vec());
}

#[test]
fn plate_name_with_nul_gives_empty_terrain() {
    let t = to_c_terrain(&vec![PlateModel { position: [0, 0], filename: b"0\0".to_vec() }]);
    assert_eq!(t.num_plates, 0);
    assert!(t.plates.is_empty());
}

#[test]
fn deform_bones_export_in_order() {
    let m = to_c_deform_matrices(&vec![
        PreBoneDeformBone { name: b"j_kosi".to_vec(), deform: [1.0f32.to_bits(); 12] },
        PreBoneDeformBone { name: b"j_sebo_a".to_vec(), deform: [7; 12] },
    ]);
    assert_eq!(m.num_bones, 2);
    assert_eq!(m.bones[0].name, b"j_kosi\0".to_vec());
    assert_eq!(f32::from_bits(m.bones[0].deform[11]), 1.0f32);
    assert_eq!(m.bones[1].deform, [7; 12]);
    let none = to_c_deform_matrices(&vec![PreBoneDeformBone { name: b"\0".to_vec(), deform: [0; 12] }]);
    assert_eq!(none.num_bones, 0);
}

#[test]
fn terrain_and_deform_free_counts() {
    let t = to_c_terrain(&(0..3).map(|_| PlateModel { position: [0, 0], filename: b"0000.mdl".to_vec() }).collect());
    assert_eq!(physis_capi::tera::physis_terrain_free(t), 6);
    let m = to_c_deform_matrices(&vec![PreBoneDeformBone { name: b"n".to_vec(), deform: [0; 12] }]);
    assert_eq!(physis_capi::pbd::physis_deform_matrices_free(m), 2);
}
