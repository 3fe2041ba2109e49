use physis_capi::shpk::{
    build_selector, physis_get_shader_parameter_array, physis_shpk_build_selector_from_all_keys, physis_shpk_crc,
    to_c_shpk, to_c_shpk_node, Key, Shader, ShaderNode, ShaderPackage, ShaderParameter,
};

fn shader(name: &str) -> Shader {
    Shader {
        bytecode: vec![0xD1, 0xBC, 1, 2],
        scalar_parameters: vec![ShaderParameter { slot: 3, name: name.as_bytes().to_vec() }],
        resource_parameters: vec![],
    }
}

fn package(name: &str) -> ShaderPackage {
    ShaderPackage {
        vertex_shaders: vec![shader(name)],
        pixel_shaders: vec![shader("g_PixelParams"), shader("g_Other")],
        system_keys: vec![Key { id: 1, default_value: 10 }],
        scene_keys: vec![Key { id: 2, default_value: 20 }, Key { id: 3, default_value: 30 }],
        material_keys: vec![],
        sub_view_key1_default: 7,
        sub_view_key2_default: 8,
        material_parameters_size: 64,
    }
}

#[test]
fn package_exports_each_key_list_as_itself() {
    let e = to_c_shpk(&package("g_CommonParameter"));
    assert_eq!(e.num_vertex_shaders, 1);
    assert_eq!(e.num_pixel_shaders, 2);
    assert_eq!(e.vertex_shaders[0].len, 4);
    assert_eq!(e.vertex_shaders[0].bytecode, vec![0xD1, 0xBC, 1, 2]);
    assert_eq!(e.vertex_shaders[0].num_scalar_parameters, 1);
    assert_eq!(e.vertex_shaders[0].scalar_parameters[0].slot, 3);
    assert_eq!(e.vertex_shaders[0].scalar_parameters[0].name, b"g_CommonParameter\0".to_vec());
    assert_eq!(e.num_system_keys, 1);
    assert_eq!(e.system_keys, vec![Key { id: 1, default_value: 10 }]);
    assert_eq!(e.num_scene_keys, 2);
    assert_eq!(e.scene_keys[1], Key { id: 3, default_value: 30 });
    assert_eq!(e.num_material_keys, 0);
    assert_eq!((e.sub_view_key1_default, e.sub_view_key2_default, e.material_parameters_size), (7, 8, 64));
}

#[test]
fn bad_parameter_name_gives_empty_package() {
    let e = to_c_shpk(&package("bad\0name"));
    assert_eq!((e.num_vertex_shaders, e.num_pixel_shaders, e.num_system_keys), (0, 0, 0));
    assert!(e.vertex_shaders.is_empty() && e.scene_keys.is_empty());
    assert!(physis_get_shader_parameter_array(&vec![ShaderParameter { slot: 0, name: b"\0".to_vec() }]).is_none());
}

#[test]
fn node_exports_keys_and_passes() {
    let n = ShaderNode {
        selector: 99,
        pass_count: 2,
        pass_indices: [1; 16],
        system_keys: vec![1, 2],
        scene_keys: vec![],
        material_keys: vec![5],
        subview_keys: vec![6, 7, 8],
    };
    let e = to_c_shpk_node(&n);
    assert_eq!((e.selector, e.pass_count), (99, 2));
    assert_eq!(e.pass_indices, [1; 16]);
    assert_eq!((e.system_key_count, e.scene_key_count, e.material_key_count, e.subview_key_count), (2, 0, 1, 3));
    assert_eq!(e.subview_keys, vec![6, 7, 8]);
}

#[test]
fn selector_weights_keys_by_powers_of_31() {
    assert_eq!(build_selector(&[]), 0);
    assert_eq!(build_selector(&[5]), 5);
    assert_eq!(build_selector(&[1, 2, 3]), 1 + 2 * 31 + 3 * 961);
    assert_eq!(build_selector(&[u32::MAX, u32::MAX]), u32::MAX.wrapping_add(u32::MAX.wrapping_mul(31)));
}

#[test]
fn selector_matches_the_shader_package_rule() {
    let sys = [0x1234_5678u32, 7];
    let scene = [u32::MAX, 3, 9];
    let mat = [42u32];
    let sub = [1u32, 2];
    let ours = physis_shpk_build_selector_from_all_keys(&sys, &scene, &mat, &sub);
    let theirs = physis::shpk::ShaderPackage::build_selector_from_all_keys(&sys, &scene, &mat, &sub);
    assert_eq!(ours, theirs);
    assert_eq!(
        ours,
        build_selector(&[build_selector(&sys), build_selector(&scene), build_selector(&mat), build_selector(&sub)])
    );
}

#[test]
fn shader_crc_is_the_package_checksum() {
    assert_eq!(physis_shpk_crc("g_MaterialParameter"), physis::shpk::ShaderPackage::crc("g_MaterialParameter"));
    assert_ne!(physis_shpk_crc("a"), physis_shpk_crc("b"));
}

#[test]
fn package_and_node_free_counts() {
    // vertex shader: 1 + 4 bytes + 1 parameter * 2; two pixel shaders alike; 3 keys
    assert_eq!(physis_capi::shpk::physis_shpk_free(to_c_shpk(&package("p"))), 3 * 7 + 3);
    let n = ShaderNode { selector: 0, pass_count: 0, pass_indices: [0; 16], system_keys: vec![1], scene_keys: vec![2, 3], material_keys: vec![], subview_keys: vec![4] };
    assert_eq!(physis_capi::shpk::physis_shpk_node_free(to_c_shpk_node(&n)), 4);
    assert_eq!(physis_capi::shpk::physis_shpk_free(to_c_shpk(&package("\0"))), 0);
}
