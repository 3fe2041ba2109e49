use physis_capi::mtrl::{
    physis_ColorTable, to_c_material, ColorTable, DawntrailColorTableRow, LegacyColorTableRow, Material, ShaderKey,
};

fn material(name: &str) -> Material {
    Material {
        shader_package_name: name.as_bytes().to_vec(),
        texture_paths: vec![b"chara/a_d.tex".to_vec(), b"chara/a_n.tex".to_vec()],
        shader_keys: vec![ShaderKey { category: 0xB616DC5A, value: 0x600EF9DF }],
        sampler_texture_usages: vec![0x115306BE, 0x0C5EC1F1],
        color_table: None,
    }
}

fn legacy_row(tile_set: u16) -> LegacyColorTableRow {
    LegacyColorTableRow {
        diffuse_color: [1.0f32.to_bits(); 3],
        specular_strength: 0.5f32.to_bits(),
        specular_color: [0; 3],
        gloss_strength: 20.0f32.to_bits(),
        emissive_color: [0; 3],
        tile_set,
        material_repeat_x: 16.0f32.to_bits(),
        material_skew: [0; 2],
        material_repeat_y: 16.0f32.to_bits(),
    }
}

#[test]
fn material_exports_names_keys_and_samplers() {
    let e = to_c_material(&material("character.shpk"));
    assert_eq!(e.shpk_name, b"character.shpk\0".to_vec());
    assert_eq!(e.num_textures, 2);
    assert_eq!(e.textures[1], b"chara/a_n.tex\0".to_vec());
    assert_eq!(e.num_shader_keys, 1);
    assert_eq!(e.shader_keys[0], ShaderKey { category: 0xB616DC5A, value: 0x600EF9DF });
    assert_eq!(e.num_samplers, 2);
    assert_eq!(e.sampler_texture_usages, vec![0x115306BE, 0x0C5EC1F1]);
    assert!(matches!(e.color_table, physis_ColorTable::Absent));
    assert_eq!(e.color_table.discriminant(), 0);
}

#[test]
fn material_exports_its_color_table() {
    let mut m = material("character.shpk");
    m.color_table = Some(ColorTable::LegacyColorTable((0..16).map(legacy_row).collect()));
    let e = to_c_material(&m);
    assert_eq!(e.color_table.discriminant(), 1);
    match &e.color_table {
        physis_ColorTable::LegacyColorTable(t) => {
            assert_eq!(t.num_rows, 16);
            assert_eq!(t.rows[7], legacy_row(7));
            assert_eq!(f32::from_bits(t.rows[0].gloss_strength), 20.0f32);
        }
        _ => panic!("wrong arm"),
    }
    // name + 2 paths with strings + 1 key + 2 usages + 16 rows
    assert_eq!(physis_capi::mtrl::physis_material_free(e), 1 + 4 + 1 + 2 + 16);

    let row = DawntrailColorTableRow {
        diffuse_color: [0; 3], unknown1: 0, specular_color: [0; 3], unknown2: 0, emissive_color: [0; 3], unknown3: 0,
        sheen_rate: 1, sheen_tint: 2, sheen_aperture: 3, unknown4: 0, roughness: 4, unknown5: 0, metalness: 5,
        anisotropy: 6, unknown6: 0, sphere_mask: 7, unknown7: 0, unknown8: 0, shader_index: 8, tile_set: 9,
        tile_alpha: 10, sphere_index: 11, material_repeat: [12, 13], material_skew: [14, 15],
    };
    m.color_table = Some(ColorTable::DawntrailColorTable(vec![row; 32]));
    let e = to_c_material(&m);
    assert_eq!(e.color_table.discriminant(), 2);
    assert!(matches!(&e.color_table, physis_ColorTable::DawntrailColorTable(t) if t.num_rows == 32 && t.rows[31] == row));
    m.color_table = Some(ColorTable::OpaqueColorTable);
    assert!(matches!(to_c_material(&m).color_table, physis_ColorTable::OpaqueColorTable));
}

#[test]
fn material_with_bad_name_gives_sentinel() {
    let e = to_c_material(&material("char\0.shpk"));
    assert!(e.shpk_name.is_empty());
    assert_eq!((e.num_textures, e.num_shader_keys, e.num_samplers), (0, 0, 0));
}

#[test]
fn material_free_counts() {
    // name + 2 paths with strings + 1 key + 2 usages
    assert_eq!(physis_capi::mtrl::physis_material_free(to_c_material(&material("m.shpk"))), 1 + 4 + 1 + 2);
    assert_eq!(physis_capi::mtrl::physis_material_free(to_c_material(&material("\0"))), 0);
}
