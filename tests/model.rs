use physis_capi::model::{
    physis_mdl_update_vertices, to_c_model, to_c_part, Lod, Model, Part, Shape, SubMesh, Vertex, VertexElement,
};

fn vertex(x: f32) -> Vertex {
    Vertex {
        position: [x.to_bits(), 0, 0],
        uv0: [0; 2],
        uv1: [0; 2],
        normal: [0; 3],
        bitangent: [0; 4],
        color: [1.0f32.to_bits(); 4],
        bone_weight: [0; 4],
        bone_id: [1, 2, 3, 4],
    }
}

fn part(shape_name: &str) -> Part {
    Part {
        vertices: vec![vertex(1.0), vertex(2.0), vertex(3.0)],
        vertex_streams: vec![vec![1, 2, 3, 4], vec![5, 6]],
        vertex_stream_strides: vec![4, 2],
        indices: vec![0, 1, 2],
        material_index: 5,
        submeshes: vec![SubMesh { index_count: 3, index_offset: 0 }],
        shapes: vec![Shape { name: shape_name.as_bytes().to_vec(), morphed_vertices: vec![vertex(9.0)] }],
    }
}

#[test]
fn part_exports_arrays_and_counts() {
    let e = to_c_part(&part("shp_a")).unwrap();
    assert_eq!(e.num_vertices, 3);
    assert_eq!(f32::from_bits(e.vertices[2].position[0]), 3.0f32);
    assert_eq!(e.vertices[0].bone_id, [1, 2, 3, 4]);
    assert_eq!(e.streams, vec![vec![1, 2, 3, 4], vec![5, 6]]);
    assert_eq!(e.stream_sizes, vec![4, 2]);
    assert_eq!(e.stream_strides, vec![4, 2]);
    assert_eq!(e.num_streams, 2);
    assert_eq!((e.num_indices, e.indices.clone()), (3, vec![0, 1, 2]));
    assert_eq!(e.material_index, 5);
    assert_eq!(e.num_submeshes, 1);
    assert_eq!(e.submeshes[0], SubMesh { index_count: 3, index_offset: 0 });
    assert_eq!(e.num_shapes, 1);
    assert_eq!(e.shapes[0].name, b"shp_a\0".to_vec());
    assert_eq!(e.shapes[0].morphed_vertices, vec![vertex(9.0)]);
}

#[test]
fn model_exports_lods_and_names() {
    let element = VertexElement { stream: 0, offset: 0, vertex_type: 2, vertex_usage: 0, usage_index: 0 };
    let m = Model {
        lods: vec![Lod { vertex_elements: vec![element], parts: vec![part("a"), part("b")] }, Lod { vertex_elements: vec![], parts: vec![] }],
        affected_bone_names: vec![b"j_kao".to_vec()],
        material_names: vec![b"/mt_c0101.mtrl".to_vec(), b"/mt_b.mtrl".to_vec()],
    };
    let e = to_c_model(&m);
    assert_eq!(e.num_lod, 2);
    assert_eq!(e.lods[0].num_vertex_elements, 1);
    assert_eq!(e.lods[0].vertex_elements[0], element);
    assert_eq!(e.lods[0].num_parts, 2);
    assert_eq!(e.lods[0].parts[1].shapes[0].name, b"b\0".to_vec());
    assert_eq!(e.lods[1].num_parts, 0);
    assert_eq!(e.num_affected_bones, 1);
    assert_eq!(e.affected_bone_names[0], b"j_kao\0".to_vec());
    assert_eq!(e.num_material_names, 2);
}

#[test]
fn bad_shape_name_gives_empty_model() {
    assert!(to_c_part(&part("s\0")).is_none());
    assert!(physis_mdl_update_vertices(&vec![Lod { vertex_elements: vec![], parts: vec![part("\0")] }]).is_none());
    let m = Model { lods: vec![Lod { vertex_elements: vec![], parts: vec![part("x\0")] }], affected_bone_names: vec![], material_names: vec![] };
    let e = to_c_model(&m);
    assert_eq!((e.num_lod, e.num_affected_bones, e.num_material_names), (0, 0, 0));
    assert!(e.lods.is_empty());
}

#[test]
fn model_free_counts_every_element() {
    // part: 1 + 3 vertices + streams (1 + 4) + (1 + 2) + 2 sizes + 2 strides + 3 indices + 1 submesh + shape (2 + 1)
    let part_cost = 1 + 3 + 5 + 3 + 2 + 2 + 3 + 1 + 3;
    let m = Model {
        lods: vec![Lod { vertex_elements: vec![VertexElement { stream: 0, offset: 0, vertex_type: 0, vertex_usage: 0, usage_index: 0 }], parts: vec![part("a")] }],
        affected_bone_names: vec![b"j".to_vec()],
        material_names: vec![],
    };
    assert_eq!(physis_capi::model::physis_mdl_free(to_c_model(&m)), (1 + 1 + part_cost) + 2);
}
