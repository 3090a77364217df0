use graphics::model::{
    first_unresolved_mesh, material_bind_entries, BindingEntry, BindingResource, HasMaterials, HasMeshes, MatModel,
    Material, Mesh, ModelError, ModelMaterial, TextureRole,
};

#[test]
fn mesh_without_material_uses_material_zero() {
    let m = Mesh::new("cube.obj".to_string(), 1u32, 2u32, 36, None);
    assert_eq!(m.material, 0);
    assert_eq!(m.num_elements, 36);
    assert_eq!(m.vertex_buffer, 1);
    assert_eq!(m.index_buffer, 2);
    assert_eq!(m.name, "cube.obj");
    let n = Mesh::new("cube.obj".to_string(), 1u32, 2u32, 36, Some(4));
    assert_eq!(n.material, 4);
}

#[test]
fn material_binding_layout_order() {
    assert_eq!(
        material_bind_entries(),
        vec![
            BindingEntry { binding: 0, resource: BindingResource::TextureView(TextureRole::Diffuse) },
            BindingEntry { binding: 1, resource: BindingResource::Sampler(TextureRole::Diffuse) },
            BindingEntry { binding: 2, resource: BindingResource::TextureView(TextureRole::Normal) },
            BindingEntry { binding: 3, resource: BindingResource::Sampler(TextureRole::Normal) },
        ]
    );
}

#[test]
fn material_exposes_its_bind_group() {
    let m = ModelMaterial::new("brick".to_string(), "diffuse", "normal", 42u32);
    assert_eq!(*m.bind_group(), 42);
    assert_eq!(m.diffuse_texture, "diffuse");
    assert_eq!(m.normal_texture, "normal");
    assert_eq!(m.name, "brick");
}

#[test]
fn model_rejects_missing_material() {
    let meshes = vec![
        Mesh::new("a".to_string(), 0u32, 0u32, 3, Some(0)),
        Mesh::new("b".to_string(), 0u32, 0u32, 3, Some(2)),
        Mesh::new("c".to_string(), 0u32, 0u32, 3, Some(5)),
    ];
    let materials = vec![
        ModelMaterial::new("m0".to_string(), (), (), 0u32),
        ModelMaterial::new("m1".to_string(), (), (), 1u32),
    ];
    match MatModel::new(meshes, materials) {
        Err(e) => assert_eq!(e, ModelError::MaterialOutOfRange { mesh: 1, material: 2 }),
        Ok(_) => panic!("model with a missing material was accepted"),
    }
}

#[test]
fn model_accepts_resolving_materials() {
    let meshes = vec![
        Mesh::new("a".to_string(), 0u32, 0u32, 3, Some(1)),
        Mesh::new("b".to_string(), 0u32, 0u32, 3, None),
    ];
    let materials = vec![
        ModelMaterial::new("m0".to_string(), (), (), 0u32),
        ModelMaterial::new("m1".to_string(), (), (), 1u32),
    ];
    let model = MatModel::new(meshes, materials).unwrap();
    assert_eq!(model.meshes().len(), 2);
    assert_eq!(model.materials().len(), 2);
    assert_eq!(model.meshes()[1].material, 0);
}

#[test]
fn first_unresolved_mesh_finds_earliest() {
    let meshes = vec![
        Mesh::new("a".to_string(), 0u32, 0u32, 3, Some(0)),
        Mesh::new("b".to_string(), 0u32, 0u32, 3, Some(3)),
        Mesh::new("c".to_string(), 0u32, 0u32, 3, Some(4)),
    ];
    assert_eq!(first_unresolved_mesh(&meshes, 3), Some(1));
    assert_eq!(first_unresolved_mesh(&meshes, 4), Some(2));
    assert_eq!(first_unresolved_mesh(&meshes, 5), None);
    let none: Vec<Mesh<u32>> = vec![];
    assert_eq!(first_unresolved_mesh(&none, 0), None);
}
