use std::cell::Cell;

use tilemap_render::bind_group::{queue_tilemap_bind_group, queue_transform_bind_group};
use tilemap_render::cache::{ImageBindGroups, SpecializedPipelines};
use tilemap_render::draw::{
    draw_tilemap, BindGroupRef, DrawError, DrawInputs, DrawMesh, DrawStep, GpuMeshInfo,
    IndexFormat, IndexInfo, SetMaterialBindGroup, SetMeshViewBindGroup,
};
use tilemap_render::extract::{extract_tilemaps, ChunkSource, RenderTilemaps};
use tilemap_render::key::{LayerId, TilemapPipelineKey};
use tilemap_render::pipeline::{
    BindingType, BlendFactor, Face, FrontFace, LayoutSlot, ShaderStages, TilemapPipeline,
    VertexFormat, TILEMAP_SHADER_HANDLE,
};
use tilemap_render::queue::{queue_meshes, DrawableEntity, QueueError, Transparent2dItem};

fn drawable(entity: u64, layer: u16, image: u64) -> DrawableEntity {
    DrawableEntity {
        entity,
        layer_id: Some(LayerId(layer)),
        image: Some(image),
        has_mesh: true,
        has_mesh_uniform: true,
    }
}

fn make_group(image: u64) -> Option<u64> {
    Some(image * 10)
}

#[test]
fn msaa_round_trip_all_counts() {
    for n in 1u32..=64 {
        let key = TilemapPipelineKey::from_msaa_samples(n);
        assert_eq!(key.msaa_samples(), n);
        assert_eq!(key.bits(), (n - 1) << 26);
    }
}

#[test]
fn msaa_four_samples_bits() {
    let key = TilemapPipelineKey::from_msaa_samples(4);
    assert_eq!(key.bits(), 0x0c00_0000);
    assert_eq!(key.msaa_samples(), 4);
    assert_eq!(TilemapPipelineKey::from_msaa_samples(64).bits(), 0xfc00_0000);
}

#[test]
fn msaa_out_of_range_rejected() {
    assert!(TilemapPipelineKey::try_from_msaa_samples(0).is_none());
    assert!(TilemapPipelineKey::try_from_msaa_samples(65).is_none());
    assert!(TilemapPipelineKey::try_from_msaa_samples(128).is_none());
    assert_eq!(
        TilemapPipelineKey::try_from_msaa_samples(8),
        Some(TilemapPipelineKey::from_msaa_samples(8))
    );
}

#[test]
fn key_none_and_from_bits() {
    assert_eq!(TilemapPipelineKey::none().msaa_samples(), 1);
    assert_eq!(TilemapPipelineKey::none().bits(), 0);
    assert!(TilemapPipelineKey::from_bits(1).is_none());
    assert_eq!(
        TilemapPipelineKey::from_bits(0x0400_0000).map(|k| k.msaa_samples()),
        Some(2)
    );
}

#[test]
fn queue_orders_by_layer() {
    let mut pipelines = SpecializedPipelines::new();
    let mut groups: ImageBindGroups<u64> = ImageBindGroups::new();
    let drawables = vec![drawable(10, 3, 1), drawable(11, 1, 1), drawable(12, 2, 1)];
    let phases = queue_meshes(true, &vec![7], &drawables, 1, 5, &mut pipelines, &mut groups, &make_group)
        .unwrap();
    assert_eq!(phases.len(), 1);
    assert_eq!(phases[0].view, 7);
    let order: Vec<u64> = phases[0].items.iter().map(|i| i.entity).collect();
    assert_eq!(order, vec![11, 12, 10]);
    let keys: Vec<u16> = phases[0].items.iter().map(|i| i.sort_key).collect();
    assert_eq!(keys, vec![1, 2, 3]);
    assert_eq!(
        phases[0].items[0],
        Transparent2dItem { entity: 11, draw_function: 5, pipeline: 0, sort_key: 1 }
    );
    assert_eq!(pipelines.len(), 1);
    assert_eq!(pipelines.key_of(0), TilemapPipelineKey::from_msaa_samples(1));
}

#[test]
fn queue_equal_layers_keep_input_order() {
    let mut pipelines = SpecializedPipelines::new();
    let mut groups: ImageBindGroups<u64> = ImageBindGroups::new();
    let drawables = vec![drawable(1, 2, 1), drawable(2, 0, 1), drawable(3, 2, 1), drawable(4, 0, 1)];
    let phases = queue_meshes(true, &vec![1], &drawables, 4, 0, &mut pipelines, &mut groups, &make_group)
        .unwrap();
    let order: Vec<u64> = phases[0].items.iter().map(|i| i.entity).collect();
    assert_eq!(order, vec![2, 4, 1, 3]);
}

#[test]
fn queue_without_view_binding_is_empty() {
    let mut pipelines = SpecializedPipelines::new();
    let mut groups: ImageBindGroups<u64> = ImageBindGroups::new();
    let drawables = vec![drawable(1, 0, 1)];
    let phases = queue_meshes(false, &vec![1, 2], &drawables, 1, 0, &mut pipelines, &mut groups, &make_group)
        .unwrap();
    assert!(phases.is_empty());
    assert_eq!(pipelines.len(), 0);
    assert_eq!(groups.len(), 0);
}

#[test]
fn queue_skips_incomplete_entities() {
    let mut pipelines = SpecializedPipelines::new();
    let mut groups: ImageBindGroups<u64> = ImageBindGroups::new();
    let mut no_mesh = drawable(2, 0, 1);
    no_mesh.has_mesh = false;
    let mut no_layer = drawable(3, 0, 1);
    no_layer.layer_id = None;
    let drawables = vec![drawable(1, 4, 9), no_mesh, no_layer];
    let phases = queue_meshes(true, &vec![1, 2], &drawables, 1, 0, &mut pipelines, &mut groups, &make_group)
        .unwrap();
    assert_eq!(phases.len(), 2);
    assert_eq!(phases[1].view, 2);
    for phase in phases.iter() {
        assert_eq!(phase.items.len(), 1);
        assert_eq!(phase.items[0].entity, 1);
    }
    assert_eq!(groups.len(), 1);
}

#[test]
fn two_images_two_bind_groups() {
    let mut pipelines = SpecializedPipelines::new();
    let mut groups: ImageBindGroups<u64> = ImageBindGroups::new();
    let drawables = vec![drawable(1, 0, 100), drawable(2, 0, 200), drawable(3, 1, 100)];
    queue_meshes(true, &vec![1], &drawables, 1, 0, &mut pipelines, &mut groups, &make_group).unwrap();
    assert_eq!(groups.len(), 2);
    assert_eq!(groups.get(100), Some(&1000));
    assert_eq!(groups.get(200), Some(&2000));
    assert_eq!(groups.get(300), None);
}

#[test]
fn requery_same_image_reuses_bind_group() {
    let calls = Cell::new(0u32);
    let create = |image: u64| {
        calls.set(calls.get() + 1);
        Some(image + 1)
    };
    let mut groups: ImageBindGroups<u64> = ImageBindGroups::new();
    let first = groups.get_or_insert_with(5, &create);
    let second = groups.get_or_insert_with(5, &create);
    assert_eq!(first, Some(0));
    assert_eq!(first, second);
    assert_eq!(calls.get(), 1);
    assert_eq!(groups.len(), 1);
    assert_eq!(*groups.get_at(0), 6);
}

#[test]
fn queue_missing_image_fails() {
    let mut pipelines = SpecializedPipelines::new();
    let mut groups: ImageBindGroups<u64> = ImageBindGroups::new();
    let create = |image: u64| if image == 2 { None } else { Some(image) };
    let drawables = vec![drawable(1, 0, 1), drawable(2, 0, 2)];
    let r = queue_meshes(true, &vec![1], &drawables, 1, 0, &mut pipelines, &mut groups, &create);
    assert_eq!(r.unwrap_err(), QueueError::MissingImage(2));
    assert_eq!(groups.len(), 1);
}

#[test]
fn queue_invalid_sample_count_fails() {
    let mut pipelines = SpecializedPipelines::new();
    let mut groups: ImageBindGroups<u64> = ImageBindGroups::new();
    let drawables = vec![drawable(1, 0, 1)];
    let r = queue_meshes(true, &vec![1], &drawables, 0, 0, &mut pipelines, &mut groups, &make_group);
    assert_eq!(r.unwrap_err(), QueueError::InvalidSampleCount(0));
    let r = queue_meshes(true, &vec![1], &drawables, 65, 0, &mut pipelines, &mut groups, &make_group);
    assert_eq!(r.unwrap_err(), QueueError::InvalidSampleCount(65));
}

#[test]
fn specialize_cache_reuses_ids() {
    let mut pipelines = SpecializedPipelines::new();
    let a = pipelines.specialize(TilemapPipelineKey::from_msaa_samples(1));
    let b = pipelines.specialize(TilemapPipelineKey::from_msaa_samples(4));
    let c = pipelines.specialize(TilemapPipelineKey::from_msaa_samples(1));
    assert_eq!((a, b, c), (0, 1, 0));
    assert_eq!(pipelines.len(), 2);
}

#[test]
fn specialize_descriptor() {
    let pipeline = TilemapPipeline::new();
    let d = pipeline.specialize(TilemapPipelineKey::from_msaa_samples(4));
    assert_eq!(d.shader, TILEMAP_SHADER_HANDLE);
    assert_eq!(d.shader, 8094008129742001941);
    assert_eq!(d.vertex_entry_point, "vertex");
    assert_eq!(d.fragment_entry_point, "fragment");
    assert_eq!(d.vertex_buffer.array_stride, 44);
    let offsets: Vec<u64> = d.vertex_buffer.attributes.iter().map(|a| a.offset).collect();
    assert_eq!(offsets, vec![16, 28, 0]);
    assert_eq!(d.vertex_buffer.attributes[1].format, VertexFormat::Sint32x4);
    assert_eq!(d.blend.color.src_factor, BlendFactor::SrcAlpha);
    assert_eq!(d.blend.color.dst_factor, BlendFactor::OneMinusSrcAlpha);
    assert_eq!(d.blend.alpha.dst_factor, BlendFactor::One);
    assert_eq!(
        d.layout,
        vec![LayoutSlot::View, LayoutSlot::Mesh, LayoutSlot::Uniform, LayoutSlot::Material]
    );
    assert_eq!(d.primitive.front_face, FrontFace::Ccw);
    assert_eq!(d.primitive.cull_mode, Some(Face::Back));
    assert!(!d.depth_stencil);
    assert_eq!(d.multisample.count, 1);
    assert_eq!(d.multisample.mask, u64::MAX);
}

#[test]
fn pipeline_layouts() {
    let p = TilemapPipeline::new();
    assert_eq!(p.view_layout.label, "tilemap_view_layout");
    assert_eq!(
        p.view_layout.entries[0].ty,
        BindingType::UniformBuffer { has_dynamic_offset: true, min_binding_size: 144 }
    );
    assert_eq!(
        p.mesh_layout.entries[0].ty,
        BindingType::UniformBuffer { has_dynamic_offset: true, min_binding_size: 64 }
    );
    assert_eq!(p.uniform_layout.entries[0].visibility, ShaderStages::Vertex);
    assert_eq!(
        p.uniform_layout.entries[0].ty,
        BindingType::UniformBuffer { has_dynamic_offset: true, min_binding_size: 56 }
    );
    assert_eq!(p.material_layout.entries.len(), 2);
    assert_eq!(
        p.material_layout.entries[1].ty,
        BindingType::Sampler { comparison: false, filtering: true }
    );
}

#[test]
fn extraction_twice_is_idempotent() {
    let batch = || {
        vec![
            ChunkSource { entity: 1, layer_id: 3, material: 10, mesh: 20, data: [1u32, 2, 3] },
            ChunkSource { entity: 2, layer_id: 0, material: 11, mesh: 21, data: [4u32, 5, 6] },
        ]
    };
    let mut world: RenderTilemaps<[u32; 3]> = RenderTilemaps::new();
    extract_tilemaps(&mut world, batch());
    let once: Vec<[u32; 3]> = vec![world.get(1).unwrap().data, world.get(2).unwrap().data];
    extract_tilemaps(&mut world, batch());
    assert_eq!(world.len(), 2);
    assert_eq!(vec![world.get(1).unwrap().data, world.get(2).unwrap().data], once);
    assert_eq!(world.get(1).unwrap().layer_id, LayerId(3));
    assert_eq!(world.get(2).unwrap().mesh, 21);
}

#[test]
fn extraction_upserts() {
    let mut world: RenderTilemaps<u32> = RenderTilemaps::new();
    extract_tilemaps(&mut world, vec![ChunkSource { entity: 1, layer_id: 1, material: 1, mesh: 1, data: 1 }]);
    extract_tilemaps(&mut world, vec![
        ChunkSource { entity: 1, layer_id: 2, material: 1, mesh: 1, data: 9 },
        ChunkSource { entity: 5, layer_id: 0, material: 2, mesh: 2, data: 3 },
    ]);
    assert_eq!(world.len(), 2);
    assert_eq!(world.get(1).unwrap().data, 9);
    assert_eq!(world.get(1).unwrap().layer_id, LayerId(2));
    assert!(world.get(4).is_none());
}

fn full_inputs(mesh: Option<GpuMeshInfo>) -> DrawInputs {
    DrawInputs {
        view_uniform_offset: Some(256),
        has_view_bind_group: true,
        has_transform_bind_group: true,
        transform_index: Some(64),
        has_tilemap_bind_group: true,
        tilemap_index: Some(128),
        image: Some(7),
        mesh,
    }
}

#[test]
fn draw_non_indexed_mesh_fails() {
    let mesh = GpuMeshInfo { index_info: None };
    assert_eq!(DrawMesh::render(Some(mesh)).unwrap_err(), DrawError::NonIndexedMesh);
    assert_eq!(DrawMesh::render(None).unwrap_err(), DrawError::MissingMesh);
    let mut groups: ImageBindGroups<u64> = ImageBindGroups::new();
    groups.get_or_insert_with(7, &make_group);
    let item = Transparent2dItem { entity: 1, draw_function: 0, pipeline: 3, sort_key: 0 };
    assert_eq!(
        draw_tilemap(item, full_inputs(Some(mesh)), &groups).unwrap_err(),
        DrawError::NonIndexedMesh
    );
}

#[test]
fn draw_full_sequence() {
    let mut groups: ImageBindGroups<u64> = ImageBindGroups::new();
    groups.get_or_insert_with(7, &make_group);
    let mesh = GpuMeshInfo { index_info: Some(IndexInfo { count: 36, format: IndexFormat::Uint32 }) };
    let item = Transparent2dItem { entity: 1, draw_function: 0, pipeline: 3, sort_key: 0 };
    let steps = draw_tilemap(item, full_inputs(Some(mesh)), &groups).unwrap();
    assert_eq!(
        steps,
        vec![
            DrawStep::SetPipeline(3),
            DrawStep::SetBindGroup { slot: 0, group: BindGroupRef::View, dynamic_offset: Some(256) },
            DrawStep::SetBindGroup { slot: 1, group: BindGroupRef::Transform, dynamic_offset: Some(64) },
            DrawStep::SetBindGroup { slot: 2, group: BindGroupRef::Tilemap, dynamic_offset: Some(128) },
            DrawStep::SetBindGroup { slot: 3, group: BindGroupRef::Material(7), dynamic_offset: None },
            DrawStep::SetVertexBuffer { slot: 0 },
            DrawStep::SetIndexBuffer { format: IndexFormat::Uint32 },
            DrawStep::DrawIndexed { index_count: 36 },
        ]
    );
}

#[test]
fn draw_stops_at_first_missing_binding() {
    let groups: ImageBindGroups<u64> = ImageBindGroups::new();
    let mesh = GpuMeshInfo { index_info: Some(IndexInfo { count: 6, format: IndexFormat::Uint16 }) };
    let item = Transparent2dItem { entity: 1, draw_function: 0, pipeline: 0, sort_key: 0 };
    assert_eq!(
        draw_tilemap(item, full_inputs(Some(mesh)), &groups).unwrap_err(),
        DrawError::MissingMaterialBindGroup
    );
    let mut inputs = full_inputs(Some(mesh));
    inputs.tilemap_index = None;
    inputs.has_transform_bind_group = false;
    assert_eq!(
        draw_tilemap(item, inputs, &groups).unwrap_err(),
        DrawError::MissingTransformBindGroup
    );
    assert_eq!(
        SetMeshViewBindGroup::<0>::render(None, true).unwrap_err(),
        DrawError::MissingViewBindGroup
    );
    assert_eq!(
        SetMaterialBindGroup::<3>::render(&groups, Some(7)).unwrap_err(),
        DrawError::MissingMaterialBindGroup
    );
}

#[test]
fn uniform_bind_groups_follow_binding() {
    let made = queue_transform_bind_group(Some(3u32), |b: u32| b * 2);
    assert_eq!(made.map(|g| g.value), Some(6));
    let none = queue_transform_bind_group(None::<u32>, |b: u32| b * 2);
    assert!(none.is_none());
    let tile = queue_tilemap_bind_group(Some(4u32), |b: u32| b + 1);
    assert_eq!(tile.map(|g| g.value), Some(5));
    assert!(queue_tilemap_bind_group(None::<u32>, |b: u32| b + 1).is_none());
}
