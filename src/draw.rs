use vstd::prelude::*;
use crate::cache::ImageBindGroups;
use crate::queue::Transparent2dItem;

verus! {

/// The bind group a draw step binds.
#[derive(Clone, Copy, Debug, PartialEq, Eq, Structural)]
pub enum BindGroupRef {
    /// The per-view bind group of the view being drawn.
    View,
    /// The frame's mesh transform bind group.
    Transform,
    /// The frame's tilemap uniform bind group.
    Tilemap,
    /// The cached material bind group of an image.
    Material(u64),
}

#[derive(Clone, Copy, Debug, PartialEq, Eq, Structural)]
pub enum IndexFormat {
    Uint16,
    Uint32,
}

/// One command recorded into the render pass.
#[derive(Clone, Copy, Debug, PartialEq, Eq, Structural)]
pub enum DrawStep {
    SetPipeline(usize),
    /// Binds a group at a slot, with at most one dynamic offset.
    SetBindGroup { slot: usize, group: BindGroupRef, dynamic_offset: Option<u32> },
    /// Binds the whole vertex buffer of the mesh at a slot.
    SetVertexBuffer { slot: usize },
    /// Binds the whole index buffer of the mesh.
    SetIndexBuffer { format: IndexFormat },
    /// Draws indices `0..index_count` of one instance, base vertex 0.
    DrawIndexed { index_count: u32 },
}

#[derive(Clone, Copy, Debug, PartialEq, Eq, Structural)]
pub enum DrawError {
    /// The view has no uniform offset or no view bind group.
    MissingViewBindGroup,
    /// The frame has no transform bind group or the entity no transform index.
    MissingTransformBindGroup,
    /// The frame has no tilemap bind group or the entity no tilemap index.
    MissingTilemapBindGroup,
    /// The entity has no image, or its image has no material bind group.
    MissingMaterialBindGroup,
    /// The entity's mesh has no GPU data.
    MissingMesh,
    /// The mesh has no index data; only indexed drawing is supported.
    NonIndexedMesh,
}

/// Index data of a GPU mesh.
#[derive(Clone, Copy, Debug, PartialEq, Eq, Structural)]
pub struct IndexInfo {
    pub count: u32,
    pub format: IndexFormat,
}

/// What drawing needs to know of a GPU mesh.
#[derive(Clone, Copy, Debug, PartialEq, Eq, Structural)]
pub struct GpuMeshInfo {
    pub index_info: Option<IndexInfo>,
}

/// What the draw of one item reads from the render world.
#[derive(Clone, Copy, Debug)]
pub struct DrawInputs {
    /// Uniform offset of the view being drawn.
    pub view_uniform_offset: Option<u32>,
    pub has_view_bind_group: bool,
    pub has_transform_bind_group: bool,
    /// The entity's index into the transform uniform buffer.
    pub transform_index: Option<u32>,
    pub has_tilemap_bind_group: bool,
    /// The entity's index into the tilemap uniform buffer.
    pub tilemap_index: Option<u32>,
    /// The entity's material image.
    pub image: Option<u64>,
    /// The entity's mesh, when it has GPU data.
    pub mesh: Option<GpuMeshInfo>,
}

/// Binds the view bind group at slot `I` with the view's uniform offset.
pub struct SetMeshViewBindGroup<const I: usize>;

impl<const I: usize> SetMeshViewBindGroup<I> {
    pub fn render(view_uniform_offset: Option<u32>, has_view_bind_group: bool) -> (r: Result<
        DrawStep,
        DrawError,
    >)
        ensures
            r == if view_uniform_offset is Some && has_view_bind_group {
                Ok(DrawStep::SetBindGroup {
                    slot: I,
                    group: BindGroupRef::View,
                    dynamic_offset: view_uniform_offset,
                })
            } else {
                Err(DrawError::MissingViewBindGroup)
            },
    {
        match view_uniform_offset {
            Some(offset) => {
                if has_view_bind_group {
                    Ok(DrawStep::SetBindGroup {
                        slot: I,
                        group: BindGroupRef::View,
                        dynamic_offset: Some(offset),
                    })
                } else {
                    Err(DrawError::MissingViewBindGroup)
                }
            },
            None => Err(DrawError::MissingViewBindGroup),
        }
    }
}

/// Binds the transform bind group at slot `I` with the entity's transform
/// index.
pub struct SetTransformBindGroup<const I: usize>;

impl<const I: usize> SetTransformBindGroup<I> {
    pub fn render(has_transform_bind_group: bool, transform_index: Option<u32>) -> (r: Result<
        DrawStep,
        DrawError,
    >)
        ensures
            r == if has_transform_bind_group && transform_index is Some {
                Ok(DrawStep::SetBindGroup {
                    slot: I,
                    group: BindGroupRef::Transform,
                    dynamic_offset: transform_index,
                })
            } else {
                Err(DrawError::MissingTransformBindGroup)
            },
    {
        match transform_index {
            Some(index) => {
                if has_transform_bind_group {
                    Ok(DrawStep::SetBindGroup {
                        slot: I,
                        group: BindGroupRef::Transform,
                        dynamic_offset: Some(index),
                    })
                } else {
                    Err(DrawError::MissingTransformBindGroup)
                }
            },
            None => Err(DrawError::MissingTransformBindGroup),
        }
    }
}

/// Binds the tilemap uniform bind group at slot `I` with the entity's
/// tilemap uniform index.
pub struct SetTilemapBindGroup<const I: usize>;

impl<const I: usize> SetTilemapBindGroup<I> {
    pub fn render(has_tilemap_bind_group: bool, tilemap_index: Option<u32>) -> (r: Result<
        DrawStep,
        DrawError,
    >)
        ensures
            r == if has_tilemap_bind_group && tilemap_index is Some {
                Ok(DrawStep::SetBindGroup {
                    slot: I,
                    group: BindGroupRef::Tilemap,
                    dynamic_offset: tilemap_index,
                })
            } else {
                Err(DrawError::MissingTilemapBindGroup)
            },
    {
        match tilemap_index {
            Some(index) => {
                if has_tilemap_bind_group {
                    Ok(DrawStep::SetBindGroup {
                        slot: I,
                        group: BindGroupRef::Tilemap,
                        dynamic_offset: Some(index),
                    })
                } else {
                    Err(DrawError::MissingTilemapBindGroup)
                }
            },
            None => Err(DrawError::MissingTilemapBindGroup),
        }
    }
}

/// Binds the material bind group of the entity's image at slot `I`, with
/// no dynamic offset.
pub struct SetMaterialBindGroup<const I: usize>;

impl<const I: usize> SetMaterialBindGroup<I> {
    pub fn render<G>(image_bind_groups: &ImageBindGroups<G>, image: Option<u64>) -> (r: Result<
        DrawStep,
        DrawError,
    >)
        requires
            image_bind_groups.wf(),
        ensures
            r == if image is Some && image_bind_groups.contains(image->0) {
                Ok(DrawStep::SetBindGroup {
                    slot: I,
                    group: BindGroupRef::Material(image->0),
                    dynamic_offset: None,
                })
            } else {
                Err(DrawError::MissingMaterialBindGroup)
            },
    {
        match image {
            Some(image) => match image_bind_groups.find(image) {
                Some(_) => Ok(
                    DrawStep::SetBindGroup {
                        slot: I,
                        group: BindGroupRef::Material(image),
                        dynamic_offset: None,
                    },
                ),
                None => Err(DrawError::MissingMaterialBindGroup),
            },
            None => Err(DrawError::MissingMaterialBindGroup),
        }
    }
}

/// The steps that draw a mesh: its whole vertex buffer at slot 0, its whole
/// index buffer, and one indexed draw of all its indices.
pub open spec fn indexed_draw_steps(info: IndexInfo) -> Seq<DrawStep> {
    seq![
        DrawStep::SetVertexBuffer { slot: 0 },
        DrawStep::SetIndexBuffer { format: info.format },
        DrawStep::DrawIndexed { index_count: info.count },
    ]
}

/// Draws the entity's mesh; a mesh without index data is refused.
pub struct DrawMesh;

impl DrawMesh {
    pub fn render(mesh: Option<GpuMeshInfo>) -> (r: Result<Vec<DrawStep>, DrawError>)
        ensures
            mesh is None ==> r == Err::<Vec<DrawStep>, DrawError>(DrawError::MissingMesh),
            mesh is Some && mesh->0.index_info is None ==> r == Err::<Vec<DrawStep>, DrawError>(
                DrawError::NonIndexedMesh,
            ),
            r is Ok <==> mesh is Some && mesh->0.index_info is Some,
            r is Ok ==> r->Ok_0@ == indexed_draw_steps(mesh->0.index_info->0),
    {
        match mesh {
            None => Err(DrawError::MissingMesh),
            Some(m) => match m.index_info {
                Some(info) => Ok(
                    vec![
                        DrawStep::SetVertexBuffer { slot: 0 },
                        DrawStep::SetIndexBuffer { format: info.format },
                        DrawStep::DrawIndexed { index_count: info.count },
                    ],
                ),
                None => Err(DrawError::NonIndexedMesh),
            },
        }
    }
}

/// Everything the draw of an item needs is present and its mesh is indexed.
pub open spec fn drawable_with<G>(inputs: DrawInputs, image_bind_groups: &ImageBindGroups<G>) -> bool {
    &&& inputs.view_uniform_offset is Some && inputs.has_view_bind_group
    &&& inputs.has_transform_bind_group && inputs.transform_index is Some
    &&& inputs.has_tilemap_bind_group && inputs.tilemap_index is Some
    &&& inputs.image is Some && image_bind_groups.contains(inputs.image->0)
    &&& inputs.mesh is Some && inputs.mesh->0.index_info is Some
}

/// The full command sequence of a tilemap draw item.
pub open spec fn tilemap_draw_steps(item: Transparent2dItem, inputs: DrawInputs) -> Seq<DrawStep> {
    seq![
        DrawStep::SetPipeline(item.pipeline),
        DrawStep::SetBindGroup {
            slot: 0,
            group: BindGroupRef::View,
            dynamic_offset: inputs.view_uniform_offset,
        },
        DrawStep::SetBindGroup {
            slot: 1,
            group: BindGroupRef::Transform,
            dynamic_offset: inputs.transform_index,
        },
        DrawStep::SetBindGroup {
            slot: 2,
            group: BindGroupRef::Tilemap,
            dynamic_offset: inputs.tilemap_index,
        },
        DrawStep::SetBindGroup {
            slot: 3,
            group: BindGroupRef::Material(inputs.image->0),
            dynamic_offset: None,
        },
    ] + indexed_draw_steps(inputs.mesh->0.index_info->0)
}

/// The first failure of the command sequence, in command order.
pub open spec fn first_draw_error<G>(inputs: DrawInputs, image_bind_groups: &ImageBindGroups<G>) -> DrawError {
    if !(inputs.view_uniform_offset is Some && inputs.has_view_bind_group) {
        DrawError::MissingViewBindGroup
    } else if !(inputs.has_transform_bind_group && inputs.transform_index is Some) {
        DrawError::MissingTransformBindGroup
    } else if !(inputs.has_tilemap_bind_group && inputs.tilemap_index is Some) {
        DrawError::MissingTilemapBindGroup
    } else if !(inputs.image is Some && image_bind_groups.contains(inputs.image->0)) {
        DrawError::MissingMaterialBindGroup
    } else if inputs.mesh is None {
        DrawError::MissingMesh
    } else {
        DrawError::NonIndexedMesh
    }
}

/// Records the tilemap draw of an item: its pipeline, the view, transform,
/// tilemap and material bind groups at slots 0 to 3, then the mesh. Stops at
/// the first command whose data is missing.
pub fn draw_tilemap<G>(
    item: Transparent2dItem,
    inputs: DrawInputs,
    image_bind_groups: &ImageBindGroups<G>,
) -> (r: Result<Vec<DrawStep>, DrawError>)
    requires
        image_bind_groups.wf(),
    ensures
        r is Ok <==> drawable_with(inputs, image_bind_groups),
        r is Ok ==> r->Ok_0@ == tilemap_draw_steps(item, inputs),
        r is Err ==> r->Err_0 == first_draw_error(inputs, image_bind_groups),
{
    let mut steps: Vec<DrawStep> = Vec::new();
    steps.push(DrawStep::SetPipeline(item.pipeline));
    let view = SetMeshViewBindGroup::<0>::render(
        inputs.view_uniform_offset,
        inputs.has_view_bind_group,
    )?;
    steps.push(view);
    let transform = SetTransformBindGroup::<1>::render(
        inputs.has_transform_bind_group,
        inputs.transform_index,
    )?;
    steps.push(transform);
    let tilemap = SetTilemapBindGroup::<2>::render(
        inputs.has_tilemap_bind_group,
        inputs.tilemap_index,
    )?;
    steps.push(tilemap);
    let material = SetMaterialBindGroup::<3>::render(image_bind_groups, inputs.image)?;
    steps.push(material);
    let mut mesh_steps = DrawMesh::render(inputs.mesh)?;
    steps.append(&mut mesh_steps);
    assert(steps@ =~= tilemap_draw_steps(item, inputs));
    Ok(steps)
}

} // verus!
