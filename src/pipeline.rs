use vstd::prelude::*;
use crate::key::TilemapPipelineKey;

verus! {

/// Id of the tilemap shader asset; a fixed, globally unique handle.
pub const TILEMAP_SHADER_HANDLE: u64 = 8094008129742001941;

/// Byte size of the view uniform bound at the view slot.
pub const VIEW_UNIFORM_SIZE: u64 = 144;

/// Byte size of a mesh uniform (one 4x4 float matrix).
pub const MESH_UNIFORM_SIZE: u64 = 64;

/// Byte size of the tilemap uniform data.
pub const TILEMAP_UNIFORM_SIZE: u64 = 56;

/// Byte stride of one vertex: color, position and uv.
pub const VERTEX_STRIDE: u64 = 44;

#[derive(Clone, Copy, Debug, PartialEq, Eq, Structural)]
pub enum ShaderStages {
    Vertex,
    Fragment,
    VertexFragment,
}

#[derive(Clone, Copy, Debug, PartialEq, Eq, Structural)]
pub enum BindingType {
    UniformBuffer { has_dynamic_offset: bool, min_binding_size: u64 },
    /// A two-dimensional float texture.
    Texture2d { multisampled: bool, filterable: bool },
    Sampler { comparison: bool, filtering: bool },
}

#[derive(Clone, Copy, Debug, PartialEq, Eq, Structural)]
pub struct BindGroupLayoutEntry {
    pub binding: u32,
    pub visibility: ShaderStages,
    pub ty: BindingType,
}

#[derive(Debug)]
pub struct BindGroupLayoutDescriptor {
    pub label: &'static str,
    pub entries: Vec<BindGroupLayoutEntry>,
}

/// The four bind group layouts the tilemap shader consumes.
#[derive(Debug)]
pub struct TilemapPipeline {
    pub view_layout: BindGroupLayoutDescriptor,
    pub uniform_layout: BindGroupLayoutDescriptor,
    pub material_layout: BindGroupLayoutDescriptor,
    pub mesh_layout: BindGroupLayoutDescriptor,
}

/// A dynamically offset uniform buffer entry at binding 0.
pub open spec fn uniform_entry(visibility: ShaderStages, size: u64) -> BindGroupLayoutEntry {
    BindGroupLayoutEntry {
        binding: 0,
        visibility,
        ty: BindingType::UniformBuffer { has_dynamic_offset: true, min_binding_size: size },
    }
}

pub open spec fn texture_entry() -> BindGroupLayoutEntry {
    BindGroupLayoutEntry {
        binding: 0,
        visibility: ShaderStages::Fragment,
        ty: BindingType::Texture2d { multisampled: false, filterable: false },
    }
}

pub open spec fn sampler_entry() -> BindGroupLayoutEntry {
    BindGroupLayoutEntry {
        binding: 1,
        visibility: ShaderStages::Fragment,
        ty: BindingType::Sampler { comparison: false, filtering: true },
    }
}

#[derive(Clone, Copy, Debug, PartialEq, Eq, Structural)]
pub enum VertexFormat {
    Float32x3,
    Float32x4,
    Sint32x4,
}

#[derive(Clone, Copy, Debug, PartialEq, Eq, Structural)]
pub enum VertexStepMode {
    Vertex,
    Instance,
}

#[derive(Clone, Copy, Debug, PartialEq, Eq, Structural)]
pub struct VertexAttribute {
    pub format: VertexFormat,
    pub offset: u64,
    pub shader_location: u32,
}

#[derive(Debug)]
pub struct VertexBufferLayout {
    pub array_stride: u64,
    pub step_mode: VertexStepMode,
    pub attributes: Vec<VertexAttribute>,
}

#[derive(Clone, Copy, Debug, PartialEq, Eq, Structural)]
pub enum BlendFactor {
    One,
    SrcAlpha,
    OneMinusSrcAlpha,
}

#[derive(Clone, Copy, Debug, PartialEq, Eq, Structural)]
pub enum BlendOperation {
    Add,
}

#[derive(Clone, Copy, Debug, PartialEq, Eq, Structural)]
pub struct BlendComponent {
    pub src_factor: BlendFactor,
    pub dst_factor: BlendFactor,
    pub operation: BlendOperation,
}

#[derive(Clone, Copy, Debug, PartialEq, Eq, Structural)]
pub struct BlendState {
    pub color: BlendComponent,
    pub alpha: BlendComponent,
}

#[derive(Clone, Copy, Debug, PartialEq, Eq, Structural)]
pub enum FrontFace {
    Ccw,
    Cw,
}

#[derive(Clone, Copy, Debug, PartialEq, Eq, Structural)]
pub enum Face {
    Front,
    Back,
}

#[derive(Clone, Copy, Debug, PartialEq, Eq, Structural)]
pub enum PolygonMode {
    Fill,
    Line,
    Point,
}

#[derive(Clone, Copy, Debug, PartialEq, Eq, Structural)]
pub enum PrimitiveTopology {
    TriangleList,
    TriangleStrip,
}

#[derive(Clone, Copy, Debug, PartialEq, Eq, Structural)]
pub struct PrimitiveState {
    pub front_face: FrontFace,
    pub cull_mode: Option<Face>,
    pub polygon_mode: PolygonMode,
    pub clamp_depth: bool,
    pub conservative: bool,
    pub topology: PrimitiveTopology,
}

#[derive(Clone, Copy, Debug, PartialEq, Eq, Structural)]
pub struct MultisampleState {
    pub count: u32,
    pub mask: u64,
    pub alpha_to_coverage_enabled: bool,
}

/// Which of the pipeline's layouts stands at a bind group slot.
#[derive(Clone, Copy, Debug, PartialEq, Eq, Structural)]
pub enum LayoutSlot {
    View,
    Mesh,
    Uniform,
    Material,
}

/// A full graphics-pipeline configuration. The fragment stage writes all
/// color channels of the view's default texture format, with `blend`.
#[derive(Debug)]
pub struct RenderPipelineDescriptor {
    pub label: &'static str,
    pub shader: u64,
    pub vertex_entry_point: &'static str,
    pub fragment_entry_point: &'static str,
    pub vertex_buffer: VertexBufferLayout,
    pub blend: BlendState,
    pub layout: Vec<LayoutSlot>,
    pub primitive: PrimitiveState,
    pub depth_stencil: bool,
    pub multisample: MultisampleState,
}

/// Color blends by source alpha; alpha adds up.
pub open spec fn tilemap_blend() -> BlendState {
    BlendState {
        color: BlendComponent {
            src_factor: BlendFactor::SrcAlpha,
            dst_factor: BlendFactor::OneMinusSrcAlpha,
            operation: BlendOperation::Add,
        },
        alpha: BlendComponent {
            src_factor: BlendFactor::One,
            dst_factor: BlendFactor::One,
            operation: BlendOperation::Add,
        },
    }
}

/// Counter-clockwise front faces, back faces culled, filled triangles.
pub open spec fn tilemap_primitive() -> PrimitiveState {
    PrimitiveState {
        front_face: FrontFace::Ccw,
        cull_mode: Some(Face::Back),
        polygon_mode: PolygonMode::Fill,
        clamp_depth: false,
        conservative: false,
        topology: PrimitiveTopology::TriangleList,
    }
}

/// The vertex attributes in shader-location order. The mesh stores its
/// attributes sorted by name (color, position, uv), so position sits at
/// byte 16, uv at byte 28 and color at byte 0.
pub open spec fn tilemap_vertex_attributes() -> Seq<VertexAttribute> {
    seq![
        VertexAttribute { format: VertexFormat::Float32x3, offset: 16, shader_location: 0 },
        VertexAttribute { format: VertexFormat::Sint32x4, offset: 28, shader_location: 1 },
        VertexAttribute { format: VertexFormat::Float32x4, offset: 0, shader_location: 2 },
    ]
}

/// Bind group slots 0 to 3: view, mesh transform, tilemap uniform, material.
pub open spec fn tilemap_layout_order() -> Seq<LayoutSlot> {
    seq![LayoutSlot::View, LayoutSlot::Mesh, LayoutSlot::Uniform, LayoutSlot::Material]
}

/// The tilemap pipeline configuration. Multisampling is pinned to one
/// sample whatever the key holds.
pub open spec fn is_tilemap_descriptor(d: RenderPipelineDescriptor) -> bool {
    &&& d.label == "tilemap_pipeline"
    &&& d.shader == TILEMAP_SHADER_HANDLE
    &&& d.vertex_entry_point == "vertex"
    &&& d.fragment_entry_point == "fragment"
    &&& d.vertex_buffer.array_stride == VERTEX_STRIDE
    &&& d.vertex_buffer.step_mode == VertexStepMode::Vertex
    &&& d.vertex_buffer.attributes@ == tilemap_vertex_attributes()
    &&& d.blend == tilemap_blend()
    &&& d.layout@ == tilemap_layout_order()
    &&& d.primitive == tilemap_primitive()
    &&& !d.depth_stencil
    &&& d.multisample == MultisampleState {
        count: 1,
        mask: 0xffff_ffff_ffff_ffff,
        alpha_to_coverage_enabled: false,
    }
}

impl TilemapPipeline {
    /// The layouts: the view uniform, the mesh transform uniform and the
    /// tilemap uniform (each dynamically offset), and the material texture
    /// with its sampler.
    pub fn new() -> (r: TilemapPipeline)
        ensures
            r.view_layout.label == "tilemap_view_layout",
            r.view_layout.entries@ == seq![
                uniform_entry(ShaderStages::VertexFragment, VIEW_UNIFORM_SIZE),
            ],
            r.mesh_layout.label == "tilemap_mesh_layout",
            r.mesh_layout.entries@ == seq![
                uniform_entry(ShaderStages::VertexFragment, MESH_UNIFORM_SIZE),
            ],
            r.uniform_layout.label == "tilemap_material_layout",
            r.uniform_layout.entries@ == seq![uniform_entry(ShaderStages::Vertex, TILEMAP_UNIFORM_SIZE)],
            r.material_layout.label == "tilemap_material_layout",
            r.material_layout.entries@ == seq![texture_entry(), sampler_entry()],
    {
        let view_layout = BindGroupLayoutDescriptor {
            label: "tilemap_view_layout",
            entries: vec![
                BindGroupLayoutEntry {
                    binding: 0,
                    visibility: ShaderStages::VertexFragment,
                    ty: BindingType::UniformBuffer {
                        has_dynamic_offset: true,
                        min_binding_size: VIEW_UNIFORM_SIZE,
                    },
                },
            ],
        };
        let mesh_layout = BindGroupLayoutDescriptor {
            label: "tilemap_mesh_layout",
            entries: vec![
                BindGroupLayoutEntry {
                    binding: 0,
                    visibility: ShaderStages::VertexFragment,
                    ty: BindingType::UniformBuffer {
                        has_dynamic_offset: true,
                        min_binding_size: MESH_UNIFORM_SIZE,
                    },
                },
            ],
        };
        let uniform_layout = BindGroupLayoutDescriptor {
            label: "tilemap_material_layout",
            entries: vec![
                BindGroupLayoutEntry {
                    binding: 0,
                    visibility: ShaderStages::Vertex,
                    ty: BindingType::UniformBuffer {
                        has_dynamic_offset: true,
                        min_binding_size: TILEMAP_UNIFORM_SIZE,
                    },
                },
            ],
        };
        let material_layout = BindGroupLayoutDescriptor {
            label: "tilemap_material_layout",
            entries: vec![
                BindGroupLayoutEntry {
                    binding: 0,
                    visibility: ShaderStages::Fragment,
                    ty: BindingType::Texture2d { multisampled: false, filterable: false },
                },
                BindGroupLayoutEntry {
                    binding: 1,
                    visibility: ShaderStages::Fragment,
                    ty: BindingType::Sampler { comparison: false, filtering: true },
                },
            ],
        };
        TilemapPipeline { view_layout, material_layout, mesh_layout, uniform_layout }
    }

    /// The pipeline configuration for a key. It depends on nothing but the
    /// fixed shader and layouts, so equal keys give equal configurations.
    pub fn specialize(&self, _key: TilemapPipelineKey) -> (r: RenderPipelineDescriptor)
        ensures
            is_tilemap_descriptor(r),
    {
        let attributes = vec![
            VertexAttribute { format: VertexFormat::Float32x3, offset: 16, shader_location: 0 },
            VertexAttribute { format: VertexFormat::Sint32x4, offset: 28, shader_location: 1 },
            VertexAttribute { format: VertexFormat::Float32x4, offset: 0, shader_location: 2 },
        ];
        RenderPipelineDescriptor {
            label: "tilemap_pipeline",
            shader: TILEMAP_SHADER_HANDLE,
            vertex_entry_point: "vertex",
            fragment_entry_point: "fragment",
            vertex_buffer: VertexBufferLayout {
                array_stride: VERTEX_STRIDE,
                step_mode: VertexStepMode::Vertex,
                attributes,
            },
            blend: BlendState {
                color: BlendComponent {
                    src_factor: BlendFactor::SrcAlpha,
                    dst_factor: BlendFactor::OneMinusSrcAlpha,
                    operation: BlendOperation::Add,
                },
                alpha: BlendComponent {
                    src_factor: BlendFactor::One,
                    dst_factor: BlendFactor::One,
                    operation: BlendOperation::Add,
                },
            },
            layout: vec![LayoutSlot::View, LayoutSlot::Mesh, LayoutSlot::Uniform, LayoutSlot::Material],
            primitive: PrimitiveState {
                front_face: FrontFace::Ccw,
                cull_mode: Some(Face::Back),
                polygon_mode: PolygonMode::Fill,
                clamp_depth: false,
                conservative: false,
                topology: PrimitiveTopology::TriangleList,
            },
            depth_stencil: false,
            multisample: MultisampleState {
                count: 1,
                mask: 0xffff_ffff_ffff_ffff,
                alpha_to_coverage_enabled: false,
            },
        }
    }
}

} // verus!
