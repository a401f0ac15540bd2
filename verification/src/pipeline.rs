//! Blending and the fixed-function state of a render pipeline.

use crate::backend::Backend;
use crate::binding::{Binding, BindingGroup, BindingGroupLayout};
use crate::buffers::UniformBuffer;
use crate::vertex::{VertexFormat, VertexLayout};
use vstd::prelude::*;

verus! {

/// A factor applied to the source or the destination colour when blending.
#[derive(Copy, Clone, Debug, PartialEq, Eq, Structural)]
pub enum BlendFactor {
    One,
    Zero,
    SrcAlpha,
    OneMinusSrcAlpha,
}

/// How the weighted source and destination are combined.
#[derive(Copy, Clone, Debug, PartialEq, Eq, Structural)]
pub enum BlendOp {
    Add,
}

/// One blend equation, in the shape the GPU API takes it.
#[derive(Copy, Clone, Debug, PartialEq, Eq, Structural)]
pub struct BlendComponent {
    pub src_factor: BlendFactor,
    pub dst_factor: BlendFactor,
    pub operation: BlendOp,
}

/// The blend equations of the colour and the alpha channel.
#[derive(Copy, Clone, Debug, PartialEq, Eq, Structural)]
pub struct BlendState {
    pub color: BlendComponent,
    pub alpha: BlendComponent,
}

/// How a pipeline blends what it draws with what is already there.
#[derive(Copy, Clone, Debug, PartialEq, Eq, Structural)]
pub struct Blending {
    src_factor: BlendFactor,
    dst_factor: BlendFactor,
    operation: BlendOp,
}

impl Blending {
    /// The blend equation this blending stands for.
    pub closed spec fn view(self) -> BlendComponent {
        BlendComponent {
            src_factor: self.src_factor,
            dst_factor: self.dst_factor,
            operation: self.operation,
        }
    }

    pub fn new(src_factor: BlendFactor, dst_factor: BlendFactor, operation: BlendOp) -> (blending:
        Self)
        ensures
            blending@ == (BlendComponent { src_factor, dst_factor, operation }),
    {
        Blending { src_factor, dst_factor, operation }
    }

    /// Blending that keeps the source and drops the destination.
    pub fn constant() -> (blending: Self)
        ensures
            blending@ == (BlendComponent {
                src_factor: BlendFactor::One,
                dst_factor: BlendFactor::Zero,
                operation: BlendOp::Add,
            }),
    {
        Blending {
            src_factor: BlendFactor::One,
            dst_factor: BlendFactor::Zero,
            operation: BlendOp::Add,
        }
    }

    /// The blend equation in the shape the GPU API takes it.
    pub fn as_wgpu(&self) -> (component: BlendComponent)
        ensures
            component == self@,
    {
        BlendComponent {
            src_factor: self.src_factor,
            dst_factor: self.dst_factor,
            operation: self.operation,
        }
    }

    /// Two blendings with the same equation are the same blending.
    pub proof fn lemma_view_injective(a: Self, b: Self)
        requires
            a@ == b@,
        ensures
            a == b,
    {
    }
}

impl Default for Blending {
    /// Ordinary alpha blending.
    fn default() -> (blending: Self)
        ensures
            blending@ == (BlendComponent {
                src_factor: BlendFactor::SrcAlpha,
                dst_factor: BlendFactor::OneMinusSrcAlpha,
                operation: BlendOp::Add,
            }),
    {
        Blending {
            src_factor: BlendFactor::SrcAlpha,
            dst_factor: BlendFactor::OneMinusSrcAlpha,
            operation: BlendOp::Add,
        }
    }
}

/// A GPU Shader.
pub struct Shader<B: Backend> {
    pub wgpu: B::ShaderModule,
}

/// The binding group layouts of a pipeline, one for each of its sets.
pub struct PipelineLayout<B: Backend> {
    pub sets: Vec<BindingGroupLayout<B>>,
}

/// A render pipeline on the GPU, with the layouts it was made from.
pub struct Pipeline<B: Backend> {
    pub wgpu: B::RenderPipeline,
    pub layout: PipelineLayout<B>,
    pub vertex_layout: VertexLayout,
}

/// A pipeline together with its uniforms and the group that binds them.
pub struct PipelineCore<B: Backend> {
    pub pipeline: Pipeline<B>,
    pub bindings: BindingGroup<B>,
    pub uniforms: UniformBuffer<B>,
}

/// The slots of one binding group of a pipeline.
#[derive(Debug, Clone, Copy)]
pub struct BindingSet<'a>(pub &'a [Binding]);

/// What a pipeline is made from: the attributes of its vertices, its binding
/// groups and its two shaders, which are given as values of type `S`.
#[derive(Debug, Clone, Copy)]
pub struct PipelineDescription<'a, S> {
    pub vertex_layout: &'a [VertexFormat],
    pub pipeline_layout: &'a [BindingSet<'a>],
    pub vertex_shader: S,
    pub fragment_shader: S,
}

/// How vertices are assembled into primitives.
#[derive(Copy, Clone, Debug, PartialEq, Eq, Structural)]
pub enum PrimitiveTopology {
    TriangleList,
}

/// The width of the indices of a vertex.
#[derive(Copy, Clone, Debug, PartialEq, Eq, Structural)]
pub enum IndexFormat {
    Uint16,
    Uint32,
}

/// A side of a triangle.
#[derive(Copy, Clone, Debug, PartialEq, Eq, Structural)]
pub enum Face {
    Front,
    Back,
}

/// The winding order of a front-facing triangle.
#[derive(Copy, Clone, Debug, PartialEq, Eq, Structural)]
pub enum FrontFace {
    Ccw,
}

/// How polygons are rasterised.
#[derive(Copy, Clone, Debug, PartialEq, Eq, Structural)]
pub enum PolygonMode {
    Fill,
}

/// A comparison used by depth tests.
#[derive(Copy, Clone, Debug, PartialEq, Eq, Structural)]
pub enum CompareFunction {
    LessEqual,
    Always,
}

/// What the stencil test does on one face.
#[derive(Copy, Clone, Debug, PartialEq, Eq, Structural)]
pub enum StencilFaceState {
    /// The test always passes and the stencil value is kept.
    Ignore,
}

/// The texel formats this library names itself.
#[derive(Copy, Clone, Debug, PartialEq, Eq, Structural)]
pub enum TextureFormat {
    Rgba8UnormSrgb,
    Bgra8Unorm,
    Bgra8UnormSrgb,
    Depth32Float,
}

/// The assembly and rasterisation state of a pipeline.
#[derive(Copy, Clone, Debug, PartialEq, Eq)]
pub struct PrimitiveState {
    pub topology: PrimitiveTopology,
    pub strip_index_format: Option<IndexFormat>,
    pub front_face: FrontFace,
    pub cull_mode: Option<Face>,
    pub polygon_mode: PolygonMode,
    pub unclipped_depth: bool,
    pub conservative: bool,
}

/// The stencil state of a pipeline.
#[derive(Copy, Clone, Debug, PartialEq, Eq, Structural)]
pub struct StencilState {
    pub front: StencilFaceState,
    pub back: StencilFaceState,
    pub read_mask: u32,
    pub write_mask: u32,
}

/// The depth bias of a pipeline. Slope scale and clamp are whole numbers
/// here; the GPU API takes them as floating-point numbers of the same value.
#[derive(Copy, Clone, Debug, PartialEq, Eq, Structural)]
pub struct DepthBiasState {
    pub constant: i32,
    pub slope_scale: i32,
    pub clamp: i32,
}

/// The depth and stencil state of a pipeline.
#[derive(Copy, Clone, Debug, PartialEq, Eq, Structural)]
pub struct DepthStencilState {
    pub format: TextureFormat,
    pub depth_write_enabled: bool,
    pub depth_compare: CompareFunction,
    pub stencil: StencilState,
    pub bias: DepthBiasState,
}

/// The multisampling state of a pipeline.
#[derive(Copy, Clone, Debug, PartialEq, Eq, Structural)]
pub struct MultisampleState {
    pub count: u32,
    pub mask: u64,
    pub alpha_to_coverage_enabled: bool,
}

/// The colour channels a pipeline writes.
#[derive(Copy, Clone, Debug, PartialEq, Eq, Structural)]
pub struct ColorWrites {
    pub red: bool,
    pub green: bool,
    pub blue: bool,
    pub alpha: bool,
}

/// The colour target of a pipeline, for a texel format `F`.
#[derive(Copy, Clone, Debug)]
pub struct ColorTargetState<F> {
    pub format: F,
    pub blend: Option<BlendState>,
    pub write_mask: ColorWrites,
}

/// Everything about a render pipeline but its shaders, its bind group
/// layouts and its vertex layout.
#[derive(Copy, Clone, Debug)]
pub struct RenderPipelineState<F> {
    pub vertex_entry_point: &'static str,
    pub fragment_entry_point: &'static str,
    pub primitive: PrimitiveState,
    pub depth_stencil: DepthStencilState,
    pub multisample: MultisampleState,
    pub target: ColorTargetState<F>,
}

/// The multisampling state for a given number of samples: every sample is
/// written and alpha does not decide coverage.
pub open spec fn spec_multisample_state(sample_count: u32) -> MultisampleState {
    MultisampleState { count: sample_count, mask: u64::MAX, alpha_to_coverage_enabled: false }
}

/// The multisampling state for a given number of samples.
pub fn multisample_state(sample_count: u32) -> (state: MultisampleState)
    ensures
        state == spec_multisample_state(sample_count),
{
    MultisampleState { count: sample_count, mask: u64::MAX, alpha_to_coverage_enabled: false }
}

/// Triangle lists, counter-clockwise front faces, filled, nothing culled.
pub open spec fn spec_primitive_state() -> PrimitiveState {
    PrimitiveState {
        topology: PrimitiveTopology::TriangleList,
        strip_index_format: None,
        front_face: FrontFace::Ccw,
        cull_mode: None,
        polygon_mode: PolygonMode::Fill,
        unclipped_depth: false,
        conservative: false,
    }
}

/// Depth is written where it is less than or equal to what is there; the
/// stencil is ignored and there is no bias.
pub open spec fn spec_depth_stencil_state() -> DepthStencilState {
    DepthStencilState {
        format: TextureFormat::Depth32Float,
        depth_write_enabled: true,
        depth_compare: CompareFunction::LessEqual,
        stencil: StencilState {
            front: StencilFaceState::Ignore,
            back: StencilFaceState::Ignore,
            read_mask: 0,
            write_mask: 0,
        },
        bias: DepthBiasState { constant: 0, slope_scale: 0, clamp: 0 },
    }
}

/// The state of the pipeline that draws with `blending` into a target of
/// `format`. Colour and alpha blend by the same equation, and all four
/// channels are written.
pub fn render_pipeline_state<F>(
    blending: Blending,
    format: F,
    multisample: MultisampleState,
) -> (state: RenderPipelineState<F>)
    ensures
        state.vertex_entry_point@ == "main"@,
        state.fragment_entry_point@ == "main"@,
        state.primitive == spec_primitive_state(),
        state.depth_stencil == spec_depth_stencil_state(),
        state.multisample == multisample,
        state.target.format == format,
        state.target.blend == Some(BlendState { color: blending@, alpha: blending@ }),
        state.target.write_mask == (ColorWrites {
            red: true,
            green: true,
            blue: true,
            alpha: true,
        }),
{
    let component = blending.as_wgpu();
    RenderPipelineState {
        vertex_entry_point: "main",
        fragment_entry_point: "main",
        primitive: PrimitiveState {
            topology: PrimitiveTopology::TriangleList,
            strip_index_format: None,
            front_face: FrontFace::Ccw,
            cull_mode: None,
            polygon_mode: PolygonMode::Fill,
            unclipped_depth: false,
            conservative: false,
        },
        depth_stencil: DepthStencilState {
            format: TextureFormat::Depth32Float,
            depth_write_enabled: true,
            depth_compare: CompareFunction::LessEqual,
            stencil: StencilState {
                front: StencilFaceState::Ignore,
                back: StencilFaceState::Ignore,
                read_mask: 0,
                write_mask: 0,
            },
            bias: DepthBiasState { constant: 0, slope_scale: 0, clamp: 0 },
        },
        multisample,
        target: ColorTargetState {
            format,
            blend: Some(BlendState { color: component, alpha: component }),
            write_mask: ColorWrites { red: true, green: true, blue: true, alpha: true },
        },
    }
}

} // verus!
