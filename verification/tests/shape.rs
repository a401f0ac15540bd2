use easygpu::backend::Backend;
use easygpu::binding::{Binding, BindingType, ShaderStages};
use easygpu::buffers::{IndexBuffer, VertexBuffer};
use easygpu::pipeline::TextureFormat;
use easygpu::shape::{
    description, GeometryBuilderError, Normal, Shape, ShapeBuilder, ShapeShader, Srgb, Uniforms,
    VertexShaderSource, MAX_VERTICES, VERTEX_LAYOUT,
};
use easygpu::transform::ScreenTransformation;
use easygpu::vertex::VertexFormat;
use std::sync::Arc;

struct Unit;

impl Backend for Unit {
    type Device = ();
    type Queue = ();
    type Surface = ();
    type SwapChain = ();
    type SurfaceTexture = ();
    type Texture = ();
    type TextureView = ();
    type TextureFormat = ();
    type Buffer = ();
    type Sampler = ();
    type BindGroup = ();
    type BindGroupLayout = ();
    type RenderPipeline = ();
    type ShaderModule = ();
    type CommandEncoder = ();
}

#[test]
fn new_builder_is_empty() {
    let builder: ShapeBuilder<f32, u8> = ShapeBuilder::new(0.5, [1.0, 0.0, 0.0, 1.0]);
    assert_eq!(builder.zdepth, 0.5);
    assert_eq!(builder.default_color, [1.0, 0.0, 0.0, 1.0]);
    assert!(builder.vertices.is_empty());
    assert!(builder.indicies.is_empty());
    assert_eq!(builder.index_count(), 0);
}

#[test]
fn vertices_without_colour_take_the_default() {
    let builder: ShapeBuilder<f32, u8> = ShapeBuilder::new(0.0, [0.25, 0.5, 0.75, 1.0]);
    assert_eq!(builder.vertex_color(&[]), &[0.25, 0.5, 0.75, 1.0]);
    assert_eq!(builder.vertex_color(&[1.0, 0.0, 0.0, 0.5]), &[1.0, 0.0, 0.0, 0.5]);
}

#[test]
fn vertices_are_numbered_in_their_order() {
    let mut builder: ShapeBuilder<f32, char> = ShapeBuilder::new(0.0, [0.0; 4]);
    assert_eq!(builder.add_vertex('a'), Ok(0));
    assert_eq!(builder.add_vertex('b'), Ok(1));
    assert_eq!(builder.add_vertex('c'), Ok(2));
    assert_eq!(builder.vertices, vec!['a', 'b', 'c']);
}

#[test]
fn too_many_vertices_are_refused_but_kept() {
    let mut builder: ShapeBuilder<f32, u32> = ShapeBuilder::new(0.0, [0.0; 4]);
    for i in 0..MAX_VERTICES as u32 {
        assert_eq!(builder.add_vertex(i), Ok(i));
    }
    assert_eq!(builder.add_vertex(0), Err(GeometryBuilderError::TooManyVertices));
    assert_eq!(builder.vertices.len(), 65_536);
    assert_eq!(builder.add_vertex(0), Err(GeometryBuilderError::TooManyVertices));
    assert_eq!(builder.vertices.len(), 65_537);
}

#[test]
fn triangles_are_kept_as_16_bit_indices() {
    let mut builder: ShapeBuilder<f32, u8> = ShapeBuilder::new(0.0, [0.0; 4]);
    builder.add_triangle(0, 1, 2);
    builder.add_triangle(2, 1, 65_539);
    assert_eq!(builder.indicies, vec![0, 1, 2, 2, 1, 3]);
    assert_eq!(builder.index_count(), 6);
}

#[test]
fn abort_drops_the_geometry() {
    let mut builder: ShapeBuilder<f32, u8> = ShapeBuilder::new(2.0, [1.0; 4]);
    assert_eq!(builder.add_vertex(9), Ok(0));
    builder.add_triangle(0, 0, 0);
    builder.abort_geometry();
    assert!(builder.vertices.is_empty());
    assert!(builder.indicies.is_empty());
    assert_eq!(builder.zdepth, 2.0);
    assert_eq!(builder.default_color, [1.0; 4]);
    assert_eq!(builder.add_vertex(9), Ok(0));
}

#[test]
fn shape_draws_all_its_indices_once() {
    let shape: Shape<Unit> = Shape {
        index_count: 12,
        vertices: Arc::new(VertexBuffer { size: 64, wgpu: () }),
        indices: Arc::new(IndexBuffer { wgpu: (), elements: 12 }),
    };
    let call = shape.draw_call();
    assert_eq!(call.indices, 0..12);
    assert_eq!(call.base_vertex, 0);
    assert_eq!(call.instances, 0..1);
}

#[test]
fn uniforms_start_as_identities() {
    let identity = ScreenTransformation::identity(0.0f32, 1.0f32).to_array();
    let uniforms = Uniforms::setup(0.0f32, 1.0f32);
    assert_eq!(uniforms.ortho, identity);
    assert_eq!(uniforms.transform, identity);
}

#[test]
fn uniforms_of_a_frame_take_the_projection() {
    let ortho = ScreenTransformation::ortho(0.0f32, 0.0, 800.0, 600.0, -1.0, 1.0, 0.0, 1.0);
    let uniforms = Uniforms::prepare(ortho, 0.0, 1.0);
    assert_eq!(uniforms.len(), 1);
    assert_eq!(uniforms[0].ortho, ortho.to_array());
    assert_eq!(uniforms[0].transform, ScreenTransformation::identity(0.0f32, 1.0f32).to_array());
}

#[test]
fn shader_sources() {
    assert_eq!(Srgb::shader(), ShapeShader::VertexSrgb);
    assert_eq!(Srgb::sampler_format(), TextureFormat::Bgra8UnormSrgb);
    assert_eq!(Normal::shader(), ShapeShader::Vertex);
    assert_eq!(Normal::sampler_format(), TextureFormat::Bgra8Unorm);
}

#[test]
fn shape_pipeline_description() {
    let d = description::<Srgb>();
    assert_eq!(d.vertex_layout, &[VertexFormat::Float3, VertexFormat::UByte4]);
    assert_eq!(d.vertex_layout, &VERTEX_LAYOUT);
    assert_eq!(d.pipeline_layout.len(), 1);
    assert_eq!(
        d.pipeline_layout[0].0,
        &[Binding {
            binding: BindingType::UniformBuffer,
            stage: ShaderStages { vertex: true, fragment: false, compute: false }
        }]
    );
    assert_eq!(d.vertex_shader, ShapeShader::VertexSrgb);
    assert_eq!(d.fragment_shader, ShapeShader::Fragment);
    assert_eq!(description::<Normal>().vertex_shader, ShapeShader::Vertex);
}
