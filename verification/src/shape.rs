//! Shapes: the vertices and triangles that a tessellator hands over, and
//! the pipeline that draws them.

use crate::backend::Backend;
use crate::binding::{Binding, BindingType, ShaderStages};
use crate::buffers::{IndexBuffer, VertexBuffer};
use crate::pipeline::{BindingSet, PipelineDescription, TextureFormat};
use crate::transform::{spec_identity, ScreenTransformation};
use crate::vertex::VertexFormat;
use std::ops::Range;
use std::sync::Arc;
use vstd::prelude::*;

verus! {

/// Why a vertex was not taken.
#[derive(Debug, Clone, Copy, PartialEq, Eq, Structural)]
pub enum GeometryBuilderError {
    InvalidVertex,
    TooManyVertices,
}

/// The largest number of vertices a shape can hold: as many as a 16-bit
/// index can tell apart, less one.
pub const MAX_VERTICES: usize = 65535;

/// Builds a shape from what a tessellator hands over. Vertices are of type
/// `V`, and their coordinates and colour channels of type `S`.
pub struct ShapeBuilder<S, V> {
    pub zdepth: S,
    pub vertices: Vec<V>,
    pub indicies: Vec<u16>,
    /// This RGBA color is used when tesselating a path with no color data
    pub default_color: [S; 4],
}

/// The low 16 bits of a vertex id.
pub open spec fn index_of(id: u32) -> u16 {
    (id % 0x1_0000) as u16
}

impl<S: Copy, V> ShapeBuilder<S, V> {
    /// Create a new ShapeBuilder with a given ZDepth
    ///
    /// # Arguments
    ///
    /// * `zdepth` - The z depth for shapes in this builder to have
    pub fn new(zdepth: S, default_color: [S; 4]) -> (builder: Self)
        ensures
            builder.zdepth == zdepth,
            builder.default_color == default_color,
            builder.vertices@.len() == 0,
            builder.indicies@.len() == 0,
    {
        Self { zdepth, default_color, vertices: Vec::new(), indicies: Vec::new() }
    }

    /// The number of indices that the shape made from this builder draws,
    /// cut down to its low 32 bits.
    pub fn index_count(&self) -> (index_count: u32)
        ensures
            index_count == self.indicies@.len() % 0x1_0000_0000,
    {
        let count: usize = self.indicies.len();
        assert((count as u32) as u64 == (count as u64) % 0x1_0000_0000u64) by (bit_vector);
        #[verifier::truncate]
        (count as u32)
    }

    /// The colour of a new vertex: the attributes that came with it, or
    /// the default colour where none came. Either way there must be four of
    /// them: red, green, blue and alpha.
    pub fn vertex_color<'a>(&'a self, attributes: &'a [S]) -> (color: &'a [S])
        requires
            attributes@.len() == 0 || attributes@.len() == 4,
        ensures
            color@.len() == 4,
            attributes@.len() == 0 ==> color@ == self.default_color@,
            attributes@.len() != 0 ==> color@ == attributes@,
    {
        if attributes.len() == 0 {
            self.default_color.as_slice()
        } else {
            attributes
        }
    }

    /// Takes a vertex and gives it the next id. The vertex is kept in any
    /// case; once the builder holds more vertices than 16-bit indices can tell
    /// apart, the vertex is refused all the same.
    pub fn add_vertex(&mut self, vertex: V) -> (id: Result<u32, GeometryBuilderError>)
        ensures
            final(self).vertices@ == old(self).vertices@.push(vertex),
            final(self).indicies@ == old(self).indicies@,
            final(self).zdepth == old(self).zdepth,
            final(self).default_color == old(self).default_color,
            old(self).vertices@.len() < MAX_VERTICES ==> id == Ok::<u32, GeometryBuilderError>(
                old(self).vertices@.len() as u32,
            ),
            old(self).vertices@.len() >= MAX_VERTICES ==> id == Err::<u32, GeometryBuilderError>(
                GeometryBuilderError::TooManyVertices,
            ),
    {
        let count: usize = self.vertices.len();
        let new_id: u32 = #[verifier::truncate]
        (count as u32);
        self.vertices.push(vertex);
        if self.vertices.len() > MAX_VERTICES {
            return Err(GeometryBuilderError::TooManyVertices);
        }
        Ok(new_id)
    }

    /// Takes a triangle between three vertices. Of each id the low 16 bits
    /// are kept.
    pub fn add_triangle(&mut self, a: u32, b: u32, c: u32)
        ensures
            final(self).indicies@ == old(self).indicies@.push(index_of(a)).push(index_of(b)).push(
                index_of(c),
            ),
            final(self).vertices@ == old(self).vertices@,
            final(self).zdepth == old(self).zdepth,
            final(self).default_color == old(self).default_color,
    {
        assert((a as u16) == a % 0x1_0000) by (bit_vector);
        assert((b as u16) == b % 0x1_0000) by (bit_vector);
        assert((c as u16) == c % 0x1_0000) by (bit_vector);
        self.indicies.push(#[verifier::truncate]
        (a as u16));
        self.indicies.push(#[verifier::truncate]
        (b as u16));
        self.indicies.push(#[verifier::truncate]
        (c as u16));
    }

    /// Drops every vertex and every triangle taken so far.
    pub fn abort_geometry(&mut self)
        ensures
            final(self).vertices@.len() == 0,
            final(self).indicies@.len() == 0,
            final(self).zdepth == old(self).zdepth,
            final(self).default_color == old(self).default_color,
    {
        self.vertices.clear();
        self.indicies.clear();
    }
}

/// A vertex that was given an id is found at that id, and every id given
/// is a valid 16-bit index.
pub proof fn lemma_vertex_ids_are_indices(held: nat, id: u32)
    requires
        held < MAX_VERTICES,
        id == held as u32,
    ensures
        index_of(id) == held,
{
}

/// An indexed draw call.
#[derive(Debug)]
pub struct DrawIndexed {
    pub indices: Range<u32>,
    pub base_vertex: i32,
    pub instances: Range<u32>,
}

/// Shape is a loaded, prepared ShapeBuilder that is ready to be drawn
pub struct Shape<B: Backend> {
    /// Number of indices contained in `indices`
    pub index_count: u32,
    /// The vertices stored in a vertex buffer
    pub vertices: Arc<VertexBuffer<B>>,
    /// An index buffer representing a TriangleList of indices within `vertices`
    pub indices: Arc<IndexBuffer<B>>,
}

impl<B: Backend> Shape<B> {
    /// The draw call that draws the shape: all of its indices, from the
    /// first vertex, once.
    pub fn draw_call(&self) -> (call: DrawIndexed)
        ensures
            call.indices.start == 0,
            call.indices.end == self.index_count,
            call.base_vertex == 0,
            call.instances.start == 0,
            call.instances.end == 1,
    {
        DrawIndexed { indices: 0..self.index_count, base_vertex: 0, instances: 0..1 }
    }
}

/// The uniforms for the shader.
#[derive(Copy, Clone, Debug)]
pub struct Uniforms<S> {
    /// The orthographic projection matrix
    pub ortho: [S; 16],
    /// The transformation matrix
    pub transform: [S; 16],
}

impl<S: Copy> Uniforms<S> {
    /// The uniforms a pipeline starts with: both matrices are the
    /// identity.
    pub fn setup(zero: S, one: S) -> (uniforms: Self)
        ensures
            uniforms.ortho@ == spec_identity(zero, one),
            uniforms.transform@ == spec_identity(zero, one),
    {
        let transform = ScreenTransformation::identity(zero, one).to_array();
        let ortho = ScreenTransformation::identity(zero, one).to_array();
        Uniforms { ortho, transform }
    }

    /// The uniforms for a frame that is projected by `ortho`: the
    /// transformation is the identity.
    pub fn prepare(ortho: ScreenTransformation<S>, zero: S, one: S) -> (uniforms: Vec<Self>)
        ensures
            uniforms@.len() == 1,
            uniforms@[0].ortho == ortho.0,
            uniforms@[0].transform@ == spec_identity(zero, one),
    {
        let ortho = ortho.to_array();
        let transform = ScreenTransformation::identity(zero, one).to_array();
        let mut uniforms: Vec<Self> = Vec::new();
        uniforms.push(Uniforms { transform, ortho });
        uniforms
    }
}

/// The shaders that draw shapes.
#[derive(Debug, Clone, Copy, PartialEq, Eq, Structural)]
pub enum ShapeShader {
    /// The vertex shader that hands colours on as they are.
    Vertex,
    /// The vertex shader that takes colours as sRGB.
    VertexSrgb,
    /// The fragment shader.
    Fragment,
}

/// Picks the vertex shader of the shape pipeline and the format it draws
/// to.
pub trait VertexShaderSource {
    /// The vertex shader this source stands for. A verified
    /// implementation says so here.
    open spec fn spec_shader() -> ShapeShader {
        arbitrary()
    }

    /// The texel format this source draws to. A verified implementation
    /// says so here.
    open spec fn spec_sampler_format() -> TextureFormat {
        arbitrary()
    }

    fn shader() -> (shader: ShapeShader)
        ensures
            shader == Self::spec_shader(),
    ;

    fn sampler_format() -> (format: TextureFormat)
        ensures
            format == Self::spec_sampler_format(),
    ;
}

/// Draws to an sRGB target.
pub struct Srgb;

/// Draws to a target without colour space.
pub struct Normal;

impl VertexShaderSource for Srgb {
    open spec fn spec_shader() -> ShapeShader {
        ShapeShader::VertexSrgb
    }

    open spec fn spec_sampler_format() -> TextureFormat {
        TextureFormat::Bgra8UnormSrgb
    }

    fn shader() -> (shader: ShapeShader) {
        ShapeShader::VertexSrgb
    }

    fn sampler_format() -> (format: TextureFormat) {
        TextureFormat::Bgra8UnormSrgb
    }
}

impl VertexShaderSource for Normal {
    open spec fn spec_shader() -> ShapeShader {
        ShapeShader::Vertex
    }

    open spec fn spec_sampler_format() -> TextureFormat {
        TextureFormat::Bgra8Unorm
    }

    fn shader() -> (shader: ShapeShader) {
        ShapeShader::Vertex
    }

    fn sampler_format() -> (format: TextureFormat) {
        TextureFormat::Bgra8Unorm
    }
}

/// The attributes of a vertex of a shape: a position of three floats and a
/// colour of four bytes.
pub const VERTEX_LAYOUT: [VertexFormat; 2] = [VertexFormat::Float3, VertexFormat::UByte4];

/// Describes the shape pipeline: a vertex is a position of three floats
/// and a colour of four bytes; the one binding group holds the uniforms,
/// which only the vertex stage sees; the vertex shader is that of `T`.
pub fn description<T: VertexShaderSource>() -> (description: PipelineDescription<
    'static,
    ShapeShader,
>)
    ensures
        description.vertex_layout@ == seq![VertexFormat::Float3, VertexFormat::UByte4],
        description.pipeline_layout@.len() == 1,
        description.pipeline_layout@[0].0@ == seq![
            Binding {
                binding: BindingType::UniformBuffer,
                stage: ShaderStages { vertex: true, fragment: false, compute: false },
            },
        ],
        description.vertex_shader == T::spec_shader(),
        description.fragment_shader == ShapeShader::Fragment,
{
    let vertex_layout: &'static [VertexFormat; 2] = &VERTEX_LAYOUT;
    let pipeline_layout: &'static [BindingSet<'static>; 1] = &[
        BindingSet(
            &[
                Binding {
                    binding: BindingType::UniformBuffer,
                    stage: ShaderStages { vertex: true, fragment: false, compute: false },
                },
            ],
        ),
    ];
    let description = PipelineDescription {
        vertex_layout: vertex_layout.as_slice(),
        pipeline_layout: pipeline_layout.as_slice(),
        vertex_shader: T::shader(),
        fragment_shader: ShapeShader::Fragment,
    };
    assert(description.vertex_layout@ =~= seq![VertexFormat::Float3, VertexFormat::UByte4]);
    assert(description.pipeline_layout@[0].0@ =~= seq![
        Binding {
            binding: BindingType::UniformBuffer,
            stage: ShaderStages { vertex: true, fragment: false, compute: false },
        },
    ]);
    description
}

} // verus!
