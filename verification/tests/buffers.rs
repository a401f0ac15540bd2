use easygpu::backend::Backend;
use easygpu::binding::{Bind, BindingResource};
use easygpu::buffers::{DepthBuffer, Framebuffer, IndexBuffer, UniformBuffer, VertexBuffer};
use easygpu::frame::{begin, BufferCopy, Frame, LoadOp, PassOp, RenderTarget};
use easygpu::geometry::Size;
use easygpu::pipeline::TextureFormat;
use easygpu::sampler::Sampler;
use easygpu::texture::{extent, Texture};

struct Named;

impl Backend for Named {
    type Device = ();
    type Queue = ();
    type Surface = ();
    type SwapChain = ();
    type SurfaceTexture = ();
    type Texture = ();
    type TextureView = &'static str;
    type TextureFormat = ();
    type Buffer = &'static str;
    type Sampler = &'static str;
    type BindGroup = ();
    type BindGroupLayout = ();
    type RenderPipeline = ();
    type ShaderModule = ();
    type CommandEncoder = u8;
}

fn texture(view: &'static str, width: u32, height: u32) -> Texture<Named> {
    let size = Size { width, height };
    Texture { wgpu: (), view, extent: extent(size), format: (), size }
}

fn framebuffer() -> Framebuffer<Named> {
    Framebuffer {
        texture: texture("colour", 640, 480),
        depth: DepthBuffer { texture: texture("depth", 640, 480) },
    }
}

#[test]
fn framebuffer_measures() {
    let fb = framebuffer();
    assert_eq!(fb.size(), 307_200);
    assert_eq!(fb.width(), 640);
    assert_eq!(fb.height(), 480);
}

#[test]
fn framebuffer_targets() {
    let fb = framebuffer();
    assert_eq!(*fb.color_target(), "colour");
    assert_eq!(*fb.zdepth_target(), "depth");
}

#[test]
fn framebuffer_gives_up_its_texture() {
    let t = Texture::from(framebuffer());
    assert_eq!(t.view, "colour");
    assert_eq!(t.size, Size { width: 640, height: 480 });
}

#[test]
fn depth_buffers_hold_32_bit_floats() {
    assert_eq!(DepthBuffer::<Named>::format(), TextureFormat::Depth32Float);
}

#[test]
fn textures_bind_their_view() {
    let fb = framebuffer();
    let entry = fb.binding(3);
    assert_eq!(entry.binding, 3);
    assert!(matches!(entry.resource, BindingResource::TextureView(&"colour")));
    let entry = fb.depth.texture.binding(0);
    assert_eq!(entry.binding, 0);
    assert!(matches!(entry.resource, BindingResource::TextureView(&"depth")));
}

#[test]
fn samplers_bind_themselves() {
    let sampler: Sampler<Named> = Sampler { wgpu: "sampler" };
    let entry = sampler.binding(9);
    assert_eq!(entry.binding, 9);
    assert!(matches!(entry.resource, BindingResource::Sampler(&"sampler")));
}

#[test]
fn uniform_buffers_bind_all_their_bytes() {
    let buffer: UniformBuffer<Named> = UniformBuffer { wgpu: "uniforms", size: 128, count: 3 };
    assert_eq!(buffer.byte_len(), 384);
    let entry = buffer.binding(1);
    assert_eq!(entry.binding, 1);
    match entry.resource {
        BindingResource::Buffer(bound) => {
            assert_eq!(*bound.buffer, "uniforms");
            assert_eq!(bound.offset, 0);
            assert_eq!(bound.size, Some(384));
        }
        _ => panic!("a uniform buffer binds a buffer"),
    }
}

#[test]
fn empty_uniform_buffers_bind_without_a_size() {
    let buffer: UniformBuffer<Named> = UniformBuffer { wgpu: "uniforms", size: 128, count: 0 };
    match buffer.binding(0).resource {
        BindingResource::Buffer(bound) => assert_eq!(bound.size, None),
        _ => panic!("a uniform buffer binds a buffer"),
    }
}

#[test]
fn buffer_slices() {
    let vertices: VertexBuffer<Named> = VertexBuffer { size: 96, wgpu: "vertices" };
    assert_eq!(vertices.slice(), 0..96);
    let indices: IndexBuffer<Named> = IndexBuffer { wgpu: "indices", elements: 7 };
    assert_eq!(indices.slice(), 0..14);
}

#[test]
fn frame_keeps_its_encoder() {
    let frame: Frame<Named> = Frame::new(5);
    assert_eq!(*frame.encoder(), 5);
    assert_eq!(frame.encoder, 5);
}

#[test]
fn uniform_copy_takes_all_of_the_source() {
    let src: UniformBuffer<Named> = UniformBuffer { wgpu: "a", size: 64, count: 2 };
    let dst: UniformBuffer<Named> = UniformBuffer { wgpu: "b", size: 64, count: 4 };
    assert_eq!(
        Frame::uniform_copy(&src, &dst),
        BufferCopy { source_offset: 0, destination_offset: 0, size: 128 }
    );
}

#[test]
fn pass_without_multisampling_draws_to_the_target() {
    let fb = framebuffer();
    let pass = Frame::<Named>::pass_descriptor(PassOp::Clear(3u8), &fb, None);
    assert_eq!(*pass.color_attachment.view, "colour");
    assert_eq!(pass.color_attachment.resolve_target, None);
    assert!(matches!(pass.color_attachment.ops.load, LoadOp::Clear(3u8)));
    assert!(pass.color_attachment.ops.store);
    assert_eq!(*pass.depth_stencil_attachment.view, "depth");
}

#[test]
fn pass_with_multisampling_resolves_to_the_target() {
    let fb = framebuffer();
    let buffer = "samples";
    let pass = Frame::<Named>::pass_descriptor(PassOp::<u8>::Load(), &fb, Some(&buffer));
    assert_eq!(*pass.color_attachment.view, "samples");
    assert_eq!(pass.color_attachment.resolve_target, Some(&"colour"));
    assert!(matches!(pass.color_attachment.ops.load, LoadOp::Load));
    assert_eq!(*pass.depth_stencil_attachment.view, "depth");
}

#[test]
fn pass_clears_depth_and_stencil() {
    let (view, depth) = ("view", "depth");
    let pass = begin::<Named, u8>(&view, None, &depth, PassOp::Load());
    let ops = pass.depth_stencil_attachment.depth_ops.unwrap();
    assert!(matches!(ops.load, LoadOp::Clear(1)));
    assert!(ops.store);
    let ops = pass.depth_stencil_attachment.stencil_ops.unwrap();
    assert!(matches!(ops.load, LoadOp::Clear(0)));
    assert!(ops.store);
}

#[test]
fn pass_ops_in_gpu_terms() {
    assert!(matches!(PassOp::Clear(8u8).to_wgpu(), LoadOp::Clear(8u8)));
    assert!(matches!(PassOp::<u8>::Load().to_wgpu(), LoadOp::Load));
}

struct Window {
    view: &'static str,
    depth: &'static str,
}

impl RenderTarget<Named> for Window {
    fn color_target(&self) -> &&'static str {
        &self.view
    }

    fn zdepth_target(&self) -> &&'static str {
        &self.depth
    }
}

#[test]
fn pass_draws_to_any_render_target() {
    let window = Window { view: "screen", depth: "z" };
    let buffer = "samples";
    let pass = Frame::<Named>::pass_descriptor(PassOp::Clear(0u8), &window, Some(&buffer));
    assert_eq!(*pass.color_attachment.view, "samples");
    assert_eq!(pass.color_attachment.resolve_target, Some(&"screen"));
    assert_eq!(*pass.depth_stencil_attachment.view, "z");
    let pass = Frame::<Named>::pass_descriptor(PassOp::Clear(0u8), &window, None);
    assert_eq!(*pass.color_attachment.view, "screen");
}

struct Plain(&'static str);

impl Bind<Named> for Plain {
    fn binding(&self, index: u32) -> easygpu::binding::BindGroupEntry<'_, Named> {
        easygpu::binding::BindGroupEntry { binding: index, resource: BindingResource::Sampler(&self.0) }
    }
}

#[test]
fn any_resource_can_be_bound() {
    let entry = Plain("own").binding(4);
    assert_eq!(entry.binding, 4);
    assert!(matches!(entry.resource, BindingResource::Sampler(&"own")));
}

#[test]
fn frame_hands_out_its_encoder() {
    let mut frame: Frame<Named> = Frame::new(5);
    *frame.encoder_mut() = 6;
    assert_eq!(*frame.encoder(), 6);
}
