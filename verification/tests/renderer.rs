use easygpu::backend::Backend;
use easygpu::buffers::{DepthBuffer, Framebuffer, VertexBuffer};
use easygpu::color::Bgra8;
use easygpu::device::{BufferUsages, Device, TextureUsages};
use easygpu::geometry::Size;
use easygpu::pipeline::{multisample_state, Blending, TextureFormat};
use easygpu::renderer::{MapStatus, ReadStep, Renderable, Renderer, TextureToBuffer};
use easygpu::swapchain::PresentMode;
use easygpu::texture::{
    extent, Extent3d, ImageCopyTexture, ImageDataLayout, Origin3d, Texture, TextureAspect,
};

struct Bare;

impl Backend for Bare {
    type Device = ();
    type Queue = ();
    type Surface = ();
    type SwapChain = ();
    type SurfaceTexture = ();
    type Texture = ();
    type TextureView = ();
    type TextureFormat = u8;
    type Buffer = ();
    type Sampler = ();
    type BindGroup = ();
    type BindGroupLayout = ();
    type RenderPipeline = ();
    type ShaderModule = ();
    type CommandEncoder = ();
}

fn renderer(sample_count: u32) -> Renderer<Bare> {
    Renderer::new(Device::new((), (), Some(())), sample_count)
}

fn framebuffer(width: u32, height: u32) -> Framebuffer<Bare> {
    let size = Size { width, height };
    Framebuffer {
        texture: Texture { wgpu: (), view: (), extent: extent(size), format: 0, size },
        depth: DepthBuffer {
            texture: Texture { wgpu: (), view: (), extent: extent(size), format: 1, size },
        },
    }
}

#[test]
fn renderer_keeps_its_sample_count() {
    assert_eq!(renderer(4).sample_count(), 4);
    assert_eq!(renderer(1).sample_count, 1);
}

#[test]
fn only_multisampled_textures_take_the_sample_count() {
    let r = renderer(4);
    let usage = TextureUsages { texture_binding: true, ..TextureUsages::empty() };
    let size = Size { width: 16, height: 9 };
    assert_eq!(r.texture_descriptor(size, 5u8, usage, true).sample_count, 4);
    assert_eq!(r.texture_descriptor(size, 5u8, usage, false).sample_count, 1);
    let d = r.texture_descriptor(size, 5u8, usage, false);
    assert_eq!(d.size, Extent3d { width: 16, height: 9, depth_or_array_layers: 1 });
    assert_eq!((d.format, d.usage, d.mip_level_count), (5, usage, 1));
}

#[test]
fn framebuffers_and_zbuffers_take_the_sample_count() {
    let r = renderer(8);
    let size = Size { width: 16, height: 9 };
    let fb = r.framebuffer_descriptor(size, 5u8);
    assert_eq!((fb.texture.sample_count, fb.depth.sample_count), (8, 8));
    assert_eq!(fb.texture.format, 5);
    let z = r.zbuffer_descriptor(size);
    assert_eq!(z.sample_count, 8);
    assert_eq!(z.format, TextureFormat::Depth32Float);
    assert_eq!(z.size, Extent3d { width: 16, height: 9, depth_or_array_layers: 1 });
}

#[test]
fn configure_records_the_size_for_the_next_frame() {
    let mut r = renderer(2);
    let c = r.surface_configuration(Size { width: 320, height: 200 }, PresentMode::Vsync, 9u8);
    assert_eq!((c.width, c.height, c.format), (320, 200, 9));
    assert_eq!(r.sample_count(), 2);
    let depth = r.frame_depth_descriptor();
    assert_eq!(depth.size, Extent3d { width: 320, height: 200, depth_or_array_layers: 1 });
    assert_eq!(depth.sample_count, 2);
    assert_eq!(depth.format, TextureFormat::Depth32Float);
}

#[test]
fn pipelines_take_the_sample_count() {
    let state = renderer(4).pipeline_state(Blending::default(), 3u8);
    assert_eq!(state.multisample, multisample_state(4));
    assert_eq!(state.target.format, 3);
}

#[test]
fn read_plan_asks_for_four_bytes_a_pixel() {
    let fb = framebuffer(64, 32);
    assert!(Renderer::can_read(&fb));
    let plan = Renderer::read_plan(&fb);
    assert_eq!(plan.bytesize, 8192);
    assert_eq!(plan.buffer.size, 8192);
    assert_eq!(plan.buffer.label, None);
    assert!(!plan.buffer.mapped_at_creation);
    assert_eq!(
        plan.buffer.usage,
        BufferUsages { map_read: true, copy_dst: true, ..BufferUsages::empty() }
    );
    assert_eq!(
        plan.copy,
        TextureToBuffer {
            source: ImageCopyTexture {
                mip_level: 0,
                origin: Origin3d { x: 0, y: 0, z: 0 },
                aspect: TextureAspect::All
            },
            layout: ImageDataLayout {
                offset: 0,
                bytes_per_row: Some(256),
                rows_per_image: Some(32)
            },
            extent: Extent3d { width: 64, height: 32, depth_or_array_layers: 1 },
        }
    );
}

#[test]
fn rows_beyond_32_bits_cannot_be_read() {
    assert!(Renderer::can_read(&framebuffer(0x3fff_ffff, 1)));
    assert!(!Renderer::can_read(&framebuffer(0x4000_0000, 1)));
}

#[test]
fn read_steps() {
    assert!(matches!(Renderer::<Bare>::read_step(MapStatus::<u8>::Mapped, true), ReadStep::Finish));
    assert!(matches!(Renderer::<Bare>::read_step(MapStatus::<u8>::Mapped, false), ReadStep::Finish));
    assert!(matches!(Renderer::<Bare>::read_step(MapStatus::Failed(7u8), true), ReadStep::Fail(7)));
    assert!(matches!(Renderer::<Bare>::read_step(MapStatus::<u8>::Pending, false), ReadStep::Poll));
}

#[test]
fn read_pixels_wants_the_whole_buffer() {
    let bytes = [1u8, 2, 3, 4, 5, 6, 7, 8];
    assert_eq!(
        Renderer::<Bare>::read_pixels(&bytes, 8),
        Some(vec![Bgra8::new(1, 2, 3, 4), Bgra8::new(5, 6, 7, 8)])
    );
    assert_eq!(Renderer::<Bare>::read_pixels(&bytes, 12), None);
    assert_eq!(Renderer::<Bare>::read_pixels(&bytes[..4], 8), None);
    assert_eq!(Renderer::<Bare>::read_pixels(&[], 0), Some(vec![]));
}

struct Triangle;

impl Renderable<Bare> for Triangle {
    fn buffer(&self, r: &Renderer<Bare>) -> VertexBuffer<Bare> {
        VertexBuffer { size: 3 * r.sample_count(), wgpu: () }
    }
}

#[test]
fn finish_hands_out_the_buffer() {
    let r = renderer(4);
    assert_eq!(Triangle.buffer(&r).size, 12);
    assert_eq!(Triangle.finish(&r).size, 12);
}
