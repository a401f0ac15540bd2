//! The renderer: what it asks of its device, and how pixels are read back
//! from a framebuffer.

use crate::backend::Backend;
use crate::buffers::{Framebuffer, VertexBuffer};
use crate::color::Bgra8;
use crate::device::{
    framebuffer_usage, spec_texture_descriptor, zbuffer_usage, BufferUsages, Device,
    FramebufferDescriptor,
    SurfaceConfiguration, TextureDescriptor, TextureUsages,
};
use crate::frame::RenderTarget;
use crate::geometry::Size;
use crate::pipeline::{
    multisample_state, render_pipeline_state, spec_multisample_state, BlendState, Blending,
    RenderPipelineState, TextureFormat,
};
use crate::texture::{Extent3d, ImageCopyTexture, ImageDataLayout, Origin3d, TextureAspect};
use vstd::prelude::*;

verus! {

impl<B: Backend> RenderTarget<B> for Framebuffer<B> {
    open spec fn color(&self) -> B::TextureView {
        self.texture.view
    }

    open spec fn zdepth(&self) -> B::TextureView {
        self.depth.texture.view
    }

    fn color_target(&self) -> (view: &B::TextureView) {
        &self.texture.view
    }

    fn zdepth_target(&self) -> (view: &B::TextureView) {
        &self.depth.texture.view
    }
}

/// Something that can be turned into a buffer of vertices.
pub trait Renderable<B: Backend> {
    fn buffer(&self, r: &Renderer<B>) -> VertexBuffer<B>;

    /// The buffer of vertices, for good.
    fn finish(self, r: &Renderer<B>) -> (out: VertexBuffer<B>) where Self: Sized
        ensures
            call_ensures(Self::buffer, (&self, r), out),
    {
        self.buffer(r)
    }
}

/// A buffer that is created empty.
#[derive(Debug, Clone, Copy)]
pub struct BufferDescriptor {
    pub label: Option<&'static str>,
    pub size: u64,
    pub usage: BufferUsages,
    pub mapped_at_creation: bool,
}

/// A copy of texels from a texture into a buffer.
#[derive(Debug, Clone, Copy, PartialEq, Eq)]
pub struct TextureToBuffer {
    pub source: ImageCopyTexture,
    pub layout: ImageDataLayout,
    pub extent: Extent3d,
}

/// Everything that reading a framebuffer back asks of the GPU: a buffer
/// of `bytesize` bytes to read into, and the copy that fills it.
#[derive(Debug, Clone, Copy)]
pub struct ReadPlan {
    pub bytesize: usize,
    pub buffer: BufferDescriptor,
    pub copy: TextureToBuffer,
}

/// What a read-back buffer is used for: it is mapped for reading and
/// copied to.
pub open spec fn read_usage() -> BufferUsages {
    BufferUsages { map_read: true, copy_dst: true, ..BufferUsages::spec_empty() }
}

/// What has become of the request to map the read-back buffer: it is
/// still pending, it was granted, or it failed with an error of type `E`.
pub enum MapStatus<E> {
    Pending,
    Mapped,
    Failed(E),
}

/// What to do next while waiting for the read-back buffer.
pub enum ReadStep<E> {
    /// The buffer is mapped: read it.
    Finish,
    /// Mapping failed: give up with the error.
    Fail(E),
    /// Nothing has been heard yet: poll the device once more.
    Poll,
}

/// A renderer: a device and the number of samples it draws with.
pub struct Renderer<B: Backend> {
    pub device: Device<B>,
    /// Enables MSAA for values > 1.
    pub sample_count: u32,
}

impl<B: Backend> Renderer<B> {
    /// A renderer on the given device that draws with `sample_count`
    /// samples.
    pub fn new(device: Device<B>, sample_count: u32) -> (renderer: Self)
        ensures
            renderer.device == device,
            renderer.sample_count == sample_count,
    {
        Self { device, sample_count }
    }

    pub fn sample_count(&self) -> (count: u32)
        ensures
            count == self.sample_count,
    {
        self.sample_count
    }

    /// Describes the surface of the given size, presentation mode and
    /// format, and records the size with the device. The device must have a
    /// surface.
    pub fn surface_configuration<P>(&mut self, size: Size<u32>, mode: P, format: B::TextureFormat) -> (out:
        SurfaceConfiguration<B::TextureFormat, P>)
        requires
            old(self).device.surface is Some,
        ensures
            final(self).sample_count == old(self).sample_count,
            final(self).device.size == size,
            final(self).device.wgpu == old(self).device.wgpu,
            final(self).device.queue == old(self).device.queue,
            final(self).device.surface == old(self).device.surface,
            out.usage == crate::device::surface_usage(),
            out.format == format,
            out.present_mode == mode,
            out.width == size.width,
            out.height == size.height,
            out.alpha_mode == crate::device::CompositeAlphaMode::Auto,
    {
        self.device.surface_configuration(size, mode, format)
    }

    /// Describes the depth buffer of the frame that is drawn next: it has
    /// the size the surface was last set up with and the renderer's number
    /// of samples.
    pub fn frame_depth_descriptor(&self) -> (depth: TextureDescriptor<TextureFormat>)
        ensures
            depth == spec_texture_descriptor(
                self.device.size,
                TextureFormat::Depth32Float,
                zbuffer_usage(),
                self.sample_count,
            ),
    {
        crate::device::zbuffer_descriptor(self.device.size(), self.sample_count)
    }

    /// Describes a texture of the given size, format and usage. A
    /// multisampled texture has the renderer's number of samples, any other
    /// a single one.
    pub fn texture_descriptor<F>(
        &self,
        size: Size<u32>,
        format: F,
        usage: TextureUsages,
        multisampled: bool,
    ) -> (descriptor: TextureDescriptor<F>)
        ensures
            descriptor == spec_texture_descriptor(
                size,
                format,
                usage,
                if multisampled {
                    self.sample_count
                } else {
                    1
                },
            ),
    {
        let sample_count: u32 = if multisampled {
            self.sample_count
        } else {
            1
        };
        crate::device::texture_descriptor(size, format, usage, sample_count)
    }

    /// Describes a framebuffer of the given size and format, with the
    /// renderer's number of samples.
    pub fn framebuffer_descriptor<F>(&self, size: Size<u32>, format: F) -> (descriptor: FramebufferDescriptor<
        F,
    >)
        ensures
            descriptor.texture == spec_texture_descriptor(
                size,
                format,
                framebuffer_usage(),
                self.sample_count,
            ),
            descriptor.depth == spec_texture_descriptor(
                size,
                TextureFormat::Depth32Float,
                zbuffer_usage(),
                self.sample_count,
            ),
    {
        crate::device::framebuffer_descriptor(size, format, self.sample_count)
    }

    /// Describes a depth buffer of the given size, with the renderer's
    /// number of samples.
    pub fn zbuffer_descriptor(&self, size: Size<u32>) -> (descriptor: TextureDescriptor<TextureFormat>)
        ensures
            descriptor == spec_texture_descriptor(
                size,
                TextureFormat::Depth32Float,
                zbuffer_usage(),
                self.sample_count,
            ),
    {
        crate::device::zbuffer_descriptor(size, self.sample_count)
    }

    /// Describes the state of the pipeline that draws with `blending` into
    /// a target of `format`, with the renderer's number of samples.
    pub fn pipeline_state<F>(&self, blending: Blending, format: F) -> (state: RenderPipelineState<F>)
        ensures
            state.vertex_entry_point@ == "main"@,
            state.fragment_entry_point@ == "main"@,
            state.primitive == crate::pipeline::spec_primitive_state(),
            state.depth_stencil == crate::pipeline::spec_depth_stencil_state(),
            state.multisample == spec_multisample_state(self.sample_count),
            state.target.format == format,
            state.target.blend == Some(BlendState { color: blending@, alpha: blending@ }),
            state.target.write_mask == (crate::pipeline::ColorWrites {
                red: true,
                green: true,
                blue: true,
                alpha: true,
            }),
    {
        render_pipeline_state(blending, format, multisample_state(self.sample_count))
    }

    /// Whether the pixels of a framebuffer can be read back: four bytes
    /// for each pixel must be a length the machine can hold, and four bytes
    /// for each pixel of a row must fit in 32 bits.
    pub open spec fn read_ok(fb: &Framebuffer<B>) -> bool {
        &&& 4 * fb.texture.size.spec_area() <= usize::MAX
        &&& 4 * fb.texture.size.width <= u32::MAX
    }

    /// [`Renderer::read_ok`], worked out.
    pub fn can_read(fb: &Framebuffer<B>) -> (ok: bool)
        ensures
            ok == Self::read_ok(fb),
    {
        proof {
            crate::geometry::lemma_product_bound(fb.texture.size.width, fb.texture.size.height);
        }
        let area: u64 = (fb.texture.size.width as u64) * (fb.texture.size.height as u64);
        area <= (usize::MAX / 4) as u64 && fb.texture.size.width <= 0x3fff_ffff
    }

    /// Describes what reading back the pixels of `fb` asks of the GPU.
    /// The buffer holds four bytes for each pixel of the framebuffer; the
    /// copy takes the whole texture from its origin, row by row, with four
    /// bytes for each pixel of a row.
    pub fn read_plan(fb: &Framebuffer<B>) -> (plan: ReadPlan)
        requires
            Self::read_ok(fb),
        ensures
            plan.bytesize == 4 * fb.texture.size.spec_area(),
            plan.buffer.label is None,
            plan.buffer.size == plan.bytesize,
            plan.buffer.usage == read_usage(),
            !plan.buffer.mapped_at_creation,
            plan.copy == (TextureToBuffer {
                source: ImageCopyTexture {
                    mip_level: 0,
                    origin: Origin3d { x: 0, y: 0, z: 0 },
                    aspect: TextureAspect::All,
                },
                layout: ImageDataLayout {
                    offset: 0,
                    bytes_per_row: Some((4 * fb.texture.size.width) as u32),
                    rows_per_image: Some(fb.texture.size.height),
                },
                extent: fb.texture.extent,
            }),
    {
        let bytesize: usize = 4 * fb.size();
        let mut usage = BufferUsages::empty();
        usage.map_read = true;
        usage.copy_dst = true;
        ReadPlan {
            bytesize,
            buffer: BufferDescriptor {
                label: None,
                size: bytesize as u64,
                usage,
                mapped_at_creation: false,
            },
            copy: TextureToBuffer {
                source: ImageCopyTexture {
                    mip_level: 0,
                    origin: Origin3d { x: 0, y: 0, z: 0 },
                    aspect: TextureAspect::All,
                },
                layout: ImageDataLayout {
                    offset: 0,
                    bytes_per_row: Some(4 * fb.texture.size.width),
                    rows_per_image: Some(fb.texture.size.height),
                },
                extent: fb.texture.extent,
            },
        }
    }

    /// Decides what to do after the device was polled: read the buffer
    /// once it is mapped, give up once mapping failed, and poll again while
    /// nothing has been heard. While nothing has been heard the queue of
    /// the device must not have run empty.
    pub fn read_step<E>(status: MapStatus<E>, queue_empty: bool) -> (step: ReadStep<E>)
        requires
            status is Pending ==> !queue_empty,
        ensures
            status is Mapped ==> step is Finish,
            status matches MapStatus::Failed(e) ==> step == ReadStep::Fail(e),
            status is Pending ==> step is Poll,
    {
        match status {
            MapStatus::Mapped => ReadStep::Finish,
            MapStatus::Failed(err) => ReadStep::Fail(err),
            MapStatus::Pending => ReadStep::Poll,
        }
    }

    /// The pixels that the read-back buffer holds, if it holds as many
    /// bytes as were asked for, and nothing otherwise.
    pub fn read_pixels(buffer: &[u8], bytesize: usize) -> (pixels: Option<Vec<Bgra8>>)
        requires
            bytesize % 4 == 0,
        ensures
            pixels is Some <==> buffer@.len() == bytesize,
            pixels matches Some(body) ==> body@ == Bgra8::spec_align(buffer@),
    {
        if buffer.len() == bytesize {
            Some(Bgra8::align(buffer))
        } else {
            None
        }
    }
}

} // verus!
