//! Frames, and the render passes that are begun on them.

use crate::backend::Backend;
use crate::buffers::UniformBuffer;
use vstd::prelude::*;

verus! {

/// Can be rendered to in a pass.
pub trait RenderTarget<B: Backend> {
    /// What `color_target` returns. A verified implementation says so
    /// here.
    open spec fn color(&self) -> B::TextureView {
        arbitrary()
    }

    /// What `zdepth_target` returns. A verified implementation says so
    /// here.
    open spec fn zdepth(&self) -> B::TextureView {
        arbitrary()
    }

    /// Color component.
    fn color_target(&self) -> (view: &B::TextureView)
        ensures
            *view == self.color(),
    ;

    /// Depth component.
    fn zdepth_target(&self) -> (view: &B::TextureView)
        ensures
            *view == self.zdepth(),
    ;
}

/// What a pass does with its colour target before it draws: clear it to a
/// colour of type `C`, or keep what is there.
#[derive(Debug, Clone, Copy)]
pub enum PassOp<C> {
    Clear(C),
    Load(),
}

/// What happens to an attachment when a pass begins.
#[derive(Debug, Clone, Copy)]
pub enum LoadOp<V> {
    Clear(V),
    Load,
}

/// What happens to an attachment when a pass begins and when it ends.
#[derive(Debug, Clone, Copy)]
pub struct Operations<V> {
    pub load: LoadOp<V>,
    pub store: bool,
}

impl<C> PassOp<C> {
    /// The operation in the shape the GPU API takes it.
    pub open spec fn spec_to_wgpu(self) -> LoadOp<C> {
        match self {
            PassOp::Clear(color) => LoadOp::Clear(color),
            PassOp::Load() => LoadOp::Load,
        }
    }

    /// The operation in the shape the GPU API takes it.
    pub fn to_wgpu(self) -> (load: LoadOp<C>)
        ensures
            load == self.spec_to_wgpu(),
    {
        match self {
            PassOp::Clear(color) => LoadOp::Clear(color),
            PassOp::Load() => LoadOp::Load,
        }
    }
}

/// The colour attachment of a pass.
pub struct ColorAttachment<'a, B: Backend, C> {
    pub view: &'a B::TextureView,
    pub resolve_target: Option<&'a B::TextureView>,
    pub ops: Operations<C>,
}

/// The depth and stencil attachment of a pass. The depth that is cleared
/// to is a whole number here; the GPU API takes it as a floating-point
/// number of the same value.
pub struct DepthStencilAttachment<'a, B: Backend> {
    pub view: &'a B::TextureView,
    pub depth_ops: Option<Operations<u32>>,
    pub stencil_ops: Option<Operations<u32>>,
}

/// Everything a render pass is begun with.
pub struct RenderPassDescriptor<'a, B: Backend, C> {
    pub color_attachment: ColorAttachment<'a, B, C>,
    pub depth_stencil_attachment: DepthStencilAttachment<'a, B>,
}

/// Describes the pass that draws into `view`, resolving into
/// `resolve_target` if there is one, with the depth buffer `depth`. The
/// colour target is cleared or kept as `op` says, the depth is cleared to
/// one and the stencil to zero, and everything drawn is stored.
pub fn begin<'a, B: Backend, C>(
    view: &'a B::TextureView,
    resolve_target: Option<&'a B::TextureView>,
    depth: &'a B::TextureView,
    op: PassOp<C>,
) -> (pass: RenderPassDescriptor<'a, B, C>)
    ensures
        pass.color_attachment.view == view,
        pass.color_attachment.resolve_target == resolve_target,
        pass.color_attachment.ops.load == op.spec_to_wgpu(),
        pass.color_attachment.ops.store,
        pass.depth_stencil_attachment.view == depth,
        pass.depth_stencil_attachment.depth_ops matches Some(ops) && ops.store && ops.load
            == LoadOp::Clear(1u32),
        pass.depth_stencil_attachment.stencil_ops matches Some(ops) && ops.store && ops.load
            == LoadOp::Clear(0u32),
{
    RenderPassDescriptor {
        color_attachment: ColorAttachment {
            view,
            resolve_target,
            ops: Operations { load: op.to_wgpu(), store: true },
        },
        depth_stencil_attachment: DepthStencilAttachment {
            view: depth,
            depth_ops: Some(Operations { load: LoadOp::Clear(1), store: true }),
            stencil_ops: Some(Operations { load: LoadOp::Clear(0), store: true }),
        },
    }
}

/// A copy of bytes from the start of one buffer to the start of another.
#[derive(Debug, Clone, Copy, PartialEq, Eq, Structural)]
pub struct BufferCopy {
    pub source_offset: u64,
    pub destination_offset: u64,
    pub size: u64,
}

/// The commands of one frame, as they are being recorded.
pub struct Frame<B: Backend> {
    pub encoder: B::CommandEncoder,
}

impl<B: Backend> Frame<B> {
    pub fn new(encoder: B::CommandEncoder) -> (frame: Self)
        ensures
            frame.encoder == encoder,
    {
        Self { encoder }
    }

    /// Describes the pass that draws to `view`. With a multisample
    /// buffer, the pass draws into that buffer and resolves into the colour
    /// target of `view`; without one, it draws into the colour target
    /// itself. The depth buffer is that of `view` either way.
    pub fn pass_descriptor<'a, C, T: RenderTarget<B>>(
        op: PassOp<C>,
        view: &'a T,
        multisample_buffer: Option<&'a B::TextureView>,
    ) -> (pass: RenderPassDescriptor<'a, B, C>)
        ensures
            multisample_buffer matches Some(buffer) ==> *pass.color_attachment.view == *buffer,
            multisample_buffer is Some ==> (pass.color_attachment.resolve_target matches Some(
                target,
            ) && *target == view.color()),
            multisample_buffer is None ==> *pass.color_attachment.view == view.color(),
            multisample_buffer is None ==> pass.color_attachment.resolve_target is None,
            pass.color_attachment.ops.load == op.spec_to_wgpu(),
            pass.color_attachment.ops.store,
            *pass.depth_stencil_attachment.view == view.zdepth(),
            pass.depth_stencil_attachment.depth_ops matches Some(ops) && ops.store && ops.load
                == LoadOp::Clear(1u32),
            pass.depth_stencil_attachment.stencil_ops matches Some(ops) && ops.store && ops.load
                == LoadOp::Clear(0u32),
    {
        let (pass_view, resolve_target) = match multisample_buffer {
            Some(buffer) => (buffer, Some(view.color_target())),
            None => (view.color_target(), None),
        };
        begin(pass_view, resolve_target, view.zdepth_target(), op)
    }

    /// Describes the copy of all of `src` into `dst`: as many bytes as
    /// `src` holds, from the start of the one to the start of the other.
    pub fn uniform_copy(src: &UniformBuffer<B>, dst: &UniformBuffer<B>) -> (copy: BufferCopy)
        requires
            src.spec_byte_len() <= usize::MAX,
        ensures
            copy == (BufferCopy {
                source_offset: 0,
                destination_offset: 0,
                size: src.spec_byte_len() as u64,
            }),
    {
        BufferCopy { source_offset: 0, destination_offset: 0, size: src.byte_len() }
    }

    pub fn encoder(&self) -> (encoder: &B::CommandEncoder)
        ensures
            *encoder == self.encoder,
    {
        &self.encoder
    }

    pub fn encoder_mut(&mut self) -> (encoder: &mut B::CommandEncoder)
        ensures
            *encoder == old(self).encoder,
            final(self).encoder == *final(encoder),
    {
        &mut self.encoder
    }
}

} // verus!
