//! The command scope of one frame: it records render passes and gives them
//! up, once, as one command buffer.

use vstd::prelude::*;
use crate::graphics::gpu::Gpu;
use crate::graphics::render_pass::{PassCommand, PassView, RenderPass};
use crate::graphics::render_target::SurfaceRenderTarget;

verus! {

/// The recording of one frame in progress. It borrows the device core for as
/// long as it records, so the surface is not resized under it, and it
/// borrows every target that a pass of it draws into, so no target is
/// presented before the recording is given up.
#[derive(Debug)]
pub struct RenderEncoder<'a, I> {
    gpu: &'a Gpu,
    passes: Vec<PassCommand<'a, I>>,
}

/// What a finished scope leaves: its passes, in the order in which they were
/// opened. The driver replays them and submits the result to the queue.
#[derive(Debug)]
pub struct CommandBuffer<'a, I> {
    passes: Vec<PassCommand<'a, I>>,
}

impl<'a, I> View for CommandBuffer<'a, I> {
    type V = Seq<PassCommand<'a, I>>;

    closed spec fn view(&self) -> Seq<PassCommand<'a, I>> {
        self.passes@
    }
}

impl<'a, I> CommandBuffer<'a, I> {
    /// The recorded passes, first opened first.
    pub fn passes(&self) -> (passes: &[PassCommand<'a, I>])
        ensures
            passes@ == self@,
    {
        self.passes.as_slice()
    }
}

impl<'a, I> RenderEncoder<'a, I> {
    /// The device core that the scope borrows.
    pub closed spec fn gpu(self) -> Gpu {
        *self.gpu
    }

    /// The passes recorded so far, first opened first.
    pub closed spec fn passes(self) -> Seq<PassCommand<'a, I>> {
        self.passes@
    }

    /// A new scope on `gpu`, with nothing recorded.
    pub fn new(gpu: &'a Gpu) -> (encoder: Self)
        ensures
            encoder.gpu() == *gpu,
            encoder.passes() == Seq::<PassCommand<'a, I>>::empty(),
    {
        RenderEncoder { gpu, passes: Vec::new() }
    }

    /// Opens the next render pass, over `render_target`. The pass clears the
    /// target to `clear`, or to opaque black where `clear` is absent. It is
    /// recorded after the passes that the scope already holds, and what it
    /// records until it ends is what the scope holds for it.
    pub fn render_pass<'b>(
        &'b mut self,
        render_target: &'a SurfaceRenderTarget<I>,
        clear: Option<wgpu::Color>,
    ) -> (pass: RenderPass<'b, 'a, I>)
        ensures
            pass.command@ == PassView::opened(render_target@.image, clear),
            final(self).passes() == old(self).passes().push(*final(pass.command)),
            final(self).gpu() == old(self).gpu(),
    {
        RenderPass::new(&mut self.passes, render_target, clear)
    }

    /// Ends the recording. The scope is used up, so it is finished once; what
    /// comes out is one command buffer with exactly the recorded passes, in
    /// order.
    pub fn finish(self) -> (buffer: CommandBuffer<'a, I>)
        ensures
            buffer@ == self.passes(),
    {
        CommandBuffer { passes: self.passes }
    }
}

} // verus!
