//! One render pass: a recording region over one color target.

use vstd::prelude::*;
use crate::graphics::render_target::SurfaceRenderTarget;

verus! {

/// `wgpu::Color`, carried as an opaque value: the core hands a clear color
/// on and never looks into it.
#[verifier::external_type_specification]
#[verifier::external_body]
pub struct ExColor(wgpu::Color);

/// The number of vertices of the one primitive that a pass may draw.
pub const TRIANGLE_VERTICES: u32 = 3;

/// The number of instances of the one primitive that a pass may draw.
pub const TRIANGLE_INSTANCES: u32 = 1;

/// What the color target is cleared to when a pass begins.
#[derive(Clone, Copy, Debug, PartialEq)]
pub enum ClearColor {
    /// Black with full alpha: the color of a pass that names none.
    OpaqueBlack,
    /// The color that the pass names.
    Custom(wgpu::Color),
}

/// One draw call against the fixed render pipeline.
#[derive(Clone, Copy, Debug, PartialEq, Eq)]
pub struct DrawCall {
    pub vertices: u32,
    pub instances: u32,
}

/// The clear color of a pass that was asked for `clear`: that color, or
/// opaque black where none was named.
pub open spec fn clear_color_of(clear: Option<wgpu::Color>) -> ClearColor {
    match clear {
        Some(color) => ClearColor::Custom(color),
        None => ClearColor::OpaqueBlack,
    }
}

/// The one primitive in scope: three vertices, one instance.
pub open spec fn triangle() -> DrawCall {
    DrawCall { vertices: TRIANGLE_VERTICES, instances: TRIANGLE_INSTANCES }
}

/// The mathematical content of a [`PassCommand`]: the image that is its one
/// color target, what the target is cleared to, whether what is drawn is
/// kept, and the draw call, if there is one.
pub struct PassView<I> {
    pub target: I,
    pub clear: ClearColor,
    pub store: bool,
    pub draw: Option<DrawCall>,
}

impl<I> PassView<I> {
    /// A pass as it begins: it clears `target` to the color asked for, keeps
    /// what is drawn and has, so far, no draw call.
    pub open spec fn opened(target: I, clear: Option<wgpu::Color>) -> PassView<I> {
        PassView { target, clear: clear_color_of(clear), store: true, draw: None }
    }

    /// The same pass, drawing the triangle.
    pub open spec fn with_triangle(self) -> PassView<I> {
        PassView { draw: Some(triangle()), ..self }
    }

    /// What is drawn is kept, and nothing but the triangle is ever drawn.
    pub open spec fn wf(self) -> bool {
        &&& self.store
        &&& self.draw matches Some(draw) ==> draw == triangle()
    }
}

/// One recorded render pass, for the driver to replay. A pass has one color
/// target and nothing besides: a depth or stencil target, multisampling and
/// timestamp queries cannot be recorded. It always clears its target and
/// always keeps what it draws.
#[derive(Debug)]
pub struct PassCommand<'a, I> {
    target: &'a I,
    clear: ClearColor,
    store: bool,
    draw: Option<DrawCall>,
}

impl<'a, I> View for PassCommand<'a, I> {
    type V = PassView<I>;

    closed spec fn view(&self) -> PassView<I> {
        PassView { target: *self.target, clear: self.clear, store: self.store, draw: self.draw }
    }
}

impl<'a, I> PassCommand<'a, I> {
    /// Every pass that exists is well formed.
    #[verifier::type_invariant]
    pub open spec fn inv(self) -> bool {
        self@.wf()
    }

    /// The image that is the pass's one color target.
    pub fn target(&self) -> (target: &'a I)
        ensures
            *target == self@.target,
    {
        self.target
    }

    /// The color that the target is cleared to when the pass begins.
    pub fn clear(&self) -> (clear: ClearColor)
        ensures
            clear == self@.clear,
    {
        self.clear
    }

    /// Whether what the pass draws is kept in the target: it always is.
    pub fn store(&self) -> (store: bool)
        ensures
            store == self@.store,
            store,
    {
        proof {
            use_type_invariant(self);
        }
        self.store
    }

    /// The draw call of the pass, if it has one: the triangle.
    pub fn draw(&self) -> (draw: Option<DrawCall>)
        ensures
            draw == self@.draw,
            draw matches Some(call) ==> call == triangle(),
    {
        proof {
            use_type_invariant(self);
        }
        self.draw
    }
}

/// A render pass that is open for recording. It borrows its place in the
/// command list of the scope that opened it: while it lives, the scope can
/// neither open another pass nor finish. The pass ends when it goes out of
/// scope, and what it recorded stays in the scope.
#[derive(Debug)]
pub struct RenderPass<'b, 'a, I> {
    /// The pass being recorded.
    pub command: &'b mut PassCommand<'a, I>,
}

impl<'b, 'a, I> RenderPass<'b, 'a, I> {
    /// Opens a pass over `render_target` at the end of `commands`: the pass
    /// clears the target to `clear`, or to opaque black where `clear` is
    /// absent, and keeps what is drawn. Whatever the pass records until it
    /// ends is what the list holds for it.
    pub(crate) fn new(
        commands: &'b mut Vec<PassCommand<'a, I>>,
        render_target: &'a SurfaceRenderTarget<I>,
        clear: Option<wgpu::Color>,
    ) -> (pass: Self)
        ensures
            pass.command@ == PassView::opened(render_target@.image, clear),
            final(commands)@ == old(commands)@.push(*final(pass.command)),
    {
        let clear = match clear {
            Some(color) => ClearColor::Custom(color),
            None => ClearColor::OpaqueBlack,
        };
        commands.push(PassCommand { target: render_target.image(), clear, store: true, draw: None });
        let last = commands.len() - 1;
        RenderPass { command: &mut commands[last] }
    }

    /// Records the one draw call in scope: the fixed pipeline emits the
    /// triangle. The rest of the pass stays as it is.
    pub fn draw_triangle(&mut self)
        ensures
            final(self).command@ == old(self).command@.with_triangle(),
            *final(final(self).command) == *final(old(self).command),
    {
        proof {
            use_type_invariant(&*self.command);
        }
        self.command.draw = Some(
            DrawCall { vertices: TRIANGLE_VERTICES, instances: TRIANGLE_INSTANCES },
        );
    }
}

} // verus!
