//! Bridge: what is drawn (a circle) and how it is drawn (by which renderer)
//! vary on their own.  The circle holds a renderer and hands it the work.
//!
//! The measure of a radius is left open: the bridge carries it and never
//! computes with it.

use vstd::prelude::*;

verus! {

/// The rendering interfaces there are.
#[derive(Clone, Copy, Debug, PartialEq, Eq, Structural)]
pub enum Api {
    OpenGL,
    DirectX,
}

/// A circle that was rendered: through which interface, and with which
/// radius.
#[derive(Debug, PartialEq)]
pub struct Rendered<M> {
    pub api: Api,
    pub radius: M,
}

/// The implementor side of the bridge.
pub trait Renderer {
    /// The interface this renderer draws through.
    spec fn api(&self) -> Api;

    /// Renders a circle of the given radius.
    fn render_circle<M>(&self, radius: M) -> (rendered: Rendered<M>)
        ensures
            rendered.api == self.api(),
            rendered.radius == radius,
    ;
}

/// Renders through OpenGL.
pub struct OpenGLRenderer;

impl Renderer for OpenGLRenderer {
    open spec fn api(&self) -> Api {
        Api::OpenGL
    }

    fn render_circle<M>(&self, radius: M) -> (rendered: Rendered<M>) {
        Rendered { api: Api::OpenGL, radius }
    }
}

/// Renders through DirectX.
pub struct DirectXRenderer;

impl Renderer for DirectXRenderer {
    open spec fn api(&self) -> Api {
        Api::DirectX
    }

    fn render_circle<M>(&self, radius: M) -> (rendered: Rendered<M>) {
        Rendered { api: Api::DirectX, radius }
    }
}

/// The abstraction side of the bridge: a circle that draws itself with the
/// renderer it holds.
pub struct Circle<R: Renderer, M: Copy> {
    renderer: R,
    radius: M,
}

impl<R: Renderer, M: Copy> Circle<R, M> {
    /// The renderer the circle holds.
    pub closed spec fn renderer(&self) -> R {
        self.renderer
    }

    /// The circle's radius.
    pub closed spec fn radius(&self) -> M {
        self.radius
    }

    /// A circle of the given radius that draws itself with `renderer`.
    pub fn new(renderer: R, radius: M) -> (circle: Circle<R, M>)
        ensures
            circle.renderer() == renderer,
            circle.radius() == radius,
    {
        Circle { renderer, radius }
    }

    /// Draws the circle: its renderer renders a circle of its radius.
    pub fn draw(&self) -> (rendered: Rendered<M>)
        ensures
            rendered.api == self.renderer().api(),
            rendered.radius == self.radius(),
    {
        self.renderer.render_circle(self.radius)
    }
}

} // verus!
