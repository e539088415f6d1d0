//! The renderers that a layout tree is built from: leaves that draw nothing,
//! clear their viewport or stand for a renderer of the caller, and nodes that
//! divide their viewport among their children.

use vstd::prelude::*;
use crate::renderers::layout::fit_rect;
use crate::renderers::layout::fit_viewport;
use crate::renderers::layout::inset_rect;
use crate::renderers::layout::inset_viewport;
use crate::renderers::layout::split_rects;
use crate::renderers::layout::split_viewports;
use crate::renderers::layout::AspectRatio;
use crate::renderers::DrawCommand;
use crate::renderers::IntRect;
use crate::renderers::Renderer;

pub use crate::renderers::layout::SplitPoint;

verus! {

/// A renderer that does nothing.
#[derive(Debug, Clone, Copy, PartialEq, Eq)]
pub struct NullRenderer;

impl Renderer for NullRenderer {
    open spec fn with_viewport(self, rect: IntRect) -> Self {
        self
    }

    open spec fn draws(self) -> Seq<DrawCommand> {
        Seq::empty()
    }

    fn set_viewport(&mut self, _viewport_rect: IntRect) {
    }

    fn render(&self) -> (commands: Vec<DrawCommand>) {
        Vec::new()
    }

    proof fn lemma_last_viewport_counts(self, earlier: IntRect, last: IntRect) {
    }
}

/// What a `ClearColorRenderer` holds.
pub struct ClearColorView {
    pub viewport_rect: IntRect,
    pub color: [u32; 4],
}

/// Fills the viewport with a solid color.
pub struct ClearColorRenderer {
    viewport_rect: IntRect,
    color: [u32; 4],
}

impl View for ClearColorRenderer {
    type V = ClearColorView;

    closed spec fn view(&self) -> ClearColorView {
        ClearColorView { viewport_rect: self.viewport_rect, color: self.color }
    }
}

impl ClearColorRenderer {
    /// A renderer that clears `viewport_rect` to `color`: red, green, blue
    /// and alpha, each the bit pattern of an IEEE 754 single-precision number.
    /// The components are handed on as they are.
    pub fn new(viewport_rect: IntRect, color: [u32; 4]) -> (renderer: Self)
        ensures
            renderer@ == (ClearColorView { viewport_rect, color }),
    {
        Self { viewport_rect, color }
    }

    /// Placing the renderer changes its viewport and nothing else; it draws
    /// by restricting drawing to its viewport and clearing to its color.
    pub proof fn lemma_view(self, rect: IntRect)
        ensures
            self.with_viewport(rect)@ == (ClearColorView { viewport_rect: rect, ..self@ }),
            self.draws() == seq![
                DrawCommand::Viewport(self@.viewport_rect),
                DrawCommand::ClearColor(self@.color),
            ],
    {
    }
}

impl Renderer for ClearColorRenderer {
    closed spec fn with_viewport(self, rect: IntRect) -> Self {
        ClearColorRenderer { viewport_rect: rect, color: self.color }
    }

    closed spec fn draws(self) -> Seq<DrawCommand> {
        seq![DrawCommand::Viewport(self.viewport_rect), DrawCommand::ClearColor(self.color)]
    }

    fn set_viewport(&mut self, viewport_rect: IntRect) {
        self.viewport_rect = viewport_rect;
    }

    fn render(&self) -> (commands: Vec<DrawCommand>) {
        let mut commands = Vec::new();
        commands.push(self.viewport_rect.gl_viewport());
        commands.push(DrawCommand::ClearColor(self.color));
        commands
    }

    proof fn lemma_last_viewport_counts(self, earlier: IntRect, last: IntRect) {
    }
}

/// What an `ExternalRenderer` holds.
pub struct ExternalView {
    pub viewport_rect: IntRect,
    pub renderer: u64,
}

/// A leaf that stands for a renderer which the caller keeps under a handle:
/// an image, a text, a scene. The tree places it like any other renderer;
/// drawing it is left to the caller.
pub struct ExternalRenderer {
    viewport_rect: IntRect,
    renderer: u64,
}

impl View for ExternalRenderer {
    type V = ExternalView;

    closed spec fn view(&self) -> ExternalView {
        ExternalView { viewport_rect: self.viewport_rect, renderer: self.renderer }
    }
}

impl ExternalRenderer {
    pub fn new(viewport_rect: IntRect, renderer: u64) -> (leaf: Self)
        ensures
            leaf@ == (ExternalView { viewport_rect, renderer }),
    {
        Self { viewport_rect, renderer }
    }

    /// Placing the leaf changes its viewport and nothing else; it draws by
    /// one command that names the handle and the viewport.
    pub proof fn lemma_view(self, rect: IntRect)
        ensures
            self.with_viewport(rect)@ == (ExternalView { viewport_rect: rect, ..self@ }),
            self.draws() == seq![
                DrawCommand::External {
                    renderer: self@.renderer,
                    viewport_rect: self@.viewport_rect,
                },
            ],
    {
    }
}

impl Renderer for ExternalRenderer {
    closed spec fn with_viewport(self, rect: IntRect) -> Self {
        ExternalRenderer { viewport_rect: rect, renderer: self.renderer }
    }

    closed spec fn draws(self) -> Seq<DrawCommand> {
        seq![
            DrawCommand::External { renderer: self.renderer, viewport_rect: self.viewport_rect },
        ]
    }

    fn set_viewport(&mut self, viewport_rect: IntRect) {
        self.viewport_rect = viewport_rect;
    }

    fn render(&self) -> (commands: Vec<DrawCommand>) {
        let mut commands = Vec::new();
        commands.push(
            DrawCommand::External { renderer: self.renderer, viewport_rect: self.viewport_rect },
        );
        commands
    }

    proof fn lemma_last_viewport_counts(self, earlier: IntRect, last: IntRect) {
    }
}

/// What a split renderer holds: its viewport, where it divides it, and its
/// two children, the one at the near edge first.
pub struct SplitView<A, B> {
    pub viewport_rect: IntRect,
    pub split_point: SplitPoint,
    pub first: A,
    pub second: B,
}

impl<A: Renderer, B: Renderer> SplitView<A, B> {
    /// The node with its children placed in the two parts of its viewport.
    pub open spec fn laid_out(self, horizontal: bool) -> Self {
        let (first, second) = split_rects(self.viewport_rect, horizontal, self.split_point);
        SplitView {
            first: self.first.with_viewport(first),
            second: self.second.with_viewport(second),
            ..self
        }
    }
}

/// A node that divides its viewport between two children: side by side
/// where `HORIZONTAL` is set, one above the other where it is not.
struct SplitRenderer<A, B, const HORIZONTAL: bool> {
    viewport_rect: IntRect,
    split_point: SplitPoint,
    r1: A,
    r2: B,
}

impl<A: Renderer, B: Renderer, const HORIZONTAL: bool> SplitRenderer<A, B, HORIZONTAL> {
    spec fn view(self) -> SplitView<A, B> {
        SplitView {
            viewport_rect: self.viewport_rect,
            split_point: self.split_point,
            first: self.r1,
            second: self.r2,
        }
    }

    spec fn with_viewport(self, rect: IntRect) -> Self {
        let (first, second) = split_rects(rect, HORIZONTAL, self.split_point);
        SplitRenderer {
            viewport_rect: rect,
            r1: self.r1.with_viewport(first),
            r2: self.r2.with_viewport(second),
            ..self
        }
    }

    fn new(viewport_rect: IntRect, split_point: SplitPoint, r1: A, r2: B) -> (node: Self)
        ensures
            node.view() == (SplitView {
                viewport_rect,
                split_point,
                first: r1,
                second: r2,
            }).laid_out(HORIZONTAL),
    {
        let mut node = Self { viewport_rect, split_point, r1, r2 };
        node.reset_subrenderer_viewports();
        node
    }

    fn get_r1(&self) -> (r1: &A)
        ensures
            *r1 == self.r1,
    {
        &self.r1
    }

    fn get_r2(&self) -> (r2: &B)
        ensures
            *r2 == self.r2,
    {
        &self.r2
    }

    fn get_r1_mut(&mut self) -> (r1: &mut A)
        ensures
            *r1 == old(self).r1,
            *final(self) == (SplitRenderer { r1: *final(r1), ..*old(self) }),
    {
        &mut self.r1
    }

    fn get_r2_mut(&mut self) -> (r2: &mut B)
        ensures
            *r2 == old(self).r2,
            *final(self) == (SplitRenderer { r2: *final(r2), ..*old(self) }),
    {
        &mut self.r2
    }

    fn set_split_point(&mut self, split_point: SplitPoint)
        ensures
            final(self).view() == (SplitView { split_point, ..old(self).view() }).laid_out(
                HORIZONTAL,
            ),
    {
        self.split_point = split_point;
        self.reset_subrenderer_viewports();
    }

    fn reset_subrenderer_viewports(&mut self)
        ensures
            *final(self) == old(self).with_viewport(old(self).viewport_rect),
    {
        let (r1v, r2v) = split_viewports(self.viewport_rect, HORIZONTAL, self.split_point);
        self.r1.set_viewport(r1v);
        self.r2.set_viewport(r2v);
    }

    fn set_viewport(&mut self, viewport_rect: IntRect)
        ensures
            *final(self) == old(self).with_viewport(viewport_rect),
    {
        self.viewport_rect = viewport_rect;
        self.reset_subrenderer_viewports();
    }

    fn render(&self) -> (commands: Vec<DrawCommand>)
        ensures
            commands@ == self.r1.draws() + self.r2.draws(),
    {
        let mut commands = self.r1.render();
        let mut second = self.r2.render();
        commands.append(&mut second);
        commands
    }

    proof fn lemma_last_viewport_counts(self, earlier: IntRect, last: IntRect)
        ensures
            self.with_viewport(earlier).with_viewport(last) == self.with_viewport(last),
    {
        let before = split_rects(earlier, HORIZONTAL, self.split_point);
        let after = split_rects(last, HORIZONTAL, self.split_point);
        self.r1.lemma_last_viewport_counts(before.0, after.0);
        self.r2.lemma_last_viewport_counts(before.1, after.1);
    }
}

/// Splits the viewport between a left and right renderer.
pub struct HSplitRenderer<L, R> {
    split_renderer: SplitRenderer<L, R, true>,
}

impl<L: Renderer, R: Renderer> View for HSplitRenderer<L, R> {
    type V = SplitView<L, R>;

    closed spec fn view(&self) -> SplitView<L, R> {
        self.split_renderer.view()
    }
}

impl<L: Renderer, R: Renderer> HSplitRenderer<L, R> {
    /// A renderer that divides `viewport_rect` at `split_point` of its
    /// width; the children are placed at once.
    pub fn new(viewport_rect: IntRect, split_point: SplitPoint, left: L, right: R) -> (node: Self)
        ensures
            node@ == (SplitView {
                viewport_rect,
                split_point,
                first: left,
                second: right,
            }).laid_out(true),
    {
        let split_renderer = SplitRenderer::new(viewport_rect, split_point, left, right);
        Self { split_renderer }
    }

    pub fn get_left(&self) -> (left: &L)
        ensures
            *left == self@.first,
    {
        self.split_renderer.get_r1()
    }

    pub fn get_right(&self) -> (right: &R)
        ensures
            *right == self@.second,
    {
        self.split_renderer.get_r2()
    }

    /// The left child, to be changed in place. The node does not place it
    /// anew afterwards.
    pub fn get_left_mut(&mut self) -> (left: &mut L)
        ensures
            *left == old(self)@.first,
            final(self)@ == (SplitView { first: *final(left), ..old(self)@ }),
    {
        self.split_renderer.get_r1_mut()
    }

    /// The right child, to be changed in place. The node does not place it
    /// anew afterwards.
    pub fn get_right_mut(&mut self) -> (right: &mut R)
        ensures
            *right == old(self)@.second,
            final(self)@ == (SplitView { second: *final(right), ..old(self)@ }),
    {
        self.split_renderer.get_r2_mut()
    }

    /// Moves the split point and places the children anew.
    pub fn set_split_point(&mut self, split_point: SplitPoint)
        ensures
            final(self)@ == (SplitView { split_point, ..old(self)@ }).laid_out(true),
    {
        self.split_renderer.set_split_point(split_point);
    }

    /// Placing the node places its children in the two parts of the new
    /// viewport; the node draws its left child and then its right one.
    pub proof fn lemma_view(self, rect: IntRect)
        ensures
            self.with_viewport(rect)@ == (SplitView { viewport_rect: rect, ..self@ }).laid_out(
                true,
            ),
            self.draws() == self@.first.draws() + self@.second.draws(),
    {
    }
}

impl<L: Renderer, R: Renderer> Renderer for HSplitRenderer<L, R> {
    closed spec fn with_viewport(self, rect: IntRect) -> Self {
        HSplitRenderer { split_renderer: self.split_renderer.with_viewport(rect) }
    }

    closed spec fn draws(self) -> Seq<DrawCommand> {
        self.split_renderer.r1.draws() + self.split_renderer.r2.draws()
    }

    fn set_viewport(&mut self, viewport_rect: IntRect) {
        self.split_renderer.set_viewport(viewport_rect);
    }

    fn render(&self) -> (commands: Vec<DrawCommand>) {
        self.split_renderer.render()
    }

    proof fn lemma_last_viewport_counts(self, earlier: IntRect, last: IntRect) {
        self.split_renderer.lemma_last_viewport_counts(earlier, last);
    }
}

/// Splits the viewport between a top and bottom renderer.
pub struct VSplitRenderer<T, B> {
    split_renderer: SplitRenderer<T, B, false>,
}

impl<T: Renderer, B: Renderer> View for VSplitRenderer<T, B> {
    type V = SplitView<T, B>;

    closed spec fn view(&self) -> SplitView<T, B> {
        self.split_renderer.view()
    }
}

impl<T: Renderer, B: Renderer> VSplitRenderer<T, B> {
    /// A renderer that divides `viewport_rect` at `split_point` of its
    /// height; the children are placed at once.
    pub fn new(viewport_rect: IntRect, split_point: SplitPoint, top: T, bottom: B) -> (node: Self)
        ensures
            node@ == (SplitView {
                viewport_rect,
                split_point,
                first: top,
                second: bottom,
            }).laid_out(false),
    {
        let split_renderer = SplitRenderer::new(viewport_rect, split_point, top, bottom);
        Self { split_renderer }
    }

    pub fn get_top(&self) -> (top: &T)
        ensures
            *top == self@.first,
    {
        self.split_renderer.get_r1()
    }

    pub fn get_bottom(&self) -> (bottom: &B)
        ensures
            *bottom == self@.second,
    {
        self.split_renderer.get_r2()
    }

    /// The top child, to be changed in place. The node does not place it
    /// anew afterwards.
    pub fn get_top_mut(&mut self) -> (top: &mut T)
        ensures
            *top == old(self)@.first,
            final(self)@ == (SplitView { first: *final(top), ..old(self)@ }),
    {
        self.split_renderer.get_r1_mut()
    }

    /// The bottom child, to be changed in place. The node does not place it
    /// anew afterwards.
    pub fn get_bottom_mut(&mut self) -> (bottom: &mut B)
        ensures
            *bottom == old(self)@.second,
            final(self)@ == (SplitView { second: *final(bottom), ..old(self)@ }),
    {
        self.split_renderer.get_r2_mut()
    }

    /// Moves the split point and places the children anew.
    pub fn set_split_point(&mut self, split_point: SplitPoint)
        ensures
            final(self)@ == (SplitView { split_point, ..old(self)@ }).laid_out(false),
    {
        self.split_renderer.set_split_point(split_point);
    }

    /// Placing the node places its children in the two parts of the new
    /// viewport; the node draws its top child and then its bottom one.
    pub proof fn lemma_view(self, rect: IntRect)
        ensures
            self.with_viewport(rect)@ == (SplitView { viewport_rect: rect, ..self@ }).laid_out(
                false,
            ),
            self.draws() == self@.first.draws() + self@.second.draws(),
    {
    }
}

impl<T: Renderer, B: Renderer> Renderer for VSplitRenderer<T, B> {
    closed spec fn with_viewport(self, rect: IntRect) -> Self {
        VSplitRenderer { split_renderer: self.split_renderer.with_viewport(rect) }
    }

    closed spec fn draws(self) -> Seq<DrawCommand> {
        self.split_renderer.r1.draws() + self.split_renderer.r2.draws()
    }

    fn set_viewport(&mut self, viewport_rect: IntRect) {
        self.split_renderer.set_viewport(viewport_rect);
    }

    fn render(&self) -> (commands: Vec<DrawCommand>) {
        self.split_renderer.render()
    }

    proof fn lemma_last_viewport_counts(self, earlier: IntRect, last: IntRect) {
        self.split_renderer.lemma_last_viewport_counts(earlier, last);
    }
}

/// What an inset renderer holds: its viewport, the inset, and its two
/// children.
pub struct InsetView<O, I> {
    pub viewport_rect: IntRect,
    pub inset: i32,
    pub outside: O,
    pub inside: I,
}

impl<O: Renderer, I: Renderer> InsetView<O, I> {
    /// The node with its children placed: the outside in the whole viewport,
    /// the inside behind the inset.
    pub open spec fn laid_out(self) -> Self {
        InsetView {
            outside: self.outside.with_viewport(self.viewport_rect),
            inside: self.inside.with_viewport(inset_rect(self.viewport_rect, self.inset)),
            ..self
        }
    }
}

/// Renders one renderer inside another, with a specified inset.
/// The inset is the distance from the edge of the viewport to the edge of the inner renderer.
pub struct InsetRenderer<O, I> {
    viewport_rect: IntRect,
    inset: i32,
    outside_renderer: O,
    inside_renderer: I,
}

impl<O: Renderer, I: Renderer> View for InsetRenderer<O, I> {
    type V = InsetView<O, I>;

    closed spec fn view(&self) -> InsetView<O, I> {
        InsetView {
            viewport_rect: self.viewport_rect,
            inset: self.inset,
            outside: self.outside_renderer,
            inside: self.inside_renderer,
        }
    }
}

impl<O: Renderer, I: Renderer> InsetRenderer<O, I> {
    /// A renderer that gives `viewport_rect` to `outside_renderer` and what
    /// lies `inset` pixels inside it to `inside_renderer`; the children are
    /// placed at once.
    pub fn new(viewport_rect: IntRect, inset: i32, outside_renderer: O, inside_renderer: I) -> (node:
        Self)
        ensures
            node@ == (InsetView {
                viewport_rect,
                inset,
                outside: outside_renderer,
                inside: inside_renderer,
            }).laid_out(),
    {
        let mut node = Self { viewport_rect, inset, outside_renderer, inside_renderer };
        node.reset_subrenderer_viewports();
        node
    }

    pub fn get_outside(&self) -> (outside: &O)
        ensures
            *outside == self@.outside,
    {
        &self.outside_renderer
    }

    pub fn get_inside(&self) -> (inside: &I)
        ensures
            *inside == self@.inside,
    {
        &self.inside_renderer
    }

    /// The outside child, to be changed in place. The node does not place
    /// it anew afterwards.
    pub fn get_outside_mut(&mut self) -> (outside: &mut O)
        ensures
            *outside == old(self)@.outside,
            final(self)@ == (InsetView { outside: *final(outside), ..old(self)@ }),
    {
        &mut self.outside_renderer
    }

    /// The inside child, to be changed in place. The node does not place it
    /// anew afterwards.
    pub fn get_inside_mut(&mut self) -> (inside: &mut I)
        ensures
            *inside == old(self)@.inside,
            final(self)@ == (InsetView { inside: *final(inside), ..old(self)@ }),
    {
        &mut self.inside_renderer
    }

    /// Changes the inset and places the children anew.
    pub fn set_inset(&mut self, inset: i32)
        ensures
            final(self)@ == (InsetView { inset, ..old(self)@ }).laid_out(),
    {
        self.inset = inset;
        self.reset_subrenderer_viewports();
    }

    fn reset_subrenderer_viewports(&mut self)
        ensures
            final(self)@ == old(self)@.laid_out(),
    {
        let irect = inset_viewport(self.viewport_rect, self.inset);
        self.outside_renderer.set_viewport(self.viewport_rect);
        self.inside_renderer.set_viewport(irect);
    }

    /// Placing the node places its children in the new viewport and behind
    /// the inset; the node draws its outside child and then its inside one,
    /// so that the inside lies on top.
    pub proof fn lemma_view(self, rect: IntRect)
        ensures
            self.with_viewport(rect)@ == (InsetView { viewport_rect: rect, ..self@ }).laid_out(),
            self.draws() == self@.outside.draws() + self@.inside.draws(),
    {
    }
}

impl<O: Renderer, I: Renderer> Renderer for InsetRenderer<O, I> {
    closed spec fn with_viewport(self, rect: IntRect) -> Self {
        InsetRenderer {
            viewport_rect: rect,
            inset: self.inset,
            outside_renderer: self.outside_renderer.with_viewport(rect),
            inside_renderer: self.inside_renderer.with_viewport(inset_rect(rect, self.inset)),
        }
    }

    closed spec fn draws(self) -> Seq<DrawCommand> {
        self.outside_renderer.draws() + self.inside_renderer.draws()
    }

    fn set_viewport(&mut self, viewport_rect: IntRect) {
        self.viewport_rect = viewport_rect;
        self.reset_subrenderer_viewports();
    }

    fn render(&self) -> (commands: Vec<DrawCommand>) {
        let mut commands = self.outside_renderer.render();
        let mut inside = self.inside_renderer.render();
        commands.append(&mut inside);
        commands
    }

    proof fn lemma_last_viewport_counts(self, earlier: IntRect, last: IntRect) {
        self.outside_renderer.lemma_last_viewport_counts(earlier, last);
        self.inside_renderer.lemma_last_viewport_counts(
            inset_rect(earlier, self.inset),
            inset_rect(last, self.inset),
        );
    }
}

/// What a renderer of fixed aspect ratio holds: its viewport, the aspect
/// ratio, and its child.
pub struct FixedAspectRatioView<R> {
    pub viewport_rect: IntRect,
    pub aspect_ratio: AspectRatio,
    pub renderer: R,
}

impl<R: Renderer> FixedAspectRatioView<R> {
    /// The node with its child placed in the middle of its viewport, as
    /// large as the aspect ratio allows.
    pub open spec fn laid_out(self) -> Self {
        FixedAspectRatioView {
            renderer: self.renderer.with_viewport(fit_rect(self.viewport_rect, self.aspect_ratio)),
            ..self
        }
    }
}

/// Keeps its child at a fixed aspect ratio, as large as fits into the
/// viewport and in the middle of it.
pub struct FixedAspectRatioRenderer<R> {
    viewport_rect: IntRect,
    aspect_ratio: AspectRatio,
    renderer: R,
}

impl<R: Renderer> View for FixedAspectRatioRenderer<R> {
    type V = FixedAspectRatioView<R>;

    closed spec fn view(&self) -> FixedAspectRatioView<R> {
        FixedAspectRatioView {
            viewport_rect: self.viewport_rect,
            aspect_ratio: self.aspect_ratio,
            renderer: self.renderer,
        }
    }
}

impl<R: Renderer> FixedAspectRatioRenderer<R> {
    /// A renderer that keeps `renderer` at `aspect_ratio` inside
    /// `viewport_rect`; the child is placed at once.
    pub fn new(viewport_rect: IntRect, aspect_ratio: AspectRatio, renderer: R) -> (node: Self)
        ensures
            node@ == (FixedAspectRatioView { viewport_rect, aspect_ratio, renderer }).laid_out(),
    {
        let mut node = Self { viewport_rect, aspect_ratio, renderer };
        node.reset_subrenderer_viewports();
        node
    }

    fn reset_subrenderer_viewports(&mut self)
        ensures
            final(self)@ == old(self)@.laid_out(),
    {
        let new_viewport_rect = fit_viewport(self.viewport_rect, self.aspect_ratio);
        self.renderer.set_viewport(new_viewport_rect);
    }

    pub fn get_subrenderer(&self) -> (renderer: &R)
        ensures
            *renderer == self@.renderer,
    {
        &self.renderer
    }

    /// The child, to be changed in place. The node does not place it anew
    /// afterwards.
    pub fn get_subrenderer_mut(&mut self) -> (renderer: &mut R)
        ensures
            *renderer == old(self)@.renderer,
            final(self)@ == (FixedAspectRatioView { renderer: *final(renderer), ..old(self)@ }),
    {
        &mut self.renderer
    }

    /// Changes the aspect ratio and places the child anew.
    pub fn set_aspect_ratio(&mut self, aspect_ratio: AspectRatio)
        ensures
            final(self)@ == (FixedAspectRatioView { aspect_ratio, ..old(self)@ }).laid_out(),
    {
        self.aspect_ratio = aspect_ratio;
        self.reset_subrenderer_viewports();
    }

    /// Placing the node places its child in the middle of the new viewport;
    /// the node draws what its child draws.
    pub proof fn lemma_view(self, rect: IntRect)
        ensures
            self.with_viewport(rect)@ == (FixedAspectRatioView {
                viewport_rect: rect,
                ..self@
            }).laid_out(),
            self.draws() == self@.renderer.draws(),
    {
    }
}

impl<R: Renderer> Renderer for FixedAspectRatioRenderer<R> {
    closed spec fn with_viewport(self, rect: IntRect) -> Self {
        FixedAspectRatioRenderer {
            viewport_rect: rect,
            aspect_ratio: self.aspect_ratio,
            renderer: self.renderer.with_viewport(fit_rect(rect, self.aspect_ratio)),
        }
    }

    closed spec fn draws(self) -> Seq<DrawCommand> {
        self.renderer.draws()
    }

    fn set_viewport(&mut self, viewport_rect: IntRect) {
        self.viewport_rect = viewport_rect;
        self.reset_subrenderer_viewports();
    }

    fn render(&self) -> (commands: Vec<DrawCommand>) {
        self.renderer.render()
    }

    proof fn lemma_last_viewport_counts(self, earlier: IntRect, last: IntRect) {
        self.renderer.lemma_last_viewport_counts(
            fit_rect(earlier, self.aspect_ratio),
            fit_rect(last, self.aspect_ratio),
        );
    }
}

} // verus!
