//! One frame: the single render pass that draws the triangle.

use vstd::prelude::*;

use crate::color::Color;
use crate::pipeline::{PipelineDescriptor, PipelineView};

verus! {

/// A half-open range of indices, from `start` up to but without `end`.
#[derive(Clone, Copy, Debug, PartialEq, Eq, Structural)]
pub struct Span {
    pub start: u32,
    pub end: u32,
}

/// The render pass of a frame. It has one colour attachment, the frame
/// itself, and makes one draw call.
#[derive(Debug, PartialEq, Eq)]
pub struct RenderPass {
    /// The colour that the attachment is cleared with when it is loaded.
    pub clear_color: Color,
    /// Whether what is drawn is kept for presentation.
    pub store: bool,
    /// Whether there is a depth and stencil attachment.
    pub depth_stencil: bool,
    /// The pipeline that is bound for the draw call.
    pub pipeline: PipelineDescriptor,
    /// The vertex indices that the draw call covers.
    pub vertices: Span,
    /// The instances that the draw call covers.
    pub instances: Span,
}

/// A render pass as a mathematical value.
pub struct RenderPassView {
    pub clear_color: Color,
    pub store: bool,
    pub depth_stencil: bool,
    pub pipeline: PipelineView,
    pub vertices: Span,
    pub instances: Span,
}

impl View for RenderPass {
    type V = RenderPassView;

    open spec fn view(&self) -> RenderPassView {
        RenderPassView {
            clear_color: self.clear_color,
            store: self.store,
            depth_stencil: self.depth_stencil,
            pipeline: self.pipeline@,
            vertices: self.vertices,
            instances: self.instances,
        }
    }
}

/// The pass that clears to `clear_color` and draws one triangle with
/// `pipeline`: it keeps what it draws, has no depth or stencil attachment,
/// and draws the vertices 0, 1 and 2 of one instance.
pub open spec fn triangle_pass(clear_color: Color, pipeline: PipelineView) -> RenderPassView {
    RenderPassView {
        clear_color,
        store: true,
        depth_stencil: false,
        pipeline,
        vertices: Span { start: 0, end: 3 },
        instances: Span { start: 0, end: 1 },
    }
}

impl RenderPass {
    /// Makes the pass that clears to `clear_color` and draws one triangle
    /// with `pipeline`.
    pub fn triangle(clear_color: Color, pipeline: PipelineDescriptor) -> (pass: RenderPass)
        ensures
            pass@ == triangle_pass(clear_color, pipeline@),
    {
        RenderPass {
            clear_color,
            store: true,
            depth_stencil: false,
            pipeline,
            vertices: Span { start: 0, end: 3 },
            instances: Span { start: 0, end: 1 },
        }
    }
}

} // verus!
