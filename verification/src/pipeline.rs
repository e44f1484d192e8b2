//! The render pipeline: which entry points of the shader it binds, and the
//! fixed policy by which it rasterizes.
//!
//! A pipeline is described here, not compiled: the description holds every
//! choice, and the graphics device is handed the description as it stands.
//! The shader exposes, for each variant, a vertex entry point named `vs_`
//! plus the variant's name, and a fragment entry point named `fs_` plus the
//! variant's name.

use vstd::prelude::*;
use vstd::string::StringExecFns;

use crate::surface::SurfaceConfig;

verus! {

/// How vertices are assembled into primitives.
#[derive(Clone, Copy, Debug, PartialEq, Eq, Structural)]
pub enum PrimitiveTopology {
    PointList,
    LineList,
    LineStrip,
    /// Every three vertices make one triangle.
    TriangleList,
    TriangleStrip,
}

/// The winding order of a triangle that faces the viewer.
#[derive(Clone, Copy, Debug, PartialEq, Eq, Structural)]
pub enum FrontFace {
    /// Counter-clockwise.
    Ccw,
    /// Clockwise.
    Cw,
}

/// Which triangles are left out.
#[derive(Clone, Copy, Debug, PartialEq, Eq, Structural)]
pub enum CullMode {
    /// None.
    Off,
    /// Those that face the viewer.
    Front,
    /// Those that face away.
    Back,
}

/// How the inside of a triangle is drawn.
#[derive(Clone, Copy, Debug, PartialEq, Eq, Structural)]
pub enum PolygonMode {
    Fill,
    Line,
    Point,
}

/// How a fragment's colour is combined with what the target holds.
#[derive(Clone, Copy, Debug, PartialEq, Eq, Structural)]
pub enum BlendMode {
    /// The fragment's colour takes the place of the old one.
    Replace,
    /// The fragment's colour is laid over the old one by its alpha.
    AlphaBlending,
    /// As `AlphaBlending`, for colours already multiplied by their alpha.
    PremultipliedAlphaBlending,
}

/// Everything about a pipeline that does not depend on the shader variant
/// or on the surface.
#[derive(Clone, Copy, Debug, PartialEq, Eq, Structural)]
pub struct RasterPolicy {
    /// The number of bind group layouts in the pipeline layout.
    pub bind_group_layouts: u32,
    /// The number of push constant ranges in the pipeline layout.
    pub push_constant_ranges: u32,
    /// The number of vertex buffers.
    pub vertex_buffers: u32,
    pub topology: PrimitiveTopology,
    pub front_face: FrontFace,
    pub cull_mode: CullMode,
    pub polygon_mode: PolygonMode,
    pub unclipped_depth: bool,
    pub conservative: bool,
    /// Whether there is a depth and stencil test.
    pub depth_stencil: bool,
    /// The number of samples per pixel.
    pub sample_count: u32,
    /// The samples that are active, one bit each.
    pub sample_mask: u64,
    pub alpha_to_coverage: bool,
    pub blend: BlendMode,
    /// The colour channels that are written, one bit each: red, green,
    /// blue, alpha, from the lowest bit up.
    pub write_mask: u32,
    /// Whether the render attachments have several layers.
    pub multiview: bool,
}

/// The policy of every pipeline of this renderer: no bound resources and no
/// vertex buffers, since the shader makes the triangle from the vertex
/// index; triangle lists with counter-clockwise front faces, back faces
/// culled, filled; no depth or stencil test; one sample per pixel; colours
/// replace what was there, on all four channels; no multiview.
pub open spec fn fixed_policy() -> RasterPolicy {
    RasterPolicy {
        bind_group_layouts: 0,
        push_constant_ranges: 0,
        vertex_buffers: 0,
        topology: PrimitiveTopology::TriangleList,
        front_face: FrontFace::Ccw,
        cull_mode: CullMode::Back,
        polygon_mode: PolygonMode::Fill,
        unclipped_depth: false,
        conservative: false,
        depth_stencil: false,
        sample_count: 1,
        sample_mask: u64::MAX,
        alpha_to_coverage: false,
        blend: BlendMode::Replace,
        write_mask: 0xf,
        multiview: false,
    }
}

impl RasterPolicy {
    /// The policy of every pipeline of this renderer.
    pub fn fixed() -> (policy: RasterPolicy)
        ensures
            policy == fixed_policy(),
    {
        RasterPolicy {
            bind_group_layouts: 0,
            push_constant_ranges: 0,
            vertex_buffers: 0,
            topology: PrimitiveTopology::TriangleList,
            front_face: FrontFace::Ccw,
            cull_mode: CullMode::Back,
            polygon_mode: PolygonMode::Fill,
            unclipped_depth: false,
            conservative: false,
            depth_stencil: false,
            sample_count: 1,
            sample_mask: u64::MAX,
            alpha_to_coverage: false,
            blend: BlendMode::Replace,
            write_mask: 0xf,
            multiview: false,
        }
    }
}

/// The name of the vertex entry point of a shader variant.
pub open spec fn vertex_entry_point(variant: Seq<char>) -> Seq<char> {
    "vs_"@ + variant
}

/// The name of the fragment entry point of a shader variant.
pub open spec fn fragment_entry_point(variant: Seq<char>) -> Seq<char> {
    "fs_"@ + variant
}

/// The description of a render pipeline.
#[derive(Debug, PartialEq, Eq)]
pub struct PipelineDescriptor {
    /// The name of the vertex entry point in the shader.
    pub vertex_entry: String,
    /// The name of the fragment entry point in the shader.
    pub fragment_entry: String,
    /// The pixel format of the one colour target.
    pub target_format: wgpu::TextureFormat,
    pub policy: RasterPolicy,
}

/// A pipeline description as a mathematical value.
pub struct PipelineView {
    pub vertex_entry: Seq<char>,
    pub fragment_entry: Seq<char>,
    pub target_format: wgpu::TextureFormat,
    pub policy: RasterPolicy,
}

impl View for PipelineDescriptor {
    type V = PipelineView;

    open spec fn view(&self) -> PipelineView {
        PipelineView {
            vertex_entry: self.vertex_entry@,
            fragment_entry: self.fragment_entry@,
            target_format: self.target_format,
            policy: self.policy,
        }
    }
}

/// The pipeline that draws shader variant `variant` onto a target of
/// format `format`.
pub open spec fn pipeline_for(format: wgpu::TextureFormat, variant: Seq<char>) -> PipelineView {
    PipelineView {
        vertex_entry: vertex_entry_point(variant),
        fragment_entry: fragment_entry_point(variant),
        target_format: format,
        policy: fixed_policy(),
    }
}

impl Clone for PipelineDescriptor {
    fn clone(&self) -> (copy: Self)
        ensures
            copy@ == self@,
    {
        PipelineDescriptor {
            vertex_entry: self.vertex_entry.clone(),
            fragment_entry: self.fragment_entry.clone(),
            target_format: self.target_format,
            policy: self.policy,
        }
    }
}

/// Describes the pipeline that draws the shader variant named
/// `shader_color` onto a surface configured by `config`.
pub fn render_pipe(config: &SurfaceConfig, shader_color: String) -> (pipeline: PipelineDescriptor)
    ensures
        pipeline@ == pipeline_for(config.format, shader_color@),
{
    let vertex_entry = String::from_str("vs_").concat(shader_color.as_str());
    let fragment_entry = String::from_str("fs_").concat(shader_color.as_str());
    PipelineDescriptor {
        vertex_entry,
        fragment_entry,
        target_format: config.format,
        policy: RasterPolicy::fixed(),
    }
}

} // verus!
