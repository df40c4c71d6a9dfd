//! Pipeline descriptions and their construction.
//!
//! Building a pipeline is deterministic, pure construction: fixed policy
//! (triangle list, counter-clockwise front face, single sample, replace
//! blending, less-than depth test with writes when a depth format is
//! given), plus the per-pipeline shader pass, vertex layouts, bind-group
//! slot list and cull toggle.  The slot list fixed here is the same one
//! draw-time binding is checked against: each pass kind has one canonical
//! slot convention, `pass_slots`.

use vstd::prelude::*;

use crate::bindings::LayoutKind;
use crate::surface::TextureFormatKind;

verus! {

/// Which recorded pass a pipeline draws in.  Light/debug work is recorded
/// before the main geometry each frame.
#[derive(Clone, Copy, PartialEq, Eq, Structural, Debug)]
pub enum PassKind {
    /// The light-visualization / debug pass.
    LightDebug,
    /// The instanced main geometry pass.
    Main,
    /// The textured-triangle pass driven by the per-object transform.
    Triangle,
}

/// The canonical bind-group slot convention of each pass: the position in
/// this list is the slot index used both at pipeline construction and at
/// draw time.
pub open spec fn pass_slots(pass: PassKind) -> Seq<LayoutKind> {
    match pass {
        PassKind::LightDebug => seq![LayoutKind::Camera, LayoutKind::Light],
        PassKind::Main => seq![LayoutKind::TextureMaterial, LayoutKind::Camera, LayoutKind::Light],
        PassKind::Triangle => seq![
            LayoutKind::TextureMaterial,
            LayoutKind::Camera,
            LayoutKind::Transform,
        ],
    }
}

/// Vertex attribute scalar formats.
#[derive(Clone, Copy, PartialEq, Eq, Structural, Debug)]
pub enum VertexFormat {
    Float32x2,
    Float32x3,
    Float32x4,
}

/// Whether a vertex buffer advances per vertex or per instance.
#[derive(Clone, Copy, PartialEq, Eq, Structural, Debug)]
pub enum VertexStepMode {
    Vertex,
    Instance,
}

/// One vertex attribute: where it sits in the stride, which shader
/// location reads it, and its format.
#[derive(Clone, Copy, PartialEq, Eq, Structural, Debug)]
pub struct VertexAttribute {
    pub offset: u64,
    pub shader_location: u32,
    pub format: VertexFormat,
}

/// The layout of one vertex buffer stream.
pub struct VertexLayoutDesc {
    pub array_stride: u64,
    pub step_mode: VertexStepMode,
    pub attributes: Vec<VertexAttribute>,
}

/// The depth-stencil policy of a pipeline that has a depth attachment.
#[derive(Clone, Copy, PartialEq, Eq, Structural, Debug)]
pub struct DepthStateDesc {
    pub format: TextureFormatKind,
    pub depth_write_enabled: bool,
    /// A fragment passes when its depth is less than the stored depth.
    pub compare_less: bool,
}

/// An immutable pipeline description: everything the device needs to build
/// the pipeline, and everything draw-time binding must agree with.
pub struct PipelineDesc {
    pub pass: PassKind,
    pub layout_slots: Vec<LayoutKind>,
    pub vertex_layouts: Vec<VertexLayoutDesc>,
    pub color_format: TextureFormatKind,
    pub depth: Option<DepthStateDesc>,
    pub cull_back: bool,
    pub sample_count: u32,
    /// Alpha-replace blending, the one blend state used.
    pub blend_replace: bool,
}

/// A pipeline whose slot list is its pass's canonical convention, with the
/// fixed rasterizer policy.
pub open spec fn pipeline_wf(p: PipelineDesc) -> bool {
    &&& p.layout_slots@ == pass_slots(p.pass)
    &&& p.sample_count == 1
    &&& p.blend_replace
    &&& p.depth matches Some(d) ==> d.depth_write_enabled && d.compare_less
}

/// Pure pipeline construction under the fixed policy.  The slot list is
/// taken from the pass's canonical convention, so construction and
/// draw-time binding cannot drift apart.
pub fn create_render_pipeline(
    pass: PassKind,
    vertex_layouts: Vec<VertexLayoutDesc>,
    color_format: TextureFormatKind,
    depth_format: Option<TextureFormatKind>,
    cull_back: bool,
) -> (p: PipelineDesc)
    ensures
        p.pass == pass,
        p.layout_slots@ == pass_slots(pass),
        p.vertex_layouts == vertex_layouts,
        p.color_format == color_format,
        depth_format matches Some(f) ==> p.depth == Some(DepthStateDesc {
            format: f,
            depth_write_enabled: true,
            compare_less: true,
        }),
        depth_format is None ==> p.depth is None,
        p.cull_back == cull_back,
        pipeline_wf(p),
{
    let mut layout_slots: Vec<LayoutKind> = Vec::new();
    match pass {
        PassKind::LightDebug => {
            layout_slots.push(LayoutKind::Camera);
            layout_slots.push(LayoutKind::Light);
        },
        PassKind::Main => {
            layout_slots.push(LayoutKind::TextureMaterial);
            layout_slots.push(LayoutKind::Camera);
            layout_slots.push(LayoutKind::Light);
        },
        PassKind::Triangle => {
            layout_slots.push(LayoutKind::TextureMaterial);
            layout_slots.push(LayoutKind::Camera);
            layout_slots.push(LayoutKind::Transform);
        },
    }
    proof {
        assert(layout_slots@ =~= pass_slots(pass));
    }
    let depth = match depth_format {
        Some(f) => Some(DepthStateDesc { format: f, depth_write_enabled: true, compare_less: true }),
        None => None,
    };
    PipelineDesc {
        pass,
        layout_slots,
        vertex_layouts,
        color_format,
        depth,
        cull_back,
        sample_count: 1,
        blend_replace: true,
    }
}

/// The pipelines the frame renderer draws with, and the layout registry
/// they share.
pub struct PipelineState {
    pub bind_group_layouts: crate::bindings::BindGroupLayouts,
    /// The instanced main geometry pipeline.
    pub render_pipeline: PipelineDesc,
    /// The unculled light-visualization pipeline.
    pub light_render_pipeline: PipelineDesc,
}

impl PipelineState {
    /// Both pipelines, fully pinned down: the canonical slot conventions,
    /// the shared depth format, back-face culling only for the main
    /// geometry, the model vertex stream for both and the instance stream
    /// only for the main pipeline.
    pub open spec fn wf(self) -> bool {
        &&& self.bind_group_layouts.wf()
        &&& pipeline_wf(self.render_pipeline)
        &&& self.render_pipeline.pass == PassKind::Main
        &&& self.render_pipeline.cull_back
        &&& self.render_pipeline.depth == Some(DepthStateDesc {
            format: crate::texture::DEPTH_FORMAT,
            depth_write_enabled: true,
            compare_less: true,
        })
        &&& self.render_pipeline.vertex_layouts@.len() == 2
        &&& self.render_pipeline.vertex_layouts@[0].step_mode == VertexStepMode::Vertex
        &&& self.render_pipeline.vertex_layouts@[0].array_stride == 32
        &&& self.render_pipeline.vertex_layouts@[0].attributes@
            == crate::model::model_vertex_attributes()
        &&& self.render_pipeline.vertex_layouts@[1].step_mode == VertexStepMode::Instance
        &&& self.render_pipeline.vertex_layouts@[1].array_stride == 100
        &&& self.render_pipeline.vertex_layouts@[1].attributes@
            == crate::instance::instance_raw_attributes()
        &&& pipeline_wf(self.light_render_pipeline)
        &&& self.light_render_pipeline.pass == PassKind::LightDebug
        &&& !self.light_render_pipeline.cull_back
        &&& self.light_render_pipeline.depth == Some(DepthStateDesc {
            format: crate::texture::DEPTH_FORMAT,
            depth_write_enabled: true,
            compare_less: true,
        })
        &&& self.light_render_pipeline.vertex_layouts@.len() == 1
        &&& self.light_render_pipeline.vertex_layouts@[0].step_mode == VertexStepMode::Vertex
        &&& self.light_render_pipeline.vertex_layouts@[0].array_stride == 32
        &&& self.light_render_pipeline.vertex_layouts@[0].attributes@
            == crate::model::model_vertex_attributes()
        &&& self.render_pipeline.color_format == self.light_render_pipeline.color_format
    }

    /// Builds the registry and both pipelines for the surface's color
    /// format.
    pub fn new(color_format: TextureFormatKind) -> (s: PipelineState)
        ensures
            s.wf(),
            s.render_pipeline.color_format == color_format,
    {
        let bind_group_layouts = crate::bindings::BindGroupLayouts::new();

        let mut main_streams: Vec<VertexLayoutDesc> = Vec::new();
        main_streams.push(<crate::model::ModelVertex as crate::model::Vertex>::desc());
        main_streams.push(crate::instance::instance_raw_desc());
        let render_pipeline = create_render_pipeline(
            PassKind::Main,
            main_streams,
            color_format,
            Some(crate::texture::DEPTH_FORMAT),
            true,
        );

        let mut light_streams: Vec<VertexLayoutDesc> = Vec::new();
        light_streams.push(<crate::model::ModelVertex as crate::model::Vertex>::desc());
        let light_render_pipeline = create_render_pipeline(
            PassKind::LightDebug,
            light_streams,
            color_format,
            Some(crate::texture::DEPTH_FORMAT),
            false,
        );

        PipelineState { bind_group_layouts, render_pipeline, light_render_pipeline }
    }
}

} // verus!
