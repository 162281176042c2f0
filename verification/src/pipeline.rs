//! The fixed render pass and graphics pipeline configuration, and the
//! per-image framebuffer plan. Floating-point fields of the driver
//! structures (viewport depths, line width, blend constants) carry the
//! driver defaults and stay with the shell.

use vstd::prelude::*;
use crate::model::Extent2D;

verus! {

/// Pipeline stage bit of the color-attachment-output stage.
pub const STAGE_COLOR_ATTACHMENT_OUTPUT_BIT: u32 = 0x400;

/// Access bit of color-attachment writes.
pub const ACCESS_COLOR_ATTACHMENT_WRITE_BIT: u32 = 0x100;

/// What an attachment's contents become at render pass begin.
#[derive(Clone, Copy, Debug, PartialEq, Eq, Structural)]
pub enum LoadOp {
    Load,
    Clear,
    DontCare,
}

/// What happens to an attachment's contents at render pass end.
#[derive(Clone, Copy, Debug, PartialEq, Eq, Structural)]
pub enum StoreOp {
    Store,
    DontCare,
}

/// The image layouts the single color attachment moves between.
#[derive(Clone, Copy, Debug, PartialEq, Eq, Structural)]
pub enum ImageLayout {
    Undefined,
    ColorAttachmentOptimal,
    PresentSrc,
}

/// The single color attachment of the render pass.
#[derive(Clone, Copy, Debug, PartialEq, Eq, Structural)]
pub struct AttachmentConfig {
    /// The chosen swapchain pixel format.
    pub format: u32,
    pub sample_count: u32,
    pub load_op: LoadOp,
    pub store_op: StoreOp,
    pub stencil_load_op: LoadOp,
    pub stencil_store_op: StoreOp,
    pub initial_layout: ImageLayout,
    pub final_layout: ImageLayout,
}

/// The dependency from the implicit external pseudo-subpass into
/// subpass 0, gating on the color-attachment-output stage so the pass
/// does not write the image before the prior presentation has finished.
#[derive(Clone, Copy, Debug, PartialEq, Eq, Structural)]
pub struct SubpassDependencyConfig {
    /// The source is the implicit external pseudo-subpass.
    pub src_external: bool,
    pub dst_subpass: u32,
    pub src_stage_mask: u32,
    pub src_access_mask: u32,
    pub dst_stage_mask: u32,
    pub dst_access_mask: u32,
}

/// The whole render pass: one attachment, one subpass with that
/// attachment as its sole color output, one external dependency.
#[derive(Clone, Copy, Debug, PartialEq, Eq, Structural)]
pub struct RenderPassConfig {
    pub attachment: AttachmentConfig,
    /// Index of the attachment the single subpass binds as color output.
    pub color_attachment_index: u32,
    /// The attachment's layout during the subpass.
    pub color_attachment_layout: ImageLayout,
    pub dependency: SubpassDependencyConfig,
}

/// Builds the fixed render pass configuration over the chosen swapchain
/// format: cleared on load, stored on store, stencil ignored, entering
/// undefined and leaving presentation-ready.
pub fn render_pass_config(format: u32) -> (r: RenderPassConfig)
    ensures
        r == (RenderPassConfig {
            attachment: AttachmentConfig {
                format,
                sample_count: 1,
                load_op: LoadOp::Clear,
                store_op: StoreOp::Store,
                stencil_load_op: LoadOp::DontCare,
                stencil_store_op: StoreOp::DontCare,
                initial_layout: ImageLayout::Undefined,
                final_layout: ImageLayout::PresentSrc,
            },
            color_attachment_index: 0,
            color_attachment_layout: ImageLayout::ColorAttachmentOptimal,
            dependency: SubpassDependencyConfig {
                src_external: true,
                dst_subpass: 0,
                src_stage_mask: STAGE_COLOR_ATTACHMENT_OUTPUT_BIT,
                src_access_mask: 0,
                dst_stage_mask: STAGE_COLOR_ATTACHMENT_OUTPUT_BIT,
                dst_access_mask: ACCESS_COLOR_ATTACHMENT_WRITE_BIT,
            },
        }),
{
    RenderPassConfig {
        attachment: AttachmentConfig {
            format,
            sample_count: 1,
            load_op: LoadOp::Clear,
            store_op: StoreOp::Store,
            stencil_load_op: LoadOp::DontCare,
            stencil_store_op: StoreOp::DontCare,
            initial_layout: ImageLayout::Undefined,
            final_layout: ImageLayout::PresentSrc,
        },
        color_attachment_index: 0,
        color_attachment_layout: ImageLayout::ColorAttachmentOptimal,
        dependency: SubpassDependencyConfig {
            src_external: true,
            dst_subpass: 0,
            src_stage_mask: STAGE_COLOR_ATTACHMENT_OUTPUT_BIT,
            src_access_mask: 0,
            dst_stage_mask: STAGE_COLOR_ATTACHMENT_OUTPUT_BIT,
            dst_access_mask: ACCESS_COLOR_ATTACHMENT_WRITE_BIT,
        },
    }
}

/// A blend factor of the single color attachment.
#[derive(Clone, Copy, Debug, PartialEq, Eq, Structural)]
pub enum BlendFactor {
    Zero,
    One,
    SrcAlpha,
    OneMinusSrcAlpha,
}

/// Blending on the single color attachment. Blending is enabled with
/// the effective factor set source-one / destination-inverse-alpha
/// (additive with destination fade); the straight-alpha source factor
/// is deliberately overwritten, and the existing behavior is kept.
#[derive(Clone, Copy, Debug, PartialEq, Eq, Structural)]
pub struct ColorBlendConfig {
    pub blend_enable: bool,
    pub src_color_factor: BlendFactor,
    pub dst_color_factor: BlendFactor,
    pub src_alpha_factor: BlendFactor,
    pub dst_alpha_factor: BlendFactor,
    /// Both blend operations are addition.
    pub ops_are_add: bool,
    /// All four channels are written.
    pub write_mask_rgba: bool,
}

/// A pipeline state supplied per recorded command buffer instead of
/// being baked into the pipeline object.
#[derive(Clone, Copy, Debug, PartialEq, Eq, Structural)]
pub enum DynamicStateKind {
    Viewport,
    Scissor,
}

/// The fixed-function graphics pipeline configuration.
#[derive(Clone, Debug)]
pub struct PipelineConfig {
    /// Vertex and fragment stages.
    pub stage_count: u32,
    /// No bound vertex buffers: geometry comes from the vertex shader's
    /// invocation index.
    pub vertex_binding_count: u32,
    pub vertex_attribute_count: u32,
    pub topology_triangle_list: bool,
    pub primitive_restart: bool,
    pub viewport_count: u32,
    pub scissor_count: u32,
    pub polygon_mode_fill: bool,
    pub cull_back_faces: bool,
    pub front_face_clockwise: bool,
    pub depth_bias: bool,
    pub rasterization_samples: u32,
    pub sample_shading: bool,
    pub logic_op_enable: bool,
    pub blend: ColorBlendConfig,
    pub dynamic_states: Vec<DynamicStateKind>,
    /// Zero descriptor sets: no externally supplied uniform state.
    pub descriptor_set_count: u32,
    /// Zero push-constant ranges.
    pub push_constant_range_count: u32,
    /// The subpass the pipeline is used in.
    pub subpass: u32,
}

/// Builds the fixed pipeline configuration: two stages, empty vertex
/// input, triangle list, fill mode with clockwise front face and
/// back-face culling, one sample, dynamic viewport and scissor, and an
/// empty pipeline layout.
pub fn pipeline_config() -> (r: PipelineConfig)
    ensures
        r.stage_count == 2,
        r.vertex_binding_count == 0,
        r.vertex_attribute_count == 0,
        r.topology_triangle_list,
        !r.primitive_restart,
        r.viewport_count == 1,
        r.scissor_count == 1,
        r.polygon_mode_fill,
        r.cull_back_faces,
        r.front_face_clockwise,
        !r.depth_bias,
        r.rasterization_samples == 1,
        !r.sample_shading,
        !r.logic_op_enable,
        r.blend == (ColorBlendConfig {
            blend_enable: true,
            src_color_factor: BlendFactor::One,
            dst_color_factor: BlendFactor::OneMinusSrcAlpha,
            src_alpha_factor: BlendFactor::Zero,
            dst_alpha_factor: BlendFactor::Zero,
            ops_are_add: true,
            write_mask_rgba: true,
        }),
        r.dynamic_states@ =~= seq![DynamicStateKind::Viewport, DynamicStateKind::Scissor],
        r.descriptor_set_count == 0,
        r.push_constant_range_count == 0,
        r.subpass == 0,
{
    let mut dynamic_states: Vec<DynamicStateKind> = Vec::new();
    dynamic_states.push(DynamicStateKind::Viewport);
    dynamic_states.push(DynamicStateKind::Scissor);
    PipelineConfig {
        stage_count: 2,
        vertex_binding_count: 0,
        vertex_attribute_count: 0,
        topology_triangle_list: true,
        primitive_restart: false,
        viewport_count: 1,
        scissor_count: 1,
        polygon_mode_fill: true,
        cull_back_faces: true,
        front_face_clockwise: true,
        depth_bias: false,
        rasterization_samples: 1,
        sample_shading: false,
        logic_op_enable: false,
        blend: ColorBlendConfig {
            blend_enable: true,
            src_color_factor: BlendFactor::One,
            dst_color_factor: BlendFactor::OneMinusSrcAlpha,
            src_alpha_factor: BlendFactor::Zero,
            dst_alpha_factor: BlendFactor::Zero,
            ops_are_add: true,
            write_mask_rgba: true,
        },
        dynamic_states,
        descriptor_set_count: 0,
        push_constant_range_count: 0,
        subpass: 0,
    }
}

/// One framebuffer built over one swapchain image view.
#[derive(Clone, Copy, Debug, PartialEq, Eq, Structural)]
pub struct FramebufferConfig {
    /// Index of the image view the framebuffer binds as its single
    /// attachment; framebuffers and views correspond one-to-one.
    pub view_index: u32,
    pub width: u32,
    pub height: u32,
    pub layers: u32,
}

/// One single-attachment, single-layer framebuffer per swapchain image
/// view, each matching the chosen extent, in view order.
pub fn framebuffer_configs(view_count: u32, extent: Extent2D) -> (r: Vec<FramebufferConfig>)
    ensures
        r@.len() == view_count,
        forall|i: int|
            0 <= i < view_count ==> r@[i] == (FramebufferConfig {
                view_index: i as u32,
                width: extent.width,
                height: extent.height,
                layers: 1,
            }),
{
    let mut configs: Vec<FramebufferConfig> = Vec::new();
    let mut i: u32 = 0;
    while i < view_count
        invariant
            i <= view_count,
            configs@.len() == i,
            forall|j: int|
                0 <= j < i ==> configs@[j] == (FramebufferConfig {
                    view_index: j as u32,
                    width: extent.width,
                    height: extent.height,
                    layers: 1,
                }),
        decreases view_count - i,
    {
        configs.push(
            FramebufferConfig { view_index: i, width: extent.width, height: extent.height, layers: 1 },
        );
        i = i + 1;
    }
    configs
}

} // verus!
