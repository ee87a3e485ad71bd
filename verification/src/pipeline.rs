//! The fixed decisions baked into the graphics pipeline and its descriptor
//! set layout at device-initialization time. The shader compilation and the
//! pipeline object itself belong to the graphics API; what is decided here
//! is which settings and bindings the builder must request.

use vstd::prelude::*;

verus! {

/// What each descriptor binding exposes to the shaders.
#[derive(Clone, Copy, PartialEq, Eq, Structural, Debug)]
pub enum BindingKind {
    /// The view-projection transform block.
    TransformUniform,
    /// The ambient light block.
    AmbientLightUniform,
    /// The directional light block.
    DirectionalLightUniform,
}

/// The descriptor set layout: the transform block at binding zero, the
/// ambient light at one, the directional light at two — each binding index
/// used exactly once.
pub fn descriptor_bindings() -> (r: Vec<(u32, BindingKind)>)
    ensures
        r@.len() == 3,
        r@[0] == (0u32, BindingKind::TransformUniform),
        r@[1] == (1u32, BindingKind::AmbientLightUniform),
        r@[2] == (2u32, BindingKind::DirectionalLightUniform),
        forall|i: int, j: int| 0 <= i < j < r@.len() ==> r@[i].0 != r@[j].0,
{
    let mut out: Vec<(u32, BindingKind)> = Vec::new();
    out.push((0, BindingKind::TransformUniform));
    out.push((1, BindingKind::AmbientLightUniform));
    out.push((2, BindingKind::DirectionalLightUniform));
    out
}

/// The fixed-function choices of the one graphics pipeline.
#[derive(Clone, Copy, PartialEq, Eq, Structural, Debug)]
pub struct PipelineSettings {
    /// Samples per pixel of rasterization; must match the renderer's
    /// multisample targets.
    pub sample_count: u32,
    /// Depth testing is enabled: a depth attachment exists.
    pub depth_test: bool,
    /// Back faces are culled.
    pub cull_back_faces: bool,
    /// The viewport is a dynamic state, so a resize only updates the
    /// viewport instead of rebuilding the pipeline.
    pub dynamic_viewport: bool,
    /// One color attachment, resolved from the multisample target.
    pub color_attachment_count: u32,
    /// A secondary per-instance vertex input stream is consumed.
    pub instance_input: bool,
}

/// Assemble the pipeline settings for the configured sample count. Built
/// once at device-initialization time and immutable thereafter.
pub fn pipeline_settings(sample_count: u32, instance_input: bool) -> (r: PipelineSettings)
    requires
        1 <= sample_count,
    ensures
        r.sample_count == sample_count,
        r.depth_test,
        r.cull_back_faces,
        r.dynamic_viewport,
        r.color_attachment_count == 1,
        r.instance_input == instance_input,
{
    PipelineSettings {
        sample_count,
        depth_test: true,
        cull_back_faces: true,
        dynamic_viewport: true,
        color_attachment_count: 1,
        instance_input,
    }
}

} // verus!
