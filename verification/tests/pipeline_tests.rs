//! The fixed pipeline and descriptor-layout decisions.

use frame_lifecycle::pipeline::{descriptor_bindings, pipeline_settings, BindingKind};

#[test]
fn descriptor_layout_binds_uniform_and_both_lights() {
    let bindings = descriptor_bindings();
    assert_eq!(bindings, vec![
        (0, BindingKind::TransformUniform),
        (1, BindingKind::AmbientLightUniform),
        (2, BindingKind::DirectionalLightUniform),
    ]);
}

#[test]
fn pipeline_settings_fix_the_rasterization_choices() {
    let s = pipeline_settings(4, true);
    assert_eq!(s.sample_count, 4);
    assert!(s.depth_test);
    assert!(s.cull_back_faces);
    assert!(s.dynamic_viewport);
    assert_eq!(s.color_attachment_count, 1);
    assert!(s.instance_input);
    assert!(!pipeline_settings(1, false).instance_input);
}
