use wallrus::shader_presets::{
    blur_fragment_source, bloom_fragment_source, chromatic_fragment_source, controls_for,
    fragment_source_for, preset_names, vertex_shader_source,
};

#[test]
fn preset_names_in_display_order() {
    let names = preset_names();
    assert_eq!(names, vec!["Bars", "Circle", "Plasma", "Waves", "Terrain"]);
}

#[test]
fn vertex_source_is_shared_passthrough() {
    let src = vertex_shader_source();
    assert!(src.contains("gl_Position"));
    assert!(src.contains("aPos"));
}

#[test]
fn every_registered_preset_has_a_fragment_source() {
    for name in preset_names() {
        let src = fragment_source_for(name);
        assert!(src.is_some(), "no source for {}", name);
        assert!(src.unwrap().contains("fragColor"));
    }
}

#[test]
fn unknown_preset_has_no_source() {
    assert!(fragment_source_for("Nebula").is_none());
    assert!(fragment_source_for("").is_none());
    assert!(fragment_source_for("bars").is_none());
}

#[test]
fn post_process_sources_name_their_uniforms() {
    assert!(blur_fragment_source().contains("uBlurType"));
    assert!(bloom_fragment_source().contains("uBloomThreshold"));
    assert!(chromatic_fragment_source().contains("uChromaticStrength"));
    assert!(blur_fragment_source().contains("uSceneTexture"));
}

#[test]
fn controls_for_bars() {
    let c = controls_for("Bars");
    assert!(c.has_angle);
    assert!(!c.has_scale);
    assert!(!c.has_speed);
    assert!(!c.has_center);
    assert_eq!(c.speed_label, "Speed");
    assert_eq!(c.speed_range.max_milli, 3_000);
    assert_eq!(c.speed_range.default_milli, 1_000);
    assert_eq!(c.scale_range.max_milli, 5_000);
}

#[test]
fn controls_for_terrain() {
    let c = controls_for("Terrain");
    assert!(!c.has_angle);
    assert!(c.has_scale);
    assert!(c.has_speed);
    assert!(!c.has_center);
    assert_eq!(c.speed_label, "Time");
    assert_eq!(c.scale_range.min_milli, 100);
    assert_eq!(c.scale_range.max_milli, 2_000);
    assert_eq!(c.scale_range.step_milli, 10);
    assert_eq!(c.scale_range.default_milli, 500);
}

#[test]
fn controls_for_circle() {
    let c = controls_for("Circle");
    assert!(!c.has_angle);
    assert!(c.has_scale);
    assert!(!c.has_speed);
    assert!(c.has_center);
    assert_eq!(c.scale_range.min_milli, 500);
    assert_eq!(c.scale_range.max_milli, 3_000);
}

#[test]
fn controls_for_unknown_name_fall_back() {
    let c = controls_for("Nebula");
    assert!(c.has_angle);
    assert!(!c.has_scale);
    assert!(!c.has_speed);
    assert!(!c.has_center);
    assert_eq!(c.speed_label, "Speed");
}
