use wallrus::renderer::{BindTarget, PostEffect, RenderCmd, RendererState};
use wallrus::shader::{ShaderError, ShaderProgram, ShaderStage};

fn fresh_state() -> RendererState {
    RendererState::new(
        10,
        11,
        20,
        21,
        30,
        31,
        Some(ShaderProgram { id: 100 }),
        Some(ShaderProgram { id: 101 }),
        Some(ShaderProgram { id: 102 }),
    )
}

#[test]
fn new_state_defaults() {
    let s = fresh_state();
    assert!(s.program.is_none());
    assert_eq!(s.current_preset, "Bars");
    assert_eq!(s.pp_fbo_size, (1, 1));
    assert_eq!(s.params.blur_type, 0);
    assert!(!s.params.bloom_enabled);
    assert!(!s.params.chromatic_enabled);
    assert_eq!(s.params.angle_millideg, 45_000);
    assert_eq!(s.params.scale_milli, 1_000);
}

#[test]
fn fast_path_is_one_draw() {
    // All three post-process toggles off: exactly one pattern draw, no
    // bind, no reallocation.
    let mut s = fresh_state();
    let plan = s.render(640, 480, 16);
    assert_eq!(plan.len(), 1);
    match &plan[0] {
        RenderCmd::DrawPattern { uniforms } => {
            assert_eq!(uniforms.width, 640);
            assert_eq!(uniforms.height, 480);
            assert_eq!(uniforms.time_millis, 16);
        }
        other => panic!("expected a pattern draw, got {:?}", other),
    }
    // The ping-pong pair was not touched.
    assert_eq!(s.pp_fbo_size, (1, 1));
}

#[test]
fn active_passes_keep_fixed_order() {
    // Bloom and chromatic active: bloom still runs before chromatic.
    let mut s = fresh_state();
    s.params.bloom_enabled = true;
    s.params.chromatic_enabled = true;
    let passes = s.active_passes();
    assert_eq!(passes, vec![PostEffect::Bloom, PostEffect::Chromatic]);

    s.params.blur_type = 1;
    let passes = s.active_passes();
    assert_eq!(
        passes,
        vec![PostEffect::Blur, PostEffect::Bloom, PostEffect::Chromatic]
    );
}

#[test]
fn slow_path_ping_pongs_and_ends_at_entry() {
    let mut s = fresh_state();
    s.params.bloom_enabled = true;
    s.params.chromatic_enabled = true;
    let plan = s.render(64, 64, 0);
    // Resize (from 1x1), bind slot A, pattern draw, then two passes of
    // (bind, draw) each.
    assert_eq!(plan.len(), 7);
    assert!(matches!(
        plan[0],
        RenderCmd::ResizeTargets { width: 64, height: 64 }
    ));
    assert!(matches!(
        plan[1],
        RenderCmd::Bind { target: BindTarget::PingPong { fbo: 20 } }
    ));
    assert!(matches!(plan[2], RenderCmd::DrawPattern { .. }));
    // First pass: bloom reads texture A, writes slot B.
    assert!(matches!(
        plan[3],
        RenderCmd::Bind { target: BindTarget::PingPong { fbo: 21 } }
    ));
    match &plan[4] {
        RenderCmd::DrawEffect { effect, program, source, .. } => {
            assert!(matches!(effect, PostEffect::Bloom));
            assert_eq!(*program, 101);
            assert_eq!(*source, 30);
        }
        other => panic!("expected a bloom draw, got {:?}", other),
    }
    // Last pass: chromatic reads texture B, writes the entry framebuffer.
    assert!(matches!(plan[5], RenderCmd::Bind { target: BindTarget::Entry }));
    match &plan[6] {
        RenderCmd::DrawEffect { effect, program, source, .. } => {
            assert!(matches!(effect, PostEffect::Chromatic));
            assert_eq!(*program, 102);
            assert_eq!(*source, 31);
        }
        other => panic!("expected a chromatic draw, got {:?}", other),
    }
    assert_eq!(s.pp_fbo_size, (64, 64));
}

#[test]
fn second_render_at_same_size_reallocates_nothing() {
    let mut s = fresh_state();
    s.params.blur_type = 2;
    let first = s.render(320, 200, 0);
    assert!(first
        .iter()
        .any(|c| matches!(c, RenderCmd::ResizeTargets { .. })));
    let second = s.render(320, 200, 16);
    assert!(!second
        .iter()
        .any(|c| matches!(c, RenderCmd::ResizeTargets { .. })));
    // A different size reallocates again.
    let third = s.render(640, 400, 32);
    assert!(third
        .iter()
        .any(|c| matches!(c, RenderCmd::ResizeTargets { .. })));
}

#[test]
fn failed_bloom_build_disables_only_bloom() {
    // The bloom shader failed to compile at construction: enabling bloom
    // neither raises an error nor keeps blur and chromatic from running.
    let mut s = RendererState::new(
        10,
        11,
        20,
        21,
        30,
        31,
        Some(ShaderProgram { id: 100 }),
        None,
        Some(ShaderProgram { id: 102 }),
    );
    s.params.bloom_enabled = true;
    s.params.blur_type = 1;
    s.params.chromatic_enabled = true;
    let passes = s.active_passes();
    assert_eq!(passes, vec![PostEffect::Blur, PostEffect::Chromatic]);
    let plan = s.render(32, 32, 0);
    assert!(!plan.iter().any(|c| matches!(
        c,
        RenderCmd::DrawEffect { effect: PostEffect::Bloom, .. }
    )));
    assert!(plan.iter().any(|c| matches!(
        c,
        RenderCmd::DrawEffect { effect: PostEffect::Blur, .. }
    )));
    assert!(plan.iter().any(|c| matches!(
        c,
        RenderCmd::DrawEffect { effect: PostEffect::Chromatic, .. }
    )));
}

#[test]
fn load_preset_looks_up_the_registry() {
    let s = fresh_state();
    let build = s.load_preset("Plasma").expect("registered preset");
    assert_eq!(build.name, "Plasma");
    assert!(build.vertex.contains("gl_Position"));
    assert!(build.fragment.contains("fragColor"));
    let err = s.load_preset("Nebula").unwrap_err();
    assert_eq!(err.name, "Nebula");
}

#[test]
fn apply_preset_replaces_and_releases_the_old_program() {
    // Loading a preset leaves exactly one pattern program owned and hands
    // the previous one back for deletion.
    let mut s = fresh_state();
    let released = s
        .apply_preset("Plasma", Ok(ShaderProgram { id: 200 }))
        .expect("successful build installs");
    assert!(released.is_none());
    assert_eq!(s.program, Some(ShaderProgram { id: 200 }));
    assert_eq!(s.current_preset, "Plasma");

    let released = s
        .apply_preset("Waves", Ok(ShaderProgram { id: 201 }))
        .expect("successful build installs");
    assert_eq!(released, Some(ShaderProgram { id: 200 }));
    assert_eq!(s.program, Some(ShaderProgram { id: 201 }));
    assert_eq!(s.current_preset, "Waves");
}

#[test]
fn failed_build_keeps_the_previous_program() {
    let mut s = fresh_state();
    s.apply_preset("Plasma", Ok(ShaderProgram { id: 200 }))
        .expect("successful build installs");
    let err = s.apply_preset(
        "Waves",
        Err(ShaderError::Compile {
            stage: ShaderStage::Fragment,
            log: String::from("syntax error"),
        }),
    );
    assert!(err.is_err());
    assert_eq!(s.program, Some(ShaderProgram { id: 200 }));
    assert_eq!(s.current_preset, "Plasma");
}

#[test]
fn set_shader_reports_link_errors_unchanged() {
    let mut s = fresh_state();
    let r = s.set_shader(Err(ShaderError::Link { log: String::from("mismatch") }));
    match r {
        Err(ShaderError::Link { log }) => assert_eq!(log, "mismatch"),
        other => panic!("expected the link error back, got {:?}", other),
    }
    assert!(s.program.is_none());
}

#[test]
fn teardown_surrenders_every_owned_object() {
    let mut s = fresh_state();
    s.apply_preset("Bars", Ok(ShaderProgram { id: 200 }))
        .expect("successful build installs");
    let released = s.teardown();
    assert_eq!(released.programs, vec![200, 100, 101, 102]);
    assert_eq!(released.framebuffers, vec![20, 21]);
    assert_eq!(released.textures, vec![30, 31]);
    assert_eq!(released.vertex_arrays, vec![10]);
    assert_eq!(released.buffers, vec![11]);
    assert!(s.program.is_none());
    assert!(s.blur_program.is_none());
    assert!(s.bloom_program.is_none());
    assert!(s.chromatic_program.is_none());
}

#[test]
fn teardown_without_pattern_program() {
    let mut s = RendererState::new(1, 2, 3, 4, 5, 6, None, None, None);
    let released = s.teardown();
    assert!(released.programs.is_empty());
    assert_eq!(released.framebuffers, vec![3, 4]);
}

#[test]
fn bars_at_64_by_64_renders_directly() {
    // The concrete export scenario: preset Bars, everything else off,
    // rendered at 64 by 64 — the plan is the single pattern draw with the
    // default 45-degree angle, straight into the caller's framebuffer.
    let mut s = fresh_state();
    s.apply_preset("Bars", Ok(ShaderProgram { id: 200 }))
        .expect("successful build installs");
    let plan = s.render(64, 64, 0);
    assert_eq!(plan.len(), 1);
    match &plan[0] {
        RenderCmd::DrawPattern { uniforms } => {
            assert_eq!(uniforms.width, 64);
            assert_eq!(uniforms.height, 64);
            assert_eq!(uniforms.params.angle_millideg, 45_000);
        }
        other => panic!("expected a pattern draw, got {:?}", other),
    }
}

#[test]
fn every_preset_loads_and_renders_without_leaking() {
    // For each registered preset: the lookup succeeds, installing the new
    // program releases exactly the previous one, rendering yields a plan,
    // and exactly one pattern program stays owned.
    let mut s = fresh_state();
    let mut next_id: u32 = 500;
    let mut previous: Option<ShaderProgram> = None;
    for name in wallrus::shader_presets::preset_names() {
        let build = s.load_preset(name).expect("registered preset resolves");
        assert_eq!(build.name, name);
        let released = s
            .apply_preset(name, Ok(ShaderProgram { id: next_id }))
            .expect("successful build installs");
        assert_eq!(released, previous);
        assert_eq!(s.program, Some(ShaderProgram { id: next_id }));
        assert_eq!(s.current_preset, name);
        let plan = s.render(128, 128, 0);
        assert!(!plan.is_empty());
        previous = Some(ShaderProgram { id: next_id });
        next_id += 1;
    }
}

#[test]
fn has_active_postprocess_needs_toggle_and_program() {
    let mut s = fresh_state();
    assert!(!s.has_active_postprocess());
    s.params.bloom_enabled = true;
    assert!(s.has_active_postprocess());
    let mut t = RendererState::new(1, 2, 3, 4, 5, 6, None, None, None);
    t.params.bloom_enabled = true;
    assert!(!t.has_active_postprocess());
}
