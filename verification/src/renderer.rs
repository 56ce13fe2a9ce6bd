//! The renderer state and the render pipeline.
//!
//! The renderer owns every GPU object — the pattern program, the three
//! post-process programs, the fullscreen-quad buffers and the ping-pong
//! framebuffer/texture pair — by holding their handles. A render call
//! produces a plan: the exact ordered list of GPU commands for one frame.
//! The driver around the library executes the plan against the graphics
//! context; the plan itself — which passes run, in which order, into which
//! framebuffer, reading which texture — is decided and proved here.

use vstd::prelude::*;

use crate::params::UniformParams;
use crate::shader::{GlId, ShaderError, ShaderProgram, UnknownPresetError};
use crate::shader_presets;

verus! {

/// One post-processing effect.
#[derive(Debug, Clone, Copy, PartialEq, Eq, Structural)]
pub enum PostEffect {
    Blur,
    Bloom,
    Chromatic,
}

/// The fixed position of an effect in the pass chain: blur first, bloom
/// second, chromatic aberration last.
pub open spec fn effect_rank(e: PostEffect) -> int {
    match e {
        PostEffect::Blur => 0,
        PostEffect::Bloom => 1,
        PostEffect::Chromatic => 2,
    }
}

/// The uniform values of one pattern-pass draw: the resolution, the
/// animation clock, and the whole parameter set. The executor sets each
/// uniform the active preset declares and silently skips the rest.
#[derive(Debug, Clone, Copy, PartialEq, Eq, Structural)]
pub struct PatternUniforms {
    pub width: i32,
    pub height: i32,
    pub time_millis: u64,
    pub params: UniformParams,
}

/// The effect-specific uniform values of one post-process draw.
#[derive(Debug, Clone, Copy, PartialEq, Eq, Structural)]
pub enum EffectSettings {
    Blur { blur_type: i32, blur_strength_milli: i32, blur_angle_millideg: i32 },
    Bloom { bloom_threshold_milli: i32, bloom_intensity_milli: i32 },
    Chromatic { chromatic_strength_milli: i32, chromatic_angle_millideg: i32 },
}

/// Where a draw goes: the framebuffer the caller had bound when the render
/// call began, or one of the ping-pong framebuffers.
#[derive(Debug, Clone, Copy, PartialEq, Eq, Structural)]
pub enum BindTarget {
    Entry,
    PingPong { fbo: GlId },
}

/// One step of a render plan, executed in order by the driver.
#[derive(Debug, Clone, Copy, PartialEq, Eq, Structural)]
pub enum RenderCmd {
    /// Reallocate both ping-pong textures at the given size.
    ResizeTargets { width: i32, height: i32 },
    /// Bind a framebuffer as the destination of the draws that follow.
    Bind { target: BindTarget },
    /// Draw the pattern pass over the fullscreen quad.
    DrawPattern { uniforms: PatternUniforms },
    /// Draw one post-process pass over the fullscreen quad, reading
    /// `source` bound to the first texture unit.
    DrawEffect {
        effect: PostEffect,
        program: GlId,
        source: GlId,
        width: i32,
        height: i32,
        settings: EffectSettings,
    },
}

/// The long-lived owner of every GPU object the pipeline uses.
#[derive(Debug)]
pub struct RendererState {
    /// The active pattern program, if a preset has been loaded.
    pub program: Option<ShaderProgram>,
    /// Post-process programs; `None` where the build failed at construction,
    /// which permanently disables that effect for the session.
    pub blur_program: Option<ShaderProgram>,
    pub bloom_program: Option<ShaderProgram>,
    pub chromatic_program: Option<ShaderProgram>,
    /// Fullscreen-quad vertex array and buffer shared by every pass.
    pub vao: GlId,
    pub vbo: GlId,
    /// The ping-pong framebuffer/texture pair for multi-pass work.
    pub pp_fbo_a: GlId,
    pub pp_fbo_b: GlId,
    pub pp_texture_a: GlId,
    pub pp_texture_b: GlId,
    /// The size both ping-pong textures were last allocated at.
    pub pp_fbo_size: (i32, i32),
    /// The full user-adjustable parameter set.
    pub params: UniformParams,
    /// The name of the active preset, kept for naming exported files.
    pub current_preset: String,
}

impl RendererState {
    /// A pass is active iff its toggle is set and its program compiled.
    pub open spec fn spec_effect_active(self, e: PostEffect) -> bool {
        match e {
            PostEffect::Blur => self.params.blur_type != 0 && self.blur_program is Some,
            PostEffect::Bloom => self.params.bloom_enabled && self.bloom_program is Some,
            PostEffect::Chromatic => self.params.chromatic_enabled
                && self.chromatic_program is Some,
        }
    }

    /// The program slot of an effect.
    pub open spec fn spec_effect_program(self, e: PostEffect) -> Option<ShaderProgram> {
        match e {
            PostEffect::Blur => self.blur_program,
            PostEffect::Bloom => self.bloom_program,
            PostEffect::Chromatic => self.chromatic_program,
        }
    }

    /// The active passes in their fixed order: blur, bloom, chromatic.
    pub open spec fn spec_active_passes(self) -> Seq<PostEffect> {
        (if self.spec_effect_active(PostEffect::Blur) {
            seq![PostEffect::Blur]
        } else {
            Seq::empty()
        }) + (if self.spec_effect_active(PostEffect::Bloom) {
            seq![PostEffect::Bloom]
        } else {
            Seq::empty()
        }) + (if self.spec_effect_active(PostEffect::Chromatic) {
            seq![PostEffect::Chromatic]
        } else {
            Seq::empty()
        })
    }

    /// Whether any post-process pass is active.
    pub open spec fn spec_has_active_postprocess(self) -> bool {
        self.spec_active_passes().len() > 0
    }

    pub open spec fn spec_pattern_uniforms(self, width: i32, height: i32, t: u64)
        -> PatternUniforms {
        PatternUniforms { width, height, time_millis: t, params: self.params }
    }

    pub open spec fn spec_effect_settings(self, e: PostEffect) -> EffectSettings {
        match e {
            PostEffect::Blur => EffectSettings::Blur {
                blur_type: self.params.blur_type,
                blur_strength_milli: self.params.blur_strength_milli,
                blur_angle_millideg: self.params.blur_angle_millideg,
            },
            PostEffect::Bloom => EffectSettings::Bloom {
                bloom_threshold_milli: self.params.bloom_threshold_milli,
                bloom_intensity_milli: self.params.bloom_intensity_milli,
            },
            PostEffect::Chromatic => EffectSettings::Chromatic {
                chromatic_strength_milli: self.params.chromatic_strength_milli,
                chromatic_angle_millideg: self.params.chromatic_angle_millideg,
            },
        }
    }

    /// The texture pass `i` reads: slot A for even `i`, slot B for odd.
    /// The pattern pass writes slot A, and each intermediate pass writes
    /// the slot it does not read.
    pub open spec fn spec_source_texture(self, i: int) -> GlId {
        if i % 2 == 0 {
            self.pp_texture_a
        } else {
            self.pp_texture_b
        }
    }

    /// The ping-pong framebuffer an intermediate pass `i` writes.
    pub open spec fn spec_dest_fbo(self, i: int) -> GlId {
        if (i + 1) % 2 == 0 {
            self.pp_fbo_a
        } else {
            self.pp_fbo_b
        }
    }

    /// The commands of the first `n` active passes: each pass binds its
    /// destination — the entry framebuffer for the last pass, the other
    /// ping-pong slot for the rest — and draws reading its source texture.
    pub open spec fn spec_pass_cmds(self, width: i32, height: i32, n: int) -> Seq<RenderCmd>
        decreases n,
    {
        let passes = self.spec_active_passes();
        if n <= 0 {
            Seq::empty()
        } else {
            let i = n - 1;
            self.spec_pass_cmds(width, height, i) + seq![
                RenderCmd::Bind {
                    target: if i == passes.len() - 1 {
                        BindTarget::Entry
                    } else {
                        BindTarget::PingPong { fbo: self.spec_dest_fbo(i) }
                    },
                },
                RenderCmd::DrawEffect {
                    effect: passes[i],
                    program: self.spec_effect_program(passes[i]).unwrap().id,
                    source: self.spec_source_texture(i),
                    width,
                    height,
                    settings: self.spec_effect_settings(passes[i]),
                },
            ]
        }
    }

    /// The whole plan of one render call. With no active pass it is a
    /// single pattern draw into the caller's framebuffer. Otherwise the
    /// ping-pong pair is resized if its size differs from the target, the
    /// pattern is drawn into slot A, and the active passes run in order,
    /// the last one into the entry framebuffer.
    pub open spec fn spec_render_plan(self, width: i32, height: i32, t: u64) -> Seq<RenderCmd> {
        let passes = self.spec_active_passes();
        if passes.len() == 0 {
            seq![RenderCmd::DrawPattern { uniforms: self.spec_pattern_uniforms(width, height, t) }]
        } else {
            (if self.pp_fbo_size == (width, height) {
                Seq::empty()
            } else {
                seq![RenderCmd::ResizeTargets { width, height }]
            }) + seq![
                RenderCmd::Bind { target: BindTarget::PingPong { fbo: self.pp_fbo_a } },
                RenderCmd::DrawPattern { uniforms: self.spec_pattern_uniforms(width, height, t) },
            ] + self.spec_pass_cmds(width, height, passes.len() as int)
        }
    }

    /// The state after one render call: only the recorded ping-pong size
    /// changes, and only on the multi-pass path.
    pub open spec fn spec_after_render(self, width: i32, height: i32) -> RendererState {
        if self.spec_active_passes().len() == 0 {
            self
        } else {
            RendererState { pp_fbo_size: (width, height), ..self }
        }
    }

    /// The program handles the renderer owns, pattern first.
    pub open spec fn spec_owned_program_ids(self) -> Seq<GlId> {
        spec_opt_program_ids(self.program) + self.spec_effect_program_ids()
    }

    /// The post-process program handles the renderer owns.
    pub open spec fn spec_effect_program_ids(self) -> Seq<GlId> {
        spec_opt_program_ids(self.blur_program) + spec_opt_program_ids(self.bloom_program)
            + spec_opt_program_ids(self.chromatic_program)
    }
}

/// The handle held by an optional program slot, as a sequence.
pub open spec fn spec_opt_program_ids(p: Option<ShaderProgram>) -> Seq<GlId> {
    match p {
        Some(q) => seq![q.id],
        None => Seq::empty(),
    }
}

/// Everything needed to build a pattern program for a preset: the preset's
/// name and its vertex and fragment source text.
#[derive(Debug, Clone)]
pub struct PresetBuild {
    pub name: String,
    pub vertex: String,
    pub fragment: String,
}

impl RendererState {
    /// A fresh renderer around GPU objects the driver created: no pattern
    /// program yet, default parameters, the ping-pong pair at its initial
    /// 1 by 1 allocation, and whichever post-process programs built.
    pub fn new(
        vao: GlId,
        vbo: GlId,
        pp_fbo_a: GlId,
        pp_fbo_b: GlId,
        pp_texture_a: GlId,
        pp_texture_b: GlId,
        blur_program: Option<ShaderProgram>,
        bloom_program: Option<ShaderProgram>,
        chromatic_program: Option<ShaderProgram>,
    ) -> (s: Self)
        ensures
            s.program is None,
            s.blur_program == blur_program,
            s.bloom_program == bloom_program,
            s.chromatic_program == chromatic_program,
            s.vao == vao,
            s.vbo == vbo,
            s.pp_fbo_a == pp_fbo_a,
            s.pp_fbo_b == pp_fbo_b,
            s.pp_texture_a == pp_texture_a,
            s.pp_texture_b == pp_texture_b,
            s.pp_fbo_size == (1i32, 1i32),
            s.params == UniformParams::spec_default(),
            s.current_preset@ == "Bars"@,
    {
        RendererState {
            program: None,
            blur_program,
            bloom_program,
            chromatic_program,
            vao,
            vbo,
            pp_fbo_a,
            pp_fbo_b,
            pp_texture_a,
            pp_texture_b,
            pp_fbo_size: (1, 1),
            params: Default::default(),
            current_preset: "Bars".to_owned(),
        }
    }

    /// Looks a preset up in the shader source registry. `Ok` holds what the
    /// driver must compile; unknown names are an error and change nothing.
    pub fn load_preset(&self, name: &str) -> (r: Result<PresetBuild, UnknownPresetError>)
        ensures
            r is Ok <==> shader_presets::is_preset_name(name@),
            r is Ok ==> r->Ok_0.name@ == name@,
            r is Ok ==> r->Ok_0.vertex@ == shader_presets::VERTEX_SRC@,
            r is Ok ==> r->Ok_0.fragment@ == shader_presets::spec_fragment_source(name@),
            r is Err ==> r->Err_0.name@ == name@,
    {
        match shader_presets::fragment_source_for(name) {
            Some(fragment) => Ok(
                PresetBuild {
                    name: name.to_owned(),
                    vertex: shader_presets::vertex_shader_source(),
                    fragment,
                },
            ),
            None => Err(UnknownPresetError { name: name.to_owned() }),
        }
    }

    /// Installs the outcome of a pattern-program build. On success the new
    /// program replaces the old one, whose handle is returned for the
    /// driver to delete. On failure the state is untouched: the previous
    /// program stays usable and the error is surfaced.
    pub fn set_shader(&mut self, built: Result<ShaderProgram, ShaderError>) -> (r: Result<
        Option<ShaderProgram>,
        ShaderError,
    >)
        ensures
            built is Ok ==> *final(self) == (RendererState {
                program: Some(built->Ok_0),
                ..*old(self)
            }),
            built is Ok ==> r == Ok::<Option<ShaderProgram>, ShaderError>(old(self).program),
            built is Err ==> *final(self) == *old(self),
            built is Err ==> r is Err && r->Err_0 == built->Err_0,
    {
        match built {
            Ok(p) => {
                let released = self.program;
                self.program = Some(p);
                Ok(released)
            },
            Err(e) => Err(e),
        }
    }

    /// Installs a preset build outcome: like `set_shader`, and on success
    /// the preset's name is retained for naming exported files.
    pub fn apply_preset(&mut self, name: &str, built: Result<ShaderProgram, ShaderError>) -> (r:
        Result<Option<ShaderProgram>, ShaderError>)
        ensures
            built is Ok ==> final(self).program == Some(built->Ok_0),
            built is Ok ==> final(self).current_preset@ == name@,
            built is Ok ==> spec_same_but_pattern(*old(self), *final(self)),
            built is Ok ==> r == Ok::<Option<ShaderProgram>, ShaderError>(old(self).program),
            built is Err ==> *final(self) == *old(self),
            built is Err ==> r is Err && r->Err_0 == built->Err_0,
    {
        match built {
            Ok(p) => {
                let released = self.program;
                self.program = Some(p);
                self.current_preset = name.to_owned();
                Ok(released)
            },
            Err(e) => Err(e),
        }
    }

    /// Whether any post-process pass is active: its toggle set and its
    /// program compiled.
    pub fn has_active_postprocess(&self) -> (r: bool)
        ensures
            r == self.spec_has_active_postprocess(),
    {
        let r = (self.params.blur_type != 0 && self.blur_program.is_some()) || (
        self.params.bloom_enabled && self.bloom_program.is_some()) || (
        self.params.chromatic_enabled && self.chromatic_program.is_some());
        proof {
            assert(r == self.spec_has_active_postprocess());
        }
        r
    }

    /// The active passes in their fixed order: blur, bloom, chromatic.
    pub fn active_passes(&self) -> (r: Vec<PostEffect>)
        ensures
            r@ == self.spec_active_passes(),
    {
        let mut v: Vec<PostEffect> = Vec::new();
        if self.params.blur_type != 0 && self.blur_program.is_some() {
            v.push(PostEffect::Blur);
        }
        if self.params.bloom_enabled && self.bloom_program.is_some() {
            v.push(PostEffect::Bloom);
        }
        if self.params.chromatic_enabled && self.chromatic_program.is_some() {
            v.push(PostEffect::Chromatic);
        }
        proof {
            assert(v@ =~= self.spec_active_passes());
        }
        v
    }

    /// Records the target size for the ping-pong pair; yields a reallocation
    /// command only when the size actually changed — resizing is lazy.
    pub fn ensure_pp_fbo_size(&mut self, width: i32, height: i32) -> (r: Option<RenderCmd>)
        ensures
            *final(self) == (RendererState { pp_fbo_size: (width, height), ..*old(self) }),
            old(self).pp_fbo_size == (width, height) ==> r is None,
            old(self).pp_fbo_size != (width, height) ==> r == Some(
                RenderCmd::ResizeTargets { width, height },
            ),
    {
        if self.pp_fbo_size.0 == width && self.pp_fbo_size.1 == height {
            proof {
                assert(*self == (RendererState { pp_fbo_size: (width, height), ..*self }));
            }
            None
        } else {
            self.pp_fbo_size = (width, height);
            Some(RenderCmd::ResizeTargets { width, height })
        }
    }

    fn pattern_uniforms(&self, width: i32, height: i32, t: u64) -> (r: PatternUniforms)
        ensures
            r == self.spec_pattern_uniforms(width, height, t),
    {
        PatternUniforms { width, height, time_millis: t, params: self.params }
    }

    fn effect_settings(&self, e: PostEffect) -> (r: EffectSettings)
        ensures
            r == self.spec_effect_settings(e),
    {
        match e {
            PostEffect::Blur => EffectSettings::Blur {
                blur_type: self.params.blur_type,
                blur_strength_milli: self.params.blur_strength_milli,
                blur_angle_millideg: self.params.blur_angle_millideg,
            },
            PostEffect::Bloom => EffectSettings::Bloom {
                bloom_threshold_milli: self.params.bloom_threshold_milli,
                bloom_intensity_milli: self.params.bloom_intensity_milli,
            },
            PostEffect::Chromatic => EffectSettings::Chromatic {
                chromatic_strength_milli: self.params.chromatic_strength_milli,
                chromatic_angle_millideg: self.params.chromatic_angle_millideg,
            },
        }
    }

    fn effect_program_id(&self, e: PostEffect) -> (r: GlId)
        requires
            self.spec_effect_program(e) is Some,
        ensures
            r == self.spec_effect_program(e).unwrap().id,
    {
        match e {
            PostEffect::Blur => self.blur_program.unwrap().id,
            PostEffect::Bloom => self.bloom_program.unwrap().id,
            PostEffect::Chromatic => self.chromatic_program.unwrap().id,
        }
    }

    /// Every element of the active pass list is an active effect, so its
    /// program slot is filled.
    proof fn lemma_active_passes_active(self)
        ensures
            forall|i: int|
                0 <= i < self.spec_active_passes().len() ==> self.spec_effect_active(
                    #[trigger] self.spec_active_passes()[i],
                ),
    {
    }

    /// Renders one frame at the given size with the given animation clock:
    /// returns the ordered command plan for the driver, and records the
    /// ping-pong size the plan leaves behind. Total: every parameter set
    /// and every size yields a plan.
    pub fn render(&mut self, width: i32, height: i32, elapsed_millis: u64) -> (plan: Vec<
        RenderCmd,
    >)
        ensures
            plan@ == old(self).spec_render_plan(width, height, elapsed_millis),
            *final(self) == old(self).spec_after_render(width, height),
    {
        let ghost s0 = *self;
        let passes = self.active_passes();
        let n = passes.len();
        if n == 0 {
            let mut plan: Vec<RenderCmd> = Vec::new();
            plan.push(
                RenderCmd::DrawPattern {
                    uniforms: self.pattern_uniforms(width, height, elapsed_millis),
                },
            );
            proof {
                assert(plan@ =~= s0.spec_render_plan(width, height, elapsed_millis));
            }
            return plan;
        }
        let mut plan: Vec<RenderCmd> = Vec::new();
        match self.ensure_pp_fbo_size(width, height) {
            Some(cmd) => plan.push(cmd),
            None => (),
        }
        plan.push(RenderCmd::Bind { target: BindTarget::PingPong { fbo: self.pp_fbo_a } });
        plan.push(
            RenderCmd::DrawPattern {
                uniforms: self.pattern_uniforms(width, height, elapsed_millis),
            },
        );
        let ghost head = plan@;
        proof {
            s0.lemma_active_passes_active();
            assert(head + s0.spec_pass_cmds(width, height, 0) =~= head);
        }
        let mut i: usize = 0;
        while i < n
            invariant
                n == passes@.len(),
                passes@ == s0.spec_active_passes(),
                n > 0,
                i <= n,
                *self == (RendererState { pp_fbo_size: (width, height), ..s0 }),
                plan@ == head + s0.spec_pass_cmds(width, height, i as int),
                head == (if s0.pp_fbo_size == (width, height) {
                    Seq::<RenderCmd>::empty()
                } else {
                    seq![RenderCmd::ResizeTargets { width, height }]
                }) + seq![
                    RenderCmd::Bind { target: BindTarget::PingPong { fbo: s0.pp_fbo_a } },
                    RenderCmd::DrawPattern {
                        uniforms: s0.spec_pattern_uniforms(width, height, elapsed_millis),
                    },
                ],
                forall|k: int|
                    0 <= k < n ==> s0.spec_effect_active(#[trigger] s0.spec_active_passes()[k]),
            decreases n - i,
        {
            let e = passes[i];
            let target = if i == n - 1 {
                BindTarget::Entry
            } else {
                BindTarget::PingPong {
                    fbo: if (i + 1) % 2 == 0 {
                        self.pp_fbo_a
                    } else {
                        self.pp_fbo_b
                    },
                }
            };
            plan.push(RenderCmd::Bind { target });
            let source = if i % 2 == 0 {
                self.pp_texture_a
            } else {
                self.pp_texture_b
            };
            let cmd = RenderCmd::DrawEffect {
                effect: e,
                program: self.effect_program_id(e),
                source,
                width,
                height,
                settings: self.effect_settings(e),
            };
            plan.push(cmd);
            proof {
                assert(plan@ =~= head + s0.spec_pass_cmds(width, height, i + 1));
            }
            i += 1;
        }
        proof {
            assert(plan@ =~= s0.spec_render_plan(width, height, elapsed_millis));
            assert(*self == s0.spec_after_render(width, height));
        }
        plan
    }

    /// Releases ownership of every GPU object: the handles come back in one
    /// release list for the driver to delete, and no program slot stays
    /// filled. Called exactly once, at surface teardown.
    pub fn teardown(&mut self) -> (r: ReleasedObjects)
        ensures
            r.programs@ == old(self).spec_owned_program_ids(),
            r.framebuffers@ == seq![old(self).pp_fbo_a, old(self).pp_fbo_b],
            r.textures@ == seq![old(self).pp_texture_a, old(self).pp_texture_b],
            r.vertex_arrays@ == seq![old(self).vao],
            r.buffers@ == seq![old(self).vbo],
            final(self).program is None,
            final(self).blur_program is None,
            final(self).bloom_program is None,
            final(self).chromatic_program is None,
            final(self).spec_owned_program_ids() == Seq::<GlId>::empty(),
    {
        let mut programs: Vec<GlId> = Vec::new();
        match self.program {
            Some(p) => programs.push(p.id),
            None => (),
        }
        match self.blur_program {
            Some(p) => programs.push(p.id),
            None => (),
        }
        match self.bloom_program {
            Some(p) => programs.push(p.id),
            None => (),
        }
        match self.chromatic_program {
            Some(p) => programs.push(p.id),
            None => (),
        }
        self.program = None;
        self.blur_program = None;
        self.bloom_program = None;
        self.chromatic_program = None;
        let mut framebuffers: Vec<GlId> = Vec::new();
        framebuffers.push(self.pp_fbo_a);
        framebuffers.push(self.pp_fbo_b);
        let mut textures: Vec<GlId> = Vec::new();
        textures.push(self.pp_texture_a);
        textures.push(self.pp_texture_b);
        let mut vertex_arrays: Vec<GlId> = Vec::new();
        vertex_arrays.push(self.vao);
        let mut buffers: Vec<GlId> = Vec::new();
        buffers.push(self.vbo);
        proof {
            assert(programs@ =~= old(self).spec_owned_program_ids());
            assert(self.spec_owned_program_ids() =~= Seq::<GlId>::empty());
        }
        ReleasedObjects { programs, framebuffers, textures, vertex_arrays, buffers }
    }
}

/// The GPU handles a teardown surrenders for deletion.
#[derive(Debug, Clone)]
pub struct ReleasedObjects {
    pub programs: Vec<GlId>,
    pub framebuffers: Vec<GlId>,
    pub textures: Vec<GlId>,
    pub vertex_arrays: Vec<GlId>,
    pub buffers: Vec<GlId>,
}

/// Whether a command is a draw call.
pub open spec fn spec_is_draw(c: RenderCmd) -> bool {
    c is DrawPattern || c is DrawEffect
}

/// The number of draw calls in a plan.
pub open spec fn spec_draw_count(plan: Seq<RenderCmd>) -> int
    decreases plan.len(),
{
    if plan.len() == 0 {
        0
    } else {
        spec_draw_count(plan.drop_last()) + if spec_is_draw(plan.last()) {
            1int
        } else {
            0
        }
    }
}

/// The number of ping-pong reallocation commands in a plan.
pub open spec fn spec_resize_count(plan: Seq<RenderCmd>) -> int
    decreases plan.len(),
{
    if plan.len() == 0 {
        0
    } else {
        spec_resize_count(plan.drop_last()) + if plan.last() is ResizeTargets {
            1int
        } else {
            0
        }
    }
}

/// The number of framebuffer binds in a plan.
pub open spec fn spec_bind_count(plan: Seq<RenderCmd>) -> int
    decreases plan.len(),
{
    if plan.len() == 0 {
        0
    } else {
        spec_bind_count(plan.drop_last()) + if plan.last() is Bind {
            1int
        } else {
            0
        }
    }
}

/// Pass ordering invariant: for every subset of effects marked active, the
/// pass list runs in the fixed order blur, bloom, chromatic — which subset
/// runs is dynamic, the relative order of the ones that run never is.
pub proof fn lemma_pass_order_fixed(s: RendererState)
    ensures
        forall|i: int, j: int|
            0 <= i < j < s.spec_active_passes().len() ==> effect_rank(
                #[trigger] s.spec_active_passes()[i],
            ) < effect_rank(#[trigger] s.spec_active_passes()[j]),
{
}

/// Zero-overhead invariant: with all three post-process toggles off, the
/// plan is exactly the one pattern draw into the caller's framebuffer —
/// one draw call, no framebuffer bind, no reallocation — and the renderer
/// state is left exactly as it was.
pub proof fn lemma_zero_overhead(s: RendererState, width: i32, height: i32, t: u64)
    requires
        s.params.blur_type == 0,
        !s.params.bloom_enabled,
        !s.params.chromatic_enabled,
    ensures
        s.spec_render_plan(width, height, t) == seq![
            (RenderCmd::DrawPattern { uniforms: s.spec_pattern_uniforms(width, height, t) }),
        ],
        spec_draw_count(s.spec_render_plan(width, height, t)) == 1,
        spec_resize_count(s.spec_render_plan(width, height, t)) == 0,
        spec_bind_count(s.spec_render_plan(width, height, t)) == 0,
        s.spec_after_render(width, height) == s,
{
    assert(s.spec_active_passes() =~= Seq::<PostEffect>::empty());
    let plan = s.spec_render_plan(width, height, t);
    assert(plan.drop_last() =~= Seq::<RenderCmd>::empty());
    assert(spec_draw_count(Seq::<RenderCmd>::empty()) == 0);
    assert(spec_resize_count(Seq::<RenderCmd>::empty()) == 0);
    assert(spec_bind_count(Seq::<RenderCmd>::empty()) == 0);
    assert(spec_draw_count(plan) == 1);
    assert(spec_resize_count(plan) == 0);
    assert(spec_bind_count(plan) == 0);
}

/// No element of a pass-command sequence is a reallocation.
proof fn lemma_pass_cmds_no_resize(s: RendererState, width: i32, height: i32, n: int)
    ensures
        spec_resize_count(s.spec_pass_cmds(width, height, n)) == 0,
    decreases n,
{
    if n > 0 {
        lemma_pass_cmds_no_resize(s, width, height, n - 1);
        let passes = s.spec_active_passes();
        let i = n - 1;
        let prev = s.spec_pass_cmds(width, height, i);
        let bind = RenderCmd::Bind {
            target: if i == passes.len() - 1 {
                BindTarget::Entry
            } else {
                BindTarget::PingPong { fbo: s.spec_dest_fbo(i) }
            },
        };
        let draw = RenderCmd::DrawEffect {
            effect: passes[i],
            program: s.spec_effect_program(passes[i]).unwrap().id,
            source: s.spec_source_texture(i),
            width,
            height,
            settings: s.spec_effect_settings(passes[i]),
        };
        assert(s.spec_pass_cmds(width, height, n) == prev + seq![bind, draw]);
        lemma_resize_count_add(prev, seq![bind, draw]);
        assert(seq![bind, draw].drop_last() =~= seq![bind]);
        assert(seq![bind].drop_last() =~= Seq::<RenderCmd>::empty());
        assert(spec_resize_count(Seq::<RenderCmd>::empty()) == 0);
        assert(spec_resize_count(seq![bind]) == 0);
        assert(spec_resize_count(seq![bind, draw]) == 0);
    }
}

/// Reallocation counts add up over plan concatenation.
proof fn lemma_resize_count_add(a: Seq<RenderCmd>, b: Seq<RenderCmd>)
    ensures
        spec_resize_count(a + b) == spec_resize_count(a) + spec_resize_count(b),
    decreases b.len(),
{
    if b.len() == 0 {
        assert(a + b =~= a);
    } else {
        lemma_resize_count_add(a, b.drop_last());
        assert((a + b).drop_last() =~= a + b.drop_last());
    }
}

/// Ping-pong sizing idempotence: whatever the state, rendering at a size
/// and then rendering again at the same size reallocates nothing on the
/// second call — the pair is resized only when the size actually changes.
pub proof fn lemma_pingpong_sizing_idempotent(
    s: RendererState,
    width: i32,
    height: i32,
    t1: u64,
    t2: u64,
)
    ensures
        spec_resize_count(
            s.spec_after_render(width, height).spec_render_plan(width, height, t2),
        ) == 0,
{
    let s1 = s.spec_after_render(width, height);
    let plan = s1.spec_render_plan(width, height, t2);
    if s1.spec_active_passes().len() == 0 {
        assert(plan.drop_last() =~= Seq::<RenderCmd>::empty());
        assert(spec_resize_count(Seq::<RenderCmd>::empty()) == 0);
        assert(spec_resize_count(plan) == 0);
    } else {
        assert(s1.spec_active_passes() =~= s.spec_active_passes());
        assert(s.spec_active_passes().len() > 0);
        assert(s1.pp_fbo_size == (width, height));
        let head = seq![
            (RenderCmd::Bind { target: BindTarget::PingPong { fbo: s1.pp_fbo_a } }),
            (RenderCmd::DrawPattern {
                uniforms: s1.spec_pattern_uniforms(width, height, t2),
            }),
        ];
        assert(plan =~= head + s1.spec_pass_cmds(
            width,
            height,
            s1.spec_active_passes().len() as int,
        ));
        assert(spec_resize_count(head) == 0) by {
            assert(head.drop_last() =~= seq![
                (RenderCmd::Bind { target: BindTarget::PingPong { fbo: s1.pp_fbo_a } }),
            ]);
            assert(head.drop_last().drop_last() =~= Seq::<RenderCmd>::empty());
            assert(spec_resize_count(Seq::<RenderCmd>::empty()) == 0);
            assert(spec_resize_count(head.drop_last()) == 0);
        }
        lemma_pass_cmds_no_resize(s1, width, height, s1.spec_active_passes().len() as int);
        lemma_resize_count_add(
            head,
            s1.spec_pass_cmds(width, height, s1.spec_active_passes().len() as int),
        );
    }
}

/// The pass commands of two states agree whenever the states agree on the
/// active pass list, the program slots, the effect settings and the
/// ping-pong objects.
proof fn lemma_pass_cmds_congruent(a: RendererState, b: RendererState, width: i32, height: i32, n: int)
    requires
        a.spec_active_passes() == b.spec_active_passes(),
        a.blur_program == b.blur_program,
        a.bloom_program == b.bloom_program,
        a.chromatic_program == b.chromatic_program,
        forall|e: PostEffect| a.spec_effect_settings(e) == b.spec_effect_settings(e),
        a.pp_fbo_a == b.pp_fbo_a,
        a.pp_fbo_b == b.pp_fbo_b,
        a.pp_texture_a == b.pp_texture_a,
        a.pp_texture_b == b.pp_texture_b,
    ensures
        a.spec_pass_cmds(width, height, n) == b.spec_pass_cmds(width, height, n),
    decreases n,
{
    if n > 0 {
        lemma_pass_cmds_congruent(a, b, width, height, n - 1);
    }
}

/// Failure isolation: when the bloom program failed to build, switching the
/// bloom toggle on changes nothing — the plan of every render call is the
/// one the untouched state produces, bloom never appears in the pass list,
/// and blur and chromatic run exactly as before.
pub proof fn lemma_failure_isolation(
    s: RendererState,
    s2: RendererState,
    width: i32,
    height: i32,
    t: u64,
)
    requires
        s.bloom_program is None,
        s2 == (RendererState {
            params: (UniformParams { bloom_enabled: true, ..s.params }),
            ..s
        }),
    ensures
        s2.spec_active_passes() == s.spec_active_passes(),
        !s.spec_active_passes().contains(PostEffect::Bloom),
        !s2.spec_active_passes().contains(PostEffect::Bloom),
        forall|n: int|
            s2.spec_pass_cmds(width, height, n) == #[trigger] s.spec_pass_cmds(
                width,
                height,
                n,
            ),
        s2.spec_active_passes().contains(PostEffect::Blur) == s.spec_effect_active(
            PostEffect::Blur,
        ),
        s2.spec_active_passes().contains(PostEffect::Chromatic) == s.spec_effect_active(
            PostEffect::Chromatic,
        ),
{
    assert(s2.spec_active_passes() =~= s.spec_active_passes());
    lemma_passes_membership(s);
    lemma_passes_membership(s2);
    assert forall|n: int|
        s2.spec_pass_cmds(width, height, n) == #[trigger] s.spec_pass_cmds(
            width,
            height,
            n,
        ) by {
        lemma_pass_cmds_congruent(s2, s, width, height, n);
    }
}

/// An effect appears in the active pass list exactly when it is active.
pub proof fn lemma_passes_membership(s: RendererState)
    ensures
        forall|e: PostEffect| s.spec_active_passes().contains(e) == s.spec_effect_active(e),
{
    let passes = s.spec_active_passes();
    assert forall|e: PostEffect| passes.contains(e) == s.spec_effect_active(e) by {
        if s.spec_effect_active(e) {
            let nb = if s.spec_effect_active(PostEffect::Blur) {
                1int
            } else {
                0
            };
            let nm = if s.spec_effect_active(PostEffect::Bloom) {
                1int
            } else {
                0
            };
            match e {
                PostEffect::Blur => {
                    assert(passes[0] == e);
                },
                PostEffect::Bloom => {
                    assert(passes[nb] == e);
                },
                PostEffect::Chromatic => {
                    assert(passes[nb + nm] == e);
                },
            }
        } else {
            if passes.contains(e) {
                let i = choose|i: int| 0 <= i < passes.len() && passes[i] == e;
                assert(s.spec_effect_active(passes[i]));
            }
        }
    }
}

/// Switching presets leaks no program and frees none twice: after a new
/// pattern program is installed, the renderer owns the new program and the
/// three post-process programs it already had — nothing else — and the
/// program it owned before is exactly the one handed back for deletion.
pub proof fn lemma_preset_switch_no_leak(
    s: RendererState,
    s2: RendererState,
    p: ShaderProgram,
    released: Option<ShaderProgram>,
)
    requires
        s2.program == Some(p),
        released == s.program,
        spec_same_but_pattern(s, s2),
    ensures
        s2.spec_owned_program_ids() == seq![p.id] + s.spec_effect_program_ids(),
        s.spec_owned_program_ids() == spec_opt_program_ids(released)
            + s.spec_effect_program_ids(),
        s2.spec_owned_program_ids().len() == 1 + s.spec_effect_program_ids().len(),
{
    assert(s2.spec_owned_program_ids() =~= seq![p.id] + s.spec_effect_program_ids());
}

/// The effects a plan draws, in order.
pub open spec fn spec_plan_effects(plan: Seq<RenderCmd>) -> Seq<PostEffect>
    decreases plan.len(),
{
    if plan.len() == 0 {
        Seq::empty()
    } else {
        spec_plan_effects(plan.drop_last()) + (match plan.last() {
            RenderCmd::DrawEffect { effect, .. } => seq![effect],
            _ => Seq::empty(),
        })
    }
}

/// Effect sequences add up over plan concatenation.
proof fn lemma_plan_effects_add(a: Seq<RenderCmd>, b: Seq<RenderCmd>)
    ensures
        spec_plan_effects(a + b) == spec_plan_effects(a) + spec_plan_effects(b),
    decreases b.len(),
{
    if b.len() == 0 {
        assert(a + b =~= a);
        assert(spec_plan_effects(a) + spec_plan_effects(b) =~= spec_plan_effects(a));
    } else {
        lemma_plan_effects_add(a, b.drop_last());
        assert((a + b).drop_last() =~= a + b.drop_last());
        assert(spec_plan_effects(a) + spec_plan_effects(b.drop_last()) + (match b.last() {
            RenderCmd::DrawEffect { effect, .. } => seq![effect],
            _ => Seq::<PostEffect>::empty(),
        }) =~= spec_plan_effects(a) + spec_plan_effects(b));
    }
}

/// The first `n` pass commands draw exactly the first `n` active passes.
proof fn lemma_pass_cmds_effects(s: RendererState, width: i32, height: i32, n: int)
    requires
        0 <= n <= s.spec_active_passes().len(),
    ensures
        spec_plan_effects(s.spec_pass_cmds(width, height, n)) == s.spec_active_passes().take(n),
    decreases n,
{
    if n == 0 {
        assert(s.spec_active_passes().take(0) =~= Seq::<PostEffect>::empty());
    } else {
        lemma_pass_cmds_effects(s, width, height, n - 1);
        let passes = s.spec_active_passes();
        let i = n - 1;
        let prev = s.spec_pass_cmds(width, height, i);
        let bind = RenderCmd::Bind {
            target: if i == passes.len() - 1 {
                BindTarget::Entry
            } else {
                BindTarget::PingPong { fbo: s.spec_dest_fbo(i) }
            },
        };
        let draw = RenderCmd::DrawEffect {
            effect: passes[i],
            program: s.spec_effect_program(passes[i]).unwrap().id,
            source: s.spec_source_texture(i),
            width,
            height,
            settings: s.spec_effect_settings(passes[i]),
        };
        assert(s.spec_pass_cmds(width, height, n) == prev + seq![bind, draw]);
        lemma_plan_effects_add(prev, seq![bind, draw]);
        assert(seq![bind, draw].drop_last() =~= seq![bind]);
        assert(seq![bind].drop_last() =~= Seq::<RenderCmd>::empty());
        assert(spec_plan_effects(Seq::<RenderCmd>::empty()) =~= Seq::<PostEffect>::empty());
        assert(spec_plan_effects(seq![bind]) =~= Seq::<PostEffect>::empty());
        assert(spec_plan_effects(seq![bind, draw]) =~= seq![passes[i]]);
        assert(passes.take(n) =~= passes.take(i) + seq![passes[i]]);
    }
}

/// Resolution independence of the pipeline structure: the passes a render
/// call draws, and their order, are the same at every target size and
/// every clock — only the pixels differ, and the pattern itself is
/// resolution-independent by design.
pub proof fn lemma_passes_resolution_independent(
    s: RendererState,
    w1: i32,
    h1: i32,
    t1: u64,
    w2: i32,
    h2: i32,
    t2: u64,
)
    ensures
        spec_plan_effects(s.spec_render_plan(w1, h1, t1)) == spec_plan_effects(
            s.spec_render_plan(w2, h2, t2),
        ),
        spec_plan_effects(s.spec_render_plan(w1, h1, t1)) == s.spec_active_passes(),
{
    lemma_render_plan_effects(s, w1, h1, t1);
    lemma_render_plan_effects(s, w2, h2, t2);
}

/// A render plan draws exactly the active passes, in their fixed order.
proof fn lemma_render_plan_effects(s: RendererState, width: i32, height: i32, t: u64)
    ensures
        spec_plan_effects(s.spec_render_plan(width, height, t)) == s.spec_active_passes(),
{
    let passes = s.spec_active_passes();
    let plan = s.spec_render_plan(width, height, t);
    if passes.len() == 0 {
        assert(plan.drop_last() =~= Seq::<RenderCmd>::empty());
        assert(spec_plan_effects(Seq::<RenderCmd>::empty()) =~= Seq::<PostEffect>::empty());
        assert(spec_plan_effects(plan) =~= Seq::<PostEffect>::empty());
        assert(passes =~= Seq::<PostEffect>::empty());
    } else {
        let head = (if s.pp_fbo_size == (width, height) {
            Seq::<RenderCmd>::empty()
        } else {
            seq![(RenderCmd::ResizeTargets { width, height })]
        }) + seq![
            (RenderCmd::Bind { target: BindTarget::PingPong { fbo: s.pp_fbo_a } }),
            (RenderCmd::DrawPattern { uniforms: s.spec_pattern_uniforms(width, height, t) }),
        ];
        assert(plan =~= head + s.spec_pass_cmds(width, height, passes.len() as int));
        lemma_plan_effects_add(head, s.spec_pass_cmds(width, height, passes.len() as int));
        let pre = if s.pp_fbo_size == (width, height) {
            Seq::<RenderCmd>::empty()
        } else {
            seq![(RenderCmd::ResizeTargets { width, height })]
        };
        let tailcmds = seq![
            (RenderCmd::Bind { target: BindTarget::PingPong { fbo: s.pp_fbo_a } }),
            (RenderCmd::DrawPattern { uniforms: s.spec_pattern_uniforms(width, height, t) }),
        ];
        assert(head =~= pre + tailcmds);
        lemma_plan_effects_add(pre, tailcmds);
        assert(spec_plan_effects(Seq::<RenderCmd>::empty()) =~= Seq::<PostEffect>::empty());
        if s.pp_fbo_size != (width, height) {
            assert(pre.drop_last() =~= Seq::<RenderCmd>::empty());
            assert(spec_plan_effects(pre) =~= Seq::<PostEffect>::empty());
        } else {
            assert(pre =~= Seq::<RenderCmd>::empty());
        }
        assert(tailcmds.drop_last() =~= seq![
            (RenderCmd::Bind { target: BindTarget::PingPong { fbo: s.pp_fbo_a } }),
        ]);
        assert(tailcmds.drop_last().drop_last() =~= Seq::<RenderCmd>::empty());
        assert(spec_plan_effects(tailcmds.drop_last()) =~= Seq::<PostEffect>::empty());
        assert(spec_plan_effects(tailcmds) =~= Seq::<PostEffect>::empty());
        assert(spec_plan_effects(head) =~= Seq::<PostEffect>::empty());
        lemma_pass_cmds_effects(s, width, height, passes.len() as int);
        assert(passes.take(passes.len() as int) =~= passes);
        assert(spec_plan_effects(plan) =~= passes);
    }
}

/// Two renderer states that agree on everything but the pattern program
/// slot and the retained preset name.
pub open spec fn spec_same_but_pattern(a: RendererState, b: RendererState) -> bool {
    &&& a.blur_program == b.blur_program
    &&& a.bloom_program == b.bloom_program
    &&& a.chromatic_program == b.chromatic_program
    &&& a.vao == b.vao
    &&& a.vbo == b.vbo
    &&& a.pp_fbo_a == b.pp_fbo_a
    &&& a.pp_fbo_b == b.pp_fbo_b
    &&& a.pp_texture_a == b.pp_texture_a
    &&& a.pp_texture_b == b.pp_texture_b
    &&& a.pp_fbo_size == b.pp_fbo_size
    &&& a.params == b.params
}

} // verus!
