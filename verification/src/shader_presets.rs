//! The shader source registry: preset names mapped to vertex/fragment
//! source text, the post-process fragment sources under fixed identifiers,
//! and per-preset UI-control metadata. Pure data; the source strings are
//! opaque to the pipeline.

use vstd::prelude::*;

use crate::text::str_eq;

verus! {

/// Shared vertex shader: fullscreen-quad passthrough.
pub const VERTEX_SRC: &'static str = "#version 330 core
layout(location = 0) in vec2 aPos;
void main() {
    gl_Position = vec4(aPos, 0.0, 1.0);
}
";

/// Fragment source of the `Bars` preset: a rotated four-color gradient.
pub const GRADIENT_FRAG: &'static str = "#version 330 core
uniform vec3 iResolution;
uniform float iTime;
uniform float uAngle;
uniform vec3 uColor1;
uniform vec3 uColor2;
uniform vec3 uColor3;
uniform vec3 uColor4;
uniform float uBlend;
uniform float uSwirl;
uniform float uNoise;
uniform float uDither;

vec2 swirlUV(vec2 uv) {
    vec2 c = uv - 0.5;
    float r = length(c);
    float angle = uSwirl * (1.0 - r);
    float ca = cos(angle);
    float sa = sin(angle);
    return vec2(ca * c.x - sa * c.y, sa * c.x + ca * c.y) + 0.5;
}

vec3 paletteColor(float t) {
    t = clamp(t, 0.0, 1.0);
    float fw = uBlend * 0.25;
    float f1 = (fw > 0.0001) ? smoothstep(0.25 - fw, 0.25 + fw, t) : step(0.25, t);
    float f2 = (fw > 0.0001) ? smoothstep(0.50 - fw, 0.50 + fw, t) : step(0.50, t);
    float f3 = (fw > 0.0001) ? smoothstep(0.75 - fw, 0.75 + fw, t) : step(0.75, t);
    vec3 color = uColor1;
    color = mix(color, uColor2, f1);
    color = mix(color, uColor3, f2);
    color = mix(color, uColor4, f3);
    return color;
}

float hash(vec2 p) {
    vec3 p3 = fract(vec3(p.xyx) * 0.1031);
    p3 += dot(p3, p3.yzx + 33.33);
    return fract((p3.x + p3.y) * p3.z);
}

float bayer4x4(vec2 p) {
    ivec2 i = ivec2(p) & 3;
    int idx = i.x + i.y * 4;
    int b[16] = int[16](0,8,2,10,12,4,14,6,3,11,1,9,15,7,13,5);
    return float(b[idx]) / 16.0;
}

vec3 applyDither(vec3 color, vec2 fragCoord) {
    if (uDither < 0.5) return color;
    float levels = 4.0;
    float threshold = bayer4x4(fragCoord) - 0.5;
    float step_ = 1.0 / levels;
    return floor(color / step_ + threshold + 0.5) * step_;
}

out vec4 fragColor;

void main() {
    vec2 uv = swirlUV(gl_FragCoord.xy / iResolution.xy);
    vec2 dir = vec2(cos(uAngle), sin(uAngle));
    float t = dot(uv - 0.5, dir) + 0.5;
    t = clamp(t, 0.0, 1.0);
    vec3 color = paletteColor(t);
    float n = hash(gl_FragCoord.xy);
    color += n * uNoise * 0.3;
    color = clamp(color, 0.0, 1.0);
    color = applyDither(color, gl_FragCoord.xy);
    fragColor = vec4(color, 1.0);
}
";

/// Fragment source of the `Plasma` preset: layered moving sine fields.
pub const PLASMA_FRAG: &'static str = "#version 330 core
uniform vec3 iResolution;
uniform float iTime;
uniform float uScale;
uniform float uSpeed;
uniform vec3 uColor1;
uniform vec3 uColor2;
uniform vec3 uColor3;
uniform vec3 uColor4;
uniform float uBlend;
uniform float uSwirl;
uniform float uNoise;
uniform float uDither;

vec2 swirlUV(vec2 uv) {
    vec2 c = uv - 0.5;
    float r = length(c);
    float angle = uSwirl * (1.0 - r);
    float ca = cos(angle);
    float sa = sin(angle);
    return vec2(ca * c.x - sa * c.y, sa * c.x + ca * c.y) + 0.5;
}

vec3 paletteColor(float t) {
    t = clamp(t, 0.0, 1.0);
    float fw = uBlend * 0.25;
    float f1 = (fw > 0.0001) ? smoothstep(0.25 - fw, 0.25 + fw, t) : step(0.25, t);
    float f2 = (fw > 0.0001) ? smoothstep(0.50 - fw, 0.50 + fw, t) : step(0.50, t);
    float f3 = (fw > 0.0001) ? smoothstep(0.75 - fw, 0.75 + fw, t) : step(0.75, t);
    vec3 color = uColor1;
    color = mix(color, uColor2, f1);
    color = mix(color, uColor3, f2);
    color = mix(color, uColor4, f3);
    return color;
}

float hash(vec2 p) {
    vec3 p3 = fract(vec3(p.xyx) * 0.1031);
    p3 += dot(p3, p3.yzx + 33.33);
    return fract((p3.x + p3.y) * p3.z);
}

float bayer4x4(vec2 p) {
    ivec2 i = ivec2(p) & 3;
    int idx = i.x + i.y * 4;
    int b[16] = int[16](0,8,2,10,12,4,14,6,3,11,1,9,15,7,13,5);
    return float(b[idx]) / 16.0;
}

vec3 applyDither(vec3 color, vec2 fragCoord) {
    if (uDither < 0.5) return color;
    float levels = 4.0;
    float threshold = bayer4x4(fragCoord) - 0.5;
    float step_ = 1.0 / levels;
    return floor(color / step_ + threshold + 0.5) * step_;
}

out vec4 fragColor;

void main() {
    vec2 uv = swirlUV(gl_FragCoord.xy / iResolution.xy);
    float time = uSpeed;

    float v = 0.0;
    vec2 p = (uv - 0.5) * uScale * 10.0;

    v += sin(p.x + time);
    v += sin((p.y + time) * 0.5);
    v += sin((p.x + p.y + time) * 0.5);

    float cx = p.x + 0.5 * sin(time * 0.33);
    float cy = p.y + 0.5 * cos(time * 0.5);
    v += sin(sqrt(cx * cx + cy * cy + 1.0) + time);

    v = v * 0.5;
    float t = sin(v * 3.14159) * 0.5 + 0.5;

    vec3 color = paletteColor(t);
    float n = hash(gl_FragCoord.xy);
    color += n * uNoise * 0.3;
    color = clamp(color, 0.0, 1.0);
    color = applyDither(color, gl_FragCoord.xy);
    fragColor = vec4(color, 1.0);
}
";

/// Fragment source of the `Waves` preset: rotated layered sine waves.
pub const WAVES_FRAG: &'static str = "#version 330 core
uniform vec3 iResolution;
uniform float iTime;
uniform float uAngle;
uniform float uScale;
uniform float uSpeed;
uniform vec3 uColor1;
uniform vec3 uColor2;
uniform vec3 uColor3;
uniform vec3 uColor4;
uniform float uBlend;
uniform float uSwirl;
uniform float uNoise;
uniform float uDither;

vec2 swirlUV(vec2 uv) {
    vec2 c = uv - 0.5;
    float r = length(c);
    float angle = uSwirl * (1.0 - r);
    float ca = cos(angle);
    float sa = sin(angle);
    return vec2(ca * c.x - sa * c.y, sa * c.x + ca * c.y) + 0.5;
}

vec3 paletteColor(float t) {
    t = clamp(t, 0.0, 1.0);
    float fw = uBlend * 0.25;
    float f1 = (fw > 0.0001) ? smoothstep(0.25 - fw, 0.25 + fw, t) : step(0.25, t);
    float f2 = (fw > 0.0001) ? smoothstep(0.50 - fw, 0.50 + fw, t) : step(0.50, t);
    float f3 = (fw > 0.0001) ? smoothstep(0.75 - fw, 0.75 + fw, t) : step(0.75, t);
    vec3 color = uColor1;
    color = mix(color, uColor2, f1);
    color = mix(color, uColor3, f2);
    color = mix(color, uColor4, f3);
    return color;
}

float hash(vec2 p) {
    vec3 p3 = fract(vec3(p.xyx) * 0.1031);
    p3 += dot(p3, p3.yzx + 33.33);
    return fract((p3.x + p3.y) * p3.z);
}

float bayer4x4(vec2 p) {
    ivec2 i = ivec2(p) & 3;
    int idx = i.x + i.y * 4;
    int b[16] = int[16](0,8,2,10,12,4,14,6,3,11,1,9,15,7,13,5);
    return float(b[idx]) / 16.0;
}

vec3 applyDither(vec3 color, vec2 fragCoord) {
    if (uDither < 0.5) return color;
    float levels = 4.0;
    float threshold = bayer4x4(fragCoord) - 0.5;
    float step_ = 1.0 / levels;
    return floor(color / step_ + threshold + 0.5) * step_;
}

out vec4 fragColor;

void main() {
    vec2 uv = swirlUV(gl_FragCoord.xy / iResolution.xy);
    float time = uSpeed;

    vec2 center = uv - 0.5;
    float ca = cos(uAngle);
    float sa = sin(uAngle);
    vec2 ruv = vec2(ca * center.x - sa * center.y,
                    sa * center.x + ca * center.y);
    ruv += 0.5;

    float wave = 0.0;
    wave += sin(ruv.x * uScale * 20.0 + time * 2.0) * 0.25;
    wave += sin(ruv.x * uScale * 10.0 - time * 1.5 + ruv.y * 5.0) * 0.25;
    wave += sin(ruv.y * uScale * 15.0 + time * 1.0) * 0.15;
    wave += sin(length(center) * uScale * 15.0 - time * 2.0) * 0.2;

    float t = wave + ruv.y;
    t = clamp(t, 0.0, 1.0);
    t = t * t * (3.0 - 2.0 * t);

    vec3 color = paletteColor(t);
    float n = hash(gl_FragCoord.xy);
    color += n * uNoise * 0.3;
    color = clamp(color, 0.0, 1.0);
    color = applyDither(color, gl_FragCoord.xy);
    fragColor = vec4(color, 1.0);
}
";

/// Fragment source of the `Terrain` preset: smooth gradient-noise hills.
pub const TERRAIN_FRAG: &'static str = "#version 330 core
uniform vec3 iResolution;
uniform float iTime;
uniform float uScale;
uniform float uSpeed;
uniform vec3 uColor1;
uniform vec3 uColor2;
uniform vec3 uColor3;
uniform vec3 uColor4;
uniform float uBlend;
uniform float uSwirl;
uniform float uNoise;
uniform float uDither;

vec2 swirlUV(vec2 uv) {
    vec2 c = uv - 0.5;
    float r = length(c);
    float angle = uSwirl * (1.0 - r);
    float ca = cos(angle);
    float sa = sin(angle);
    return vec2(ca * c.x - sa * c.y, sa * c.x + ca * c.y) + 0.5;
}

vec3 paletteColor(float t) {
    t = clamp(t, 0.0, 1.0);
    float fw = uBlend * 0.25;
    float f1 = (fw > 0.0001) ? smoothstep(0.25 - fw, 0.25 + fw, t) : step(0.25, t);
    float f2 = (fw > 0.0001) ? smoothstep(0.50 - fw, 0.50 + fw, t) : step(0.50, t);
    float f3 = (fw > 0.0001) ? smoothstep(0.75 - fw, 0.75 + fw, t) : step(0.75, t);
    vec3 color = uColor1;
    color = mix(color, uColor2, f1);
    color = mix(color, uColor3, f2);
    color = mix(color, uColor4, f3);
    return color;
}

float hash(vec2 p) {
    vec3 p3 = fract(vec3(p.xyx) * 0.1031);
    p3 += dot(p3, p3.yzx + 33.33);
    return fract((p3.x + p3.y) * p3.z);
}

float bayer4x4(vec2 p) {
    ivec2 i = ivec2(p) & 3;
    int idx = i.x + i.y * 4;
    int b[16] = int[16](0,8,2,10,12,4,14,6,3,11,1,9,15,7,13,5);
    return float(b[idx]) / 16.0;
}

vec3 applyDither(vec3 color, vec2 fragCoord) {
    if (uDither < 0.5) return color;
    float levels = 4.0;
    float threshold = bayer4x4(fragCoord) - 0.5;
    float step_ = 1.0 / levels;
    return floor(color / step_ + threshold + 0.5) * step_;
}

vec2 hash2(vec2 p) {
    p = vec2(dot(p, vec2(127.1, 311.7)),
             dot(p, vec2(269.5, 183.3)));
    return -1.0 + 2.0 * fract(sin(p) * 43758.5453123);
}

float gnoise(vec2 p) {
    vec2 i = floor(p);
    vec2 f = fract(p);
    vec2 u = f * f * f * (f * (f * 6.0 - 15.0) + 10.0);

    float a = dot(hash2(i + vec2(0.0, 0.0)), f - vec2(0.0, 0.0));
    float b = dot(hash2(i + vec2(1.0, 0.0)), f - vec2(1.0, 0.0));
    float c = dot(hash2(i + vec2(0.0, 1.0)), f - vec2(0.0, 1.0));
    float d = dot(hash2(i + vec2(1.0, 1.0)), f - vec2(1.0, 1.0));

    return mix(mix(a, b, u.x), mix(c, d, u.x), u.y) * 0.5 + 0.5;
}

float fbm(vec2 p) {
    return gnoise(p);
}

out vec4 fragColor;

void main() {
    vec2 uv = swirlUV(gl_FragCoord.xy / iResolution.xy);

    vec2 p = (uv - 0.5) * uScale * 2.0;
    p += vec2(uSpeed * 1.7, uSpeed * 1.3);

    float height = fbm(p);
    height = clamp((height - 0.15) * 1.4, 0.0, 1.0);
    height = height * height * (3.0 - 2.0 * height);
    height = height * height * (3.0 - 2.0 * height);

    vec3 color = paletteColor(height);

    float n = hash(gl_FragCoord.xy);
    color += n * uNoise * 0.3;
    color = clamp(color, 0.0, 1.0);
    color = applyDither(color, gl_FragCoord.xy);
    fragColor = vec4(color, 1.0);
}
";

/// Fragment source of the `Circle` preset: concentric palette rings.
pub const CONCENTRIC_FRAG: &'static str = "#version 330 core
uniform vec3 iResolution;
uniform float iTime;
uniform float uScale;
uniform float uCenter;
uniform vec3 uColor1;
uniform vec3 uColor2;
uniform vec3 uColor3;
uniform vec3 uColor4;
uniform float uBlend;
uniform float uSwirl;
uniform float uNoise;
uniform float uDither;

vec2 swirlUV(vec2 uv) {
    vec2 c = uv - 0.5;
    float r = length(c);
    float angle = uSwirl * (1.0 - r);
    float ca = cos(angle);
    float sa = sin(angle);
    return vec2(ca * c.x - sa * c.y, sa * c.x + ca * c.y) + 0.5;
}

vec3 paletteColor(float t) {
    t = clamp(t, 0.0, 1.0);
    float fw = uBlend * 0.25;
    float f1 = (fw > 0.0001) ? smoothstep(0.25 - fw, 0.25 + fw, t) : step(0.25, t);
    float f2 = (fw > 0.0001) ? smoothstep(0.50 - fw, 0.50 + fw, t) : step(0.50, t);
    float f3 = (fw > 0.0001) ? smoothstep(0.75 - fw, 0.75 + fw, t) : step(0.75, t);
    vec3 color = uColor1;
    color = mix(color, uColor2, f1);
    color = mix(color, uColor3, f2);
    color = mix(color, uColor4, f3);
    return color;
}

float hash(vec2 p) {
    vec3 p3 = fract(vec3(p.xyx) * 0.1031);
    p3 += dot(p3, p3.yzx + 33.33);
    return fract((p3.x + p3.y) * p3.z);
}

float bayer4x4(vec2 p) {
    ivec2 i = ivec2(p) & 3;
    int idx = i.x + i.y * 4;
    int b[16] = int[16](0,8,2,10,12,4,14,6,3,11,1,9,15,7,13,5);
    return float(b[idx]) / 16.0;
}

vec3 applyDither(vec3 color, vec2 fragCoord) {
    if (uDither < 0.5) return color;
    float levels = 4.0;
    float threshold = bayer4x4(fragCoord) - 0.5;
    float step_ = 1.0 / levels;
    return floor(color / step_ + threshold + 0.5) * step_;
}

out vec4 fragColor;

void main() {
    vec2 uv = swirlUV(gl_FragCoord.xy / iResolution.xy);

    vec2 center = vec2(0.5 + uCenter * 0.4, 0.5);

    float d = length(uv - center);

    float t = clamp(d * uScale, 0.0, 1.0);

    vec3 color = paletteColor(t);

    float n = hash(gl_FragCoord.xy);
    color += n * uNoise * 0.3;
    color = clamp(color, 0.0, 1.0);
    color = applyDither(color, gl_FragCoord.xy);
    fragColor = vec4(color, 1.0);
}
";

/// Post-process fragment source for the blur pass.
pub const BLUR_FRAG: &'static str = "#version 330 core
uniform vec3 iResolution;
uniform sampler2D uSceneTexture;
uniform int uBlurType;
uniform float uBlurStrength;
uniform float uBlurAngle;

out vec4 fragColor;

void main() {
    vec2 uv = gl_FragCoord.xy / iResolution.xy;
    if (uBlurType == 0) {
        fragColor = texture(uSceneTexture, uv);
        return;
    }
    vec2 texel = 1.0 / iResolution.xy;
    vec3 acc = vec3(0.0);
    float total = 0.0;
    float radius = uBlurStrength * 8.0;
    if (uBlurType == 2) {
        vec2 dir = vec2(cos(uBlurAngle), sin(uBlurAngle));
        for (int s = -8; s <= 8; s++) {
            vec2 offset = dir * texel * radius * (float(s) / 8.0);
            acc += texture(uSceneTexture, uv + offset).rgb;
            total += 1.0;
        }
    } else {
        for (int x = -3; x <= 3; x++) {
            for (int y = -3; y <= 3; y++) {
                vec2 offset = vec2(float(x), float(y)) * texel * radius * 0.33;
                acc += texture(uSceneTexture, uv + offset).rgb;
                total += 1.0;
            }
        }
    }
    fragColor = vec4(acc / total, 1.0);
}
";

/// Post-process fragment source for the bloom pass.
pub const BLOOM_FRAG: &'static str = "#version 330 core
uniform vec3 iResolution;
uniform sampler2D uSceneTexture;
uniform float uBloomThreshold;
uniform float uBloomIntensity;

out vec4 fragColor;

void main() {
    vec2 uv = gl_FragCoord.xy / iResolution.xy;
    vec2 texel = 1.0 / iResolution.xy;
    vec3 base = texture(uSceneTexture, uv).rgb;
    vec3 glow = vec3(0.0);
    float total = 0.0;
    for (int x = -4; x <= 4; x++) {
        for (int y = -4; y <= 4; y++) {
            vec2 offset = vec2(float(x), float(y)) * texel * 2.0;
            vec3 sample_ = texture(uSceneTexture, uv + offset).rgb;
            float lum = dot(sample_, vec3(0.299, 0.587, 0.114));
            glow += sample_ * max(lum - uBloomThreshold, 0.0);
            total += 1.0;
        }
    }
    fragColor = vec4(base + glow / total * uBloomIntensity, 1.0);
}
";

/// Post-process fragment source for the chromatic-aberration pass.
pub const CHROMATIC_FRAG: &'static str = "#version 330 core
uniform vec3 iResolution;
uniform sampler2D uSceneTexture;
uniform float uChromaticStrength;
uniform float uChromaticAngle;

out vec4 fragColor;

void main() {
    vec2 uv = gl_FragCoord.xy / iResolution.xy;
    vec2 dir = vec2(cos(uChromaticAngle), sin(uChromaticAngle));
    vec2 offset = dir * uChromaticStrength * 0.01;
    float r = texture(uSceneTexture, uv + offset).r;
    float g = texture(uSceneTexture, uv).g;
    float b = texture(uSceneTexture, uv - offset).b;
    fragColor = vec4(r, g, b, 1.0);
}
";

/// Whether a name is registered in the shader source registry.
pub open spec fn is_preset_name(n: Seq<char>) -> bool {
    ||| n == "Bars"@
    ||| n == "Circle"@
    ||| n == "Plasma"@
    ||| n == "Waves"@
    ||| n == "Terrain"@
}

/// The registered preset names, in display order.
pub open spec fn spec_preset_names() -> Seq<Seq<char>> {
    seq!["Bars"@, "Circle"@, "Plasma"@, "Waves"@, "Terrain"@]
}

/// The registry maps every registered name to its fragment source.
pub open spec fn spec_fragment_source(n: Seq<char>) -> Seq<char> {
    if n == "Bars"@ {
        GRADIENT_FRAG@
    } else if n == "Plasma"@ {
        PLASMA_FRAG@
    } else if n == "Waves"@ {
        WAVES_FRAG@
    } else if n == "Terrain"@ {
        TERRAIN_FRAG@
    } else if n == "Circle"@ {
        CONCENTRIC_FRAG@
    } else {
        Seq::empty()
    }
}

/// The five registered preset names are pairwise distinct strings.
pub proof fn lemma_preset_literals_distinct()
    ensures
        "Bars"@ != "Circle"@,
        "Bars"@ != "Plasma"@,
        "Bars"@ != "Waves"@,
        "Bars"@ != "Terrain"@,
        "Circle"@ != "Plasma"@,
        "Circle"@ != "Waves"@,
        "Circle"@ != "Terrain"@,
        "Plasma"@ != "Waves"@,
        "Plasma"@ != "Terrain"@,
        "Waves"@ != "Terrain"@,
{
    reveal_strlit("Bars");
    reveal_strlit("Circle");
    reveal_strlit("Plasma");
    reveal_strlit("Waves");
    reveal_strlit("Terrain");
    assert("Bars"@.len() == 4);
    assert("Circle"@.len() == 6);
    assert("Plasma"@.len() == 6);
    assert("Waves"@.len() == 5);
    assert("Terrain"@.len() == 7);
    assert("Circle"@[0] == 'C');
    assert("Plasma"@[0] == 'P');
}

/// Every name in the registry's display list resolves to a source: the
/// registry is complete over its own name list.
pub proof fn lemma_registry_complete()
    ensures
        forall|i: int|
            0 <= i < spec_preset_names().len() ==> is_preset_name(#[trigger] spec_preset_names()[i]),
{
}

/// Names of all available presets, in display order.
pub fn preset_names() -> (r: Vec<&'static str>)
    ensures
        r@.len() == 5,
        r@[0]@ == "Bars"@,
        r@[1]@ == "Circle"@,
        r@[2]@ == "Plasma"@,
        r@[3]@ == "Waves"@,
        r@[4]@ == "Terrain"@,
{
    let mut v: Vec<&'static str> = Vec::new();
    v.push("Bars");
    v.push("Circle");
    v.push("Plasma");
    v.push("Waves");
    v.push("Terrain");
    v
}

/// The shared vertex shader source (fullscreen quad passthrough).
pub fn vertex_shader_source() -> (r: String)
    ensures
        r@ == VERTEX_SRC@,
{
    VERTEX_SRC.to_owned()
}

/// The fragment shader source for a given preset name; `None` exactly for
/// names the registry does not hold.
pub fn fragment_source_for(name: &str) -> (r: Option<String>)
    ensures
        r is Some <==> is_preset_name(name@),
        r is Some ==> r.unwrap()@ == spec_fragment_source(name@),
{
    proof {
        lemma_preset_literals_distinct();
    }
    if str_eq(name, "Bars") {
        Some(GRADIENT_FRAG.to_owned())
    } else if str_eq(name, "Plasma") {
        Some(PLASMA_FRAG.to_owned())
    } else if str_eq(name, "Waves") {
        Some(WAVES_FRAG.to_owned())
    } else if str_eq(name, "Terrain") {
        Some(TERRAIN_FRAG.to_owned())
    } else if str_eq(name, "Circle") {
        Some(CONCENTRIC_FRAG.to_owned())
    } else {
        None
    }
}

/// The blur pass fragment source.
pub fn blur_fragment_source() -> (r: String)
    ensures
        r@ == BLUR_FRAG@,
{
    BLUR_FRAG.to_owned()
}

/// The bloom pass fragment source.
pub fn bloom_fragment_source() -> (r: String)
    ensures
        r@ == BLOOM_FRAG@,
{
    BLOOM_FRAG.to_owned()
}

/// The chromatic-aberration pass fragment source.
pub fn chromatic_fragment_source() -> (r: String)
    ensures
        r@ == CHROMATIC_FRAG@,
{
    CHROMATIC_FRAG.to_owned()
}

/// An inclusive slider range in fixed-point thousandths.
#[derive(Debug, Clone, Copy, PartialEq, Eq, Structural)]
pub struct ControlRange {
    pub min_milli: i32,
    pub max_milli: i32,
    pub step_milli: i32,
    pub default_milli: i32,
}

/// Which UI controls a preset uses, and the slider ranges for the scale
/// and speed/time parameters.
#[derive(Debug, Clone, Copy)]
pub struct PresetControls {
    pub has_angle: bool,
    pub has_scale: bool,
    pub has_speed: bool,
    pub has_center: bool,
    /// Label for the speed/time slider.
    pub speed_label: &'static str,
    pub speed_range: ControlRange,
    pub scale_range: ControlRange,
}

pub open spec fn spec_has_angle(n: Seq<char>) -> bool {
    n == "Bars"@ || n == "Waves"@ || !is_preset_name(n)
}

pub open spec fn spec_has_scale(n: Seq<char>) -> bool {
    is_preset_name(n) && n != "Bars"@
}

pub open spec fn spec_has_speed(n: Seq<char>) -> bool {
    n == "Plasma"@ || n == "Waves"@ || n == "Terrain"@
}

pub open spec fn spec_has_center(n: Seq<char>) -> bool {
    n == "Circle"@
}

pub open spec fn spec_speed_label(n: Seq<char>) -> Seq<char> {
    if n == "Bars"@ || !is_preset_name(n) {
        "Speed"@
    } else {
        "Time"@
    }
}

pub open spec fn spec_speed_range(n: Seq<char>) -> ControlRange {
    if n == "Bars"@ || !is_preset_name(n) {
        ControlRange { min_milli: 0, max_milli: 3_000, step_milli: 100, default_milli: 1_000 }
    } else {
        ControlRange { min_milli: 0, max_milli: 20_000, step_milli: 100, default_milli: 0 }
    }
}

pub open spec fn spec_scale_range(n: Seq<char>) -> ControlRange {
    if n == "Terrain"@ {
        ControlRange { min_milli: 100, max_milli: 2_000, step_milli: 10, default_milli: 500 }
    } else if n == "Circle"@ {
        ControlRange { min_milli: 500, max_milli: 3_000, step_milli: 100, default_milli: 1_000 }
    } else {
        ControlRange { min_milli: 100, max_milli: 5_000, step_milli: 100, default_milli: 1_000 }
    }
}

/// The UI-control metadata of a preset; unregistered names get the
/// conservative default set.
pub fn controls_for(name: &str) -> (r: PresetControls)
    ensures
        r.has_angle == spec_has_angle(name@),
        r.has_scale == spec_has_scale(name@),
        r.has_speed == spec_has_speed(name@),
        r.has_center == spec_has_center(name@),
        r.speed_label@ == spec_speed_label(name@),
        r.speed_range == spec_speed_range(name@),
        r.scale_range == spec_scale_range(name@),
{
    proof {
        lemma_preset_literals_distinct();
    }
    if str_eq(name, "Bars") {
        PresetControls {
            has_angle: true,
            has_scale: false,
            has_speed: false,
            has_center: false,
            speed_label: "Speed",
            speed_range: ControlRange {
                min_milli: 0,
                max_milli: 3_000,
                step_milli: 100,
                default_milli: 1_000,
            },
            scale_range: ControlRange {
                min_milli: 100,
                max_milli: 5_000,
                step_milli: 100,
                default_milli: 1_000,
            },
        }
    } else if str_eq(name, "Plasma") {
        PresetControls {
            has_angle: false,
            has_scale: true,
            has_speed: true,
            has_center: false,
            speed_label: "Time",
            speed_range: ControlRange {
                min_milli: 0,
                max_milli: 20_000,
                step_milli: 100,
                default_milli: 0,
            },
            scale_range: ControlRange {
                min_milli: 100,
                max_milli: 5_000,
                step_milli: 100,
                default_milli: 1_000,
            },
        }
    } else if str_eq(name, "Waves") {
        PresetControls {
            has_angle: true,
            has_scale: true,
            has_speed: true,
            has_center: false,
            speed_label: "Time",
            speed_range: ControlRange {
                min_milli: 0,
                max_milli: 20_000,
                step_milli: 100,
                default_milli: 0,
            },
            scale_range: ControlRange {
                min_milli: 100,
                max_milli: 5_000,
                step_milli: 100,
                default_milli: 1_000,
            },
        }
    } else if str_eq(name, "Terrain") {
        PresetControls {
            has_angle: false,
            has_scale: true,
            has_speed: true,
            has_center: false,
            speed_label: "Time",
            speed_range: ControlRange {
                min_milli: 0,
                max_milli: 20_000,
                step_milli: 100,
                default_milli: 0,
            },
            scale_range: ControlRange {
                min_milli: 100,
                max_milli: 2_000,
                step_milli: 10,
                default_milli: 500,
            },
        }
    } else if str_eq(name, "Circle") {
        PresetControls {
            has_angle: false,
            has_scale: true,
            has_speed: false,
            has_center: true,
            speed_label: "Time",
            speed_range: ControlRange {
                min_milli: 0,
                max_milli: 20_000,
                step_milli: 100,
                default_milli: 0,
            },
            scale_range: ControlRange {
                min_milli: 500,
                max_milli: 3_000,
                step_milli: 100,
                default_milli: 1_000,
            },
        }
    } else {
        PresetControls {
            has_angle: true,
            has_scale: false,
            has_speed: false,
            has_center: false,
            speed_label: "Speed",
            speed_range: ControlRange {
                min_milli: 0,
                max_milli: 3_000,
                step_milli: 100,
                default_milli: 1_000,
            },
            scale_range: ControlRange {
                min_milli: 100,
                max_milli: 5_000,
                step_milli: 100,
                default_milli: 1_000,
            },
        }
    }
}

} // verus!
