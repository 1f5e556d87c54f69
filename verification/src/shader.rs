//! Shader source assembly.
//!
//! A fragment program is the fixed version line, a shared preamble (uniform
//! declarations and the per-pixel escape-time and gradient logic), and an
//! injected iteration formula, concatenated in that order. The two built-in
//! formulas and the classification of a source text are defined here.

use vstd::prelude::*;
use vstd::string::StringExecFns;

verus! {

/// Which iteration rule a formula source text denotes: one of the two
/// built-ins, or user-supplied text.
#[derive(Clone, Copy, Debug, PartialEq, Eq, Structural)]
pub enum FormulaKind {
    Mandelbrot,
    Julia,
    Custom,
}

pub open spec fn shader_version_src() -> Seq<char> {
    "#version 330\n"@
}

/// The fixed version line every shader starts with.
pub fn shader_version() -> (r: &'static str)
    ensures
        r@ == shader_version_src(),
{
    "#version 330\n"
}

pub open spec fn mandelbrot_src() -> Seq<char> {
    "
// `z` is the iteratively updated complex number
// `p` is previous value of `z`, `o` is the original value of `z`
vec2 iteration(vec2 p, vec2 o) {
    vec2 z;
    z.x = p.x * p.x - p.y * p.y + o.x;
    z.y = 2. * p.x * p.y + o.y;

    return z;
}
"@
}

/// The built-in Mandelbrot iteration formula.
pub fn mandelbrot_func() -> (r: &'static str)
    ensures
        r@ == mandelbrot_src(),
{
    "
// `z` is the iteratively updated complex number
// `p` is previous value of `z`, `o` is the original value of `z`
vec2 iteration(vec2 p, vec2 o) {
    vec2 z;
    z.x = p.x * p.x - p.y * p.y + o.x;
    z.y = 2. * p.x * p.y + o.y;

    return z;
}
"
}

pub open spec fn julia_src() -> Seq<char> {
    "
vec2 iteration(vec2 previous_z, vec2 original_z) {
    vec2 z;
    z.x = previous_z.x * previous_z.x - previous_z.y * previous_z.y + 0.3;
    z.y = 2. * previous_z.x * previous_z.y - 0.4;

    return z;
}
"@
}

/// The built-in Julia iteration formula, its constant embedded in the text.
pub fn julia_func() -> (r: &'static str)
    ensures
        r@ == julia_src(),
{
    "
vec2 iteration(vec2 previous_z, vec2 original_z) {
    vec2 z;
    z.x = previous_z.x * previous_z.x - previous_z.y * previous_z.y + 0.3;
    z.y = 2. * previous_z.x * previous_z.y - 0.4;

    return z;
}
"
}

pub open spec fn frag_preamble_src() -> Seq<char> {
    "
precision highp float;

uniform vec2 center;
uniform int cycles;
uniform float zoom;
uniform vec2 resolution;
uniform vec2 window_offset;
uniform vec3 start_color;
uniform vec3 end_color;

out vec4 out_color;

vec2 iteration(vec2 previous_z, vec2 original_z);

vec3 hsv2rgb(vec3 c) {
    vec4 k = vec4(1.0, 2.0 / 3.0, 1.0 / 3.0, 3.0);
    vec3 p = abs(fract(c.xxx + k.xyz) * 6.0 - k.www);
    return c.z * mix(k.xxx, clamp(p - k.xxx, 0.0, 1.0), c.y);
}

void main() {
    vec2 uv = (gl_FragCoord.xy - window_offset) / resolution - vec2(0.5, 0.5);
    vec2 z0 = (uv + center) / zoom;
    vec2 z = z0;
    int i = 0;
    for (int n = 0; n < cycles; n++) {
        if (dot(z, z) > 4.0) { break; }
        z = iteration(z, z0);
        i++;
    }
    float t = float(i) / float(cycles);
    vec3 hsv = mix(start_color, end_color, t);
    out_color = vec4(hsv2rgb(hsv), 1.0);
}
"@
}

/// The shared fragment preamble: uniforms, the escape-time loop and the
/// gradient lookup, with the iteration formula left as a forward
/// declaration.
pub fn frag_preamble() -> (r: &'static str)
    ensures
        r@ == frag_preamble_src(),
{
    "
precision highp float;

uniform vec2 center;
uniform int cycles;
uniform float zoom;
uniform vec2 resolution;
uniform vec2 window_offset;
uniform vec3 start_color;
uniform vec3 end_color;

out vec4 out_color;

vec2 iteration(vec2 previous_z, vec2 original_z);

vec3 hsv2rgb(vec3 c) {
    vec4 k = vec4(1.0, 2.0 / 3.0, 1.0 / 3.0, 3.0);
    vec3 p = abs(fract(c.xxx + k.xyz) * 6.0 - k.www);
    return c.z * mix(k.xxx, clamp(p - k.xxx, 0.0, 1.0), c.y);
}

void main() {
    vec2 uv = (gl_FragCoord.xy - window_offset) / resolution - vec2(0.5, 0.5);
    vec2 z0 = (uv + center) / zoom;
    vec2 z = z0;
    int i = 0;
    for (int n = 0; n < cycles; n++) {
        if (dot(z, z) > 4.0) { break; }
        z = iteration(z, z0);
        i++;
    }
    float t = float(i) / float(cycles);
    vec3 hsv = mix(start_color, end_color, t);
    out_color = vec4(hsv2rgb(hsv), 1.0);
}
"
}

pub open spec fn vertex_body_src() -> Seq<char> {
    "
const vec2 verts[6] = vec2[6](
    vec2(-1.0, -1.0),
    vec2(1.0, 1.0),
    vec2(1.0, -1.0),
    vec2(-1.0, -1.0),
    vec2(-1.0, 1.0),
    vec2(1.0, 1.0)
);
void main() {
    gl_Position = vec4(verts[gl_VertexID], 0.0, 1.0);
}
"@
}

/// The fixed full-screen-quad vertex shader body.
pub fn vertex_body() -> (r: &'static str)
    ensures
        r@ == vertex_body_src(),
{
    "
const vec2 verts[6] = vec2[6](
    vec2(-1.0, -1.0),
    vec2(1.0, 1.0),
    vec2(1.0, -1.0),
    vec2(-1.0, -1.0),
    vec2(-1.0, 1.0),
    vec2(1.0, 1.0)
);
void main() {
    gl_Position = vec4(verts[gl_VertexID], 0.0, 1.0);
}
"
}

/// The complete fragment source for a formula: version line, shared
/// preamble, then the formula text, in that order.
pub open spec fn spec_fragment_source(formula: Seq<char>) -> Seq<char> {
    shader_version_src() + frag_preamble_src() + formula
}

pub fn fragment_source(formula: &str) -> (r: String)
    ensures
        r@ == spec_fragment_source(formula@),
{
    let mut s = String::from_str(shader_version());
    s.append(frag_preamble());
    s.append(formula);
    s
}

/// The complete vertex source: version line, then the fixed body.
pub open spec fn spec_vertex_source() -> Seq<char> {
    shader_version_src() + vertex_body_src()
}

pub fn vertex_source() -> (r: String)
    ensures
        r@ == spec_vertex_source(),
{
    let mut s = String::from_str(shader_version());
    s.append(vertex_body());
    s
}

pub open spec fn spec_formula_kind(s: Seq<char>) -> FormulaKind {
    if s == mandelbrot_src() {
        FormulaKind::Mandelbrot
    } else if s == julia_src() {
        FormulaKind::Julia
    } else {
        FormulaKind::Custom
    }
}

/// Classify a formula source text against the two built-ins.
pub fn formula_kind(source: &str) -> (r: FormulaKind)
    ensures
        r == spec_formula_kind(source@),
{
    let s = String::from_str(source);
    if s == String::from_str(mandelbrot_func()) {
        FormulaKind::Mandelbrot
    } else if s == String::from_str(julia_func()) {
        FormulaKind::Julia
    } else {
        FormulaKind::Custom
    }
}

/// A compiler diagnostic that is never empty: an empty driver log is
/// replaced by a fixed message.
pub fn non_empty_log(log: String) -> (r: String)
    ensures
        r@.len() > 0,
        log@.len() > 0 ==> r@ == log@,
{
    if log == String::new() {
        let msg = "shader compilation failed";
        proof {
            reveal_strlit("shader compilation failed");
        }
        String::from_str(msg)
    } else {
        proof {
            if log@.len() == 0 {
                assert(log@ =~= Seq::<char>::empty());
            }
        }
        log
    }
}

} // verus!
