use fractal_core::frac::Frac;
use fractal_core::gpu::Gpu;
use fractal_core::renderer::{CompileOutcome, Renderer, SwapVerdict};
use fractal_core::shader::{
    formula_kind, fragment_source, frag_preamble, julia_func, mandelbrot_func, shader_version,
    vertex_body, vertex_source, FormulaKind,
};
use fractal_core::transform::{Vec2q, Viewport};
use fractal_core::uniform::UniformData;

fn rejected(text: &str) -> CompileOutcome {
    CompileOutcome::Rejected(text.to_string())
}

fn verdict_ok() -> SwapVerdict {
    SwapVerdict::accepted()
}

#[test]
fn fragment_source_is_version_preamble_formula() {
    let m = mandelbrot_func();
    let assembled = fragment_source(m);
    let expect = format!("{}{}{}", shader_version(), frag_preamble(), m);
    assert_eq!(assembled, expect);
    let v = vertex_source();
    assert_eq!(v, format!("{}{}", shader_version(), vertex_body()));
}

#[test]
fn formula_kind_classifies_builtins() {
    assert_eq!(formula_kind(mandelbrot_func()), FormulaKind::Mandelbrot);
    assert_eq!(formula_kind(julia_func()), FormulaKind::Julia);
    assert_eq!(
        formula_kind("vec2 iteration(vec2 p, vec2 o) { return p; }"),
        FormulaKind::Custom
    );
}

#[test]
fn defaults_are_mandelbrot_framing() {
    let ud = UniformData::defaults();
    assert!(ud.zoom.eqv(&Frac::new(1, 5)));
    assert_eq!(ud.cycles, 100);
    assert_eq!(ud.center.x.num, 0);
    assert_eq!(ud.center.y.num, 0);
    // white-to-black gradient
    assert!(ud.start_color.h.eqv(&Frac::one()));
    assert!(ud.start_color.s.eqv(&Frac::zero()));
    assert!(ud.start_color.v.eqv(&Frac::one()));
    assert!(ud.end_color.h.eqv(&Frac::zero()));
    assert!(ud.end_color.s.eqv(&Frac::zero()));
    assert!(ud.end_color.v.eqv(&Frac::zero()));
}

#[test]
fn with_viewport_scales_by_pixel_ratio() {
    let ud = UniformData::defaults();
    let vp = Viewport::new(
        Vec2q::new(Frac::new(10, 1), Frac::new(20, 1)),
        Vec2q::new(Frac::new(300, 1), Frac::new(200, 1)),
    );
    let out = ud.with_viewport(&vp, Frac::new(2, 1));
    assert!(out.resolution.x.eqv(&Frac::new(600, 1)));
    assert!(out.resolution.y.eqv(&Frac::new(400, 1)));
    assert!(out.window_offset.x.eqv(&Frac::new(20, 1)));
    assert!(out.window_offset.y.eqv(&Frac::new(40, 1)));
}

#[test]
fn degenerate_viewport_skips_the_update() {
    let ud = UniformData::defaults();
    let vp = Viewport::new(
        Vec2q::new(Frac::new(10, 1), Frac::new(20, 1)),
        Vec2q::new(Frac::zero(), Frac::new(200, 1)),
    );
    let out = ud.with_viewport(&vp, Frac::new(2, 1));
    assert_eq!(out.resolution.x.num, 0);
    assert_eq!(out.window_offset.x.num, 0);
}

#[test]
fn new_renderer_owns_one_program_and_quad() {
    let mut gpu = Gpu::new();
    let r = Renderer::new(&mut gpu);
    assert_eq!(r.kind, FormulaKind::Mandelbrot);
    assert_eq!(gpu.programs.len(), 1);
    assert_eq!(gpu.programs[0], r.program);
    assert_eq!(gpu.vertex_arrays.len(), 1);
    assert_eq!(gpu.shaders.len(), 0);
}

#[test]
fn successful_swap_adopts_the_new_formula() {
    let mut gpu = Gpu::new();
    let mut r = Renderer::new(&mut gpu);
    let before = r.program;
    let res = r.set_fractal_function(&mut gpu, julia_func(), verdict_ok());
    assert!(res.is_ok());
    assert_eq!(r.kind, FormulaKind::Julia);
    assert_ne!(r.program, before);
    assert_eq!(gpu.programs.len(), 1);
    assert_eq!(gpu.programs[0], r.program);
    assert_eq!(gpu.shaders.len(), 0);
}

#[test]
fn rejected_validation_leaves_the_program_untouched() {
    let mut gpu = Gpu::new();
    let mut r = Renderer::new(&mut gpu);
    let before = r.program;
    let verdict = SwapVerdict {
        validation: rejected("unexpected token"),
        vertex: CompileOutcome::Accepted,
        fragment: CompileOutcome::Accepted,
        link: CompileOutcome::Accepted,
    };
    let res = r.set_fractal_function(&mut gpu, "vec2 iteration(", verdict);
    assert_eq!(res.unwrap_err(), "unexpected token");
    assert_eq!(r.program, before);
    assert_eq!(r.kind, FormulaKind::Mandelbrot);
    assert_eq!(gpu.programs.len(), 1);
    assert_eq!(gpu.programs[0], before);
    assert_eq!(gpu.shaders.len(), 0);
}

#[test]
fn rejected_link_leaves_the_program_untouched() {
    let mut gpu = Gpu::new();
    let mut r = Renderer::new(&mut gpu);
    let before = r.program;
    let verdict = SwapVerdict {
        validation: CompileOutcome::Accepted,
        vertex: CompileOutcome::Accepted,
        fragment: CompileOutcome::Accepted,
        link: rejected("link failed"),
    };
    let res = r.set_fractal_function(&mut gpu, julia_func(), verdict);
    assert_eq!(res.unwrap_err(), "link failed");
    assert_eq!(r.program, before);
    assert_eq!(r.kind, FormulaKind::Mandelbrot);
    assert_eq!(gpu.programs.len(), 1);
    assert_eq!(gpu.shaders.len(), 0);
}

#[test]
fn draws_after_a_swap_use_the_new_formula() {
    let mut gpu = Gpu::new();
    let mut r = Renderer::new(&mut gpu);
    r.set_fractal_function(&mut gpu, julia_func(), verdict_ok()).unwrap();
    r.paint(&mut gpu, UniformData::defaults());
    let d = gpu.last_draw.unwrap();
    assert_eq!(d.kind, FormulaKind::Julia);
    assert_eq!(d.program, r.program);
}

#[test]
fn rejected_fragment_compile_leaks_nothing() {
    let mut gpu = Gpu::new();
    let mut r = Renderer::new(&mut gpu);
    let before = r.program;
    let verdict = SwapVerdict {
        validation: CompileOutcome::Accepted,
        vertex: CompileOutcome::Accepted,
        fragment: rejected("bad formula body"),
        link: CompileOutcome::Accepted,
    };
    let res = r.set_fractal_function(&mut gpu, "nonsense", verdict);
    assert_eq!(res.unwrap_err(), "bad formula body");
    assert_eq!(r.program, before);
    assert_eq!(gpu.programs.len(), 1);
    assert_eq!(gpu.shaders.len(), 0);
}

#[test]
fn empty_driver_log_still_yields_a_diagnostic() {
    let mut gpu = Gpu::new();
    let mut r = Renderer::new(&mut gpu);
    let verdict = SwapVerdict {
        validation: rejected(""),
        vertex: CompileOutcome::Accepted,
        fragment: CompileOutcome::Accepted,
        link: CompileOutcome::Accepted,
    };
    let res = r.set_fractal_function(&mut gpu, "bad", verdict);
    let err = res.unwrap_err();
    assert!(!err.is_empty());
}

#[test]
fn paint_records_the_submitted_snapshot() {
    let mut gpu = Gpu::new();
    let r = Renderer::new(&mut gpu);
    let ud = UniformData::defaults();
    r.paint(&mut gpu, ud);
    let d = gpu.last_draw.unwrap();
    assert_eq!(d.program, r.program);
    assert_eq!(d.kind, FormulaKind::Mandelbrot);
    assert!(d.target.is_none());
}

#[test]
fn capture_returns_exactly_w_h_4_bytes() {
    let mut gpu = Gpu::new();
    let r = Renderer::new(&mut gpu);
    let out = r.render_to_buffer(&mut gpu, 8, 4, UniformData::defaults());
    assert_eq!(out.len(), 8 * 4 * 4);
    for px in out.chunks_exact(4) {
        assert_eq!(px[3], 255);
    }
}

#[test]
fn capture_forces_window_offset_to_zero() {
    let mut gpu = Gpu::new();
    let r = Renderer::new(&mut gpu);
    let mut ud = UniformData::defaults();
    ud.window_offset = Vec2q::new(Frac::new(5, 1), Frac::new(7, 1));
    let _ = r.render_to_buffer(&mut gpu, 4, 4, ud);
    let d = gpu.last_draw.unwrap();
    assert_eq!(d.uniforms.window_offset.x.num, 0);
    assert_eq!(d.uniforms.window_offset.y.num, 0);
    assert!(d.target.is_some());
    // nothing transient remains and the default framebuffer is restored
    assert_eq!(gpu.textures.len(), 0);
    assert_eq!(gpu.framebuffers.len(), 0);
    assert!(gpu.bound_framebuffer.is_none());
}

#[test]
fn default_capture_is_not_a_flat_color() {
    let mut gpu = Gpu::new();
    let r = Renderer::new(&mut gpu);
    let mut ud = UniformData::defaults();
    ud.resolution = Vec2q::new(Frac::new(100, 1), Frac::new(100, 1));
    let out = r.render_to_buffer(&mut gpu, 100, 100, ud);
    assert_eq!(out.len(), 40000);
    let first = &out[0..4];
    let mut differs = false;
    for px in out.chunks_exact(4) {
        if px != first {
            differs = true;
            break;
        }
    }
    assert!(differs);
}

#[test]
fn destroy_releases_every_object() {
    let mut gpu = Gpu::new();
    let r = Renderer::new(&mut gpu);
    let _ = r.render_to_buffer(&mut gpu, 4, 4, UniformData::defaults());
    r.destroy(&mut gpu);
    assert_eq!(gpu.shaders.len(), 0);
    assert_eq!(gpu.programs.len(), 0);
    assert_eq!(gpu.vertex_arrays.len(), 0);
    assert_eq!(gpu.textures.len(), 0);
    assert_eq!(gpu.framebuffers.len(), 0);
    assert!(gpu.bound_framebuffer.is_none());
}
