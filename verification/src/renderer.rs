//! The renderer: owner of the one active shader program and the
//! full-screen-quad vertex array.
//!
//! A formula swap is validated on a throwaway shader before anything is
//! built, and the active program is deleted only after its replacement has
//! linked, so a failed swap of any shape leaves the renderer paintable and
//! leaks nothing. The driver's compile and link results enter as a
//! `SwapVerdict`; the guarantees below hold for every combination of
//! outcomes.

use vstd::prelude::*;
use crate::gpu::{
    DrawRec, Gpu, lemma_remove_first_of_two, lemma_remove_second_of_two, lemma_remove_singleton,
};
use crate::frac::q_int;
use crate::shader::{FormulaKind, formula_kind, mandelbrot_src, non_empty_log, spec_formula_kind};
use crate::transform::Vec2q;
use crate::uniform::UniformData;
use crate::raster::{render_pixels, spec_frame};

verus! {

/// One compile or link result handed back by the driver.
#[derive(Clone, Debug)]
pub enum CompileOutcome {
    Accepted,
    Rejected(String),
}

/// The driver's results for the four steps of a swap: the throwaway
/// validation compile, then the vertex compile, fragment compile and link
/// of the replacement program.
#[derive(Clone, Debug)]
pub struct SwapVerdict {
    pub validation: CompileOutcome,
    pub vertex: CompileOutcome,
    pub fragment: CompileOutcome,
    pub link: CompileOutcome,
}

impl SwapVerdict {
    pub open spec fn all_accepted(self) -> bool {
        &&& self.validation is Accepted
        &&& self.vertex is Accepted
        &&& self.fragment is Accepted
        &&& self.link is Accepted
    }

    /// A verdict with every step accepted, as for the built-in formulas.
    pub fn accepted() -> (r: SwapVerdict)
        ensures
            r.all_accepted(),
    {
        SwapVerdict {
            validation: CompileOutcome::Accepted,
            vertex: CompileOutcome::Accepted,
            fragment: CompileOutcome::Accepted,
            link: CompileOutcome::Accepted,
        }
    }
}

/// The renderer: the one active program, the quad vertex array, and the
/// formula the active program was built from — its classification and,
/// in ghost form, its exact source text.
pub struct Renderer {
    pub program: u64,
    pub vertex_array: u64,
    pub kind: FormulaKind,
    pub formula: Ghost<Seq<char>>,
}

impl Renderer {
    /// The renderer against its context: the context is coherent, the
    /// active program and the vertex array are exactly the live objects of
    /// their classes, nothing transient is left over, the default
    /// framebuffer is bound, and the recorded classification matches the
    /// recorded formula text.
    pub open spec fn wf_with(self, gpu: Gpu) -> bool {
        &&& gpu.wf()
        &&& gpu.programs@ == seq![self.program]
        &&& gpu.vertex_arrays@ == seq![self.vertex_array]
        &&& gpu.shaders@.len() == 0
        &&& gpu.textures@.len() == 0
        &&& gpu.framebuffers@.len() == 0
        &&& gpu.bound_framebuffer is None
        &&& self.kind == spec_formula_kind(self.formula@)
    }

    /// Build a renderer in a fresh context: the built-in Mandelbrot
    /// program becomes active and the quad vertex array is created.
    pub fn new(gpu: &mut Gpu) -> (r: Renderer)
        requires
            old(gpu).wf(),
            old(gpu).clean(),
            old(gpu).can_allocate(4),
        ensures
            r.wf_with(*final(gpu)),
            r.kind == FormulaKind::Mandelbrot,
            r.formula@ == mandelbrot_src(),
            final(gpu).next_id <= old(gpu).next_id + 4,
    {
        let program = match build_program(
            gpu,
            CompileOutcome::Accepted,
            CompileOutcome::Accepted,
            CompileOutcome::Accepted,
        ) {
            Ok(p) => p,
            Err(_) => {
                proof {
                    assert(false);
                }
                0
            },
        };
        let vertex_array = gpu.create_vertex_array();
        proof {
            assert(gpu.programs@ =~= seq![program]);
            assert(gpu.vertex_arrays@ =~= seq![vertex_array]);
        }
        Renderer {
            program,
            vertex_array,
            kind: FormulaKind::Mandelbrot,
            formula: Ghost(mandelbrot_src()),
        }
    }

    /// Swap the active program for one built from `source`. The assembled
    /// fragment text is validated on a throwaway shader first; on any
    /// rejected step the error carries the (never empty) diagnostic and
    /// the active program — identity and formula alike — is untouched.
    /// Only after the replacement links is the old program deleted.
    pub fn set_fractal_function(
        &mut self,
        gpu: &mut Gpu,
        source: &str,
        verdict: SwapVerdict,
    ) -> (r: Result<(), String>)
        requires
            old(self).wf_with(*old(gpu)),
            old(gpu).can_allocate(4),
        ensures
            final(self).wf_with(*final(gpu)),
            final(gpu).last_draw == old(gpu).last_draw,
            final(self).vertex_array == old(self).vertex_array,
            r is Ok <==> verdict.all_accepted(),
            r is Ok ==> {
                &&& final(self).kind == spec_formula_kind(source@)
                &&& final(self).formula@ == source@
                &&& final(self).program != old(self).program
                &&& !final(gpu).programs@.contains(old(self).program)
            },
            r matches Err(e) ==> {
                &&& *final(self) == *old(self)
                &&& final(gpu).programs@ == old(gpu).programs@
                &&& e@.len() > 0
            },
            verdict.validation matches CompileOutcome::Rejected(log) ==> (r matches Err(e) && (
            log@.len() > 0 ==> e@ == log@)),
            verdict.validation is Accepted ==> (verdict.vertex matches CompileOutcome::Rejected(
                log,
            ) ==> (r matches Err(e) && (log@.len() > 0 ==> e@ == log@))),
            verdict.validation is Accepted && verdict.vertex is Accepted ==> (
            verdict.fragment matches CompileOutcome::Rejected(log) ==> (r matches Err(e) && (
            log@.len() > 0 ==> e@ == log@))),
            verdict.validation is Accepted && verdict.vertex is Accepted && verdict.fragment
                is Accepted ==> (verdict.link matches CompileOutcome::Rejected(log) ==> (r matches
            Err(e) && (log@.len() > 0 ==> e@ == log@))),
    {
        // validate the assembled fragment source on a throwaway shader
        let check = gpu.create_shader();
        proof {
            assert(old(gpu).shaders@.push(check) =~= seq![check]);
            lemma_remove_singleton(check);
        }
        match verdict.validation {
            CompileOutcome::Rejected(log) => {
                gpu.delete_shader(check);
                return Err(non_empty_log(log));
            },
            CompileOutcome::Accepted => {
                gpu.delete_shader(check);
            },
        }
        let kind = formula_kind(source);
        match build_program(gpu, verdict.vertex, verdict.fragment, verdict.link) {
            Err(e) => Err(e),
            Ok(p) => {
                // the replacement is linked: retire the old program
                let old_program = self.program;
                proof {
                    if p == old_program {
                        assert(seq![old_program][0] == old_program);
                        assert(seq![old_program].contains(old_program));
                    }
                    assert(gpu.programs@ =~= seq![old_program, p]);
                    lemma_remove_first_of_two(old_program, p);
                }
                gpu.delete_program(old_program);
                self.program = p;
                self.kind = kind;
                self.formula = Ghost(source@);
                proof {
                    assert(gpu.programs@ =~= seq![p]);
                }
                Ok(())
            },
        }
    }

    /// Upload the snapshot and draw the full-screen quad with the active
    /// program, into whichever framebuffer is currently bound.
    pub fn paint(&self, gpu: &mut Gpu, ud: UniformData)
        requires
            old(gpu).wf(),
            old(gpu).programs@.contains(self.program),
            old(gpu).vertex_arrays@.contains(self.vertex_array),
            ud.wf(),
        ensures
            final(gpu).wf(),
            crate::gpu::same_objects(*final(gpu), *old(gpu)),
            final(gpu).bound_framebuffer == old(gpu).bound_framebuffer,
            final(gpu).next_id == old(gpu).next_id,
            final(gpu).last_draw == Some(
                DrawRec {
                    program: self.program,
                    kind: self.kind,
                    formula: self.formula,
                    uniforms: ud,
                    target: old(gpu).bound_framebuffer,
                },
            ),
    {
        gpu.draw(self.program, self.vertex_array, self.kind, self.formula, ud);
    }

    /// Off-screen capture: draw one frame into a fresh texture-backed
    /// framebuffer and return its pixels, exactly `width * height * 4`
    /// RGBA8 bytes — the rasterization `spec_frame` of the drawn
    /// snapshot. The snapshot is drawn with `window_offset` forced to
    /// zero whatever the caller supplied; the temporaries are deleted and
    /// the default framebuffer restored on the way out.
    pub fn render_to_buffer(&self, gpu: &mut Gpu, width: u32, height: u32, ud: UniformData) -> (r:
        Vec<u8>)
        requires
            self.wf_with(*old(gpu)),
            old(gpu).can_allocate(2),
            ud.wf(),
            width >= 1,
            height >= 1,
            width as int * height as int * 4 <= usize::MAX,
        ensures
            self.wf_with(*final(gpu)),
            r@.len() == width as int * height as int * 4,
            forall|i: int| 0 <= i < r@.len() && i % 4 == 3 ==> r@[i] == 255,
            final(gpu).last_draw matches Some(d) && {
                &&& d.program == self.program
                &&& d.kind == self.kind
                &&& d.formula == self.formula
                &&& d.target is Some
                &&& d.uniforms.window_offset.x@ == q_int(0)
                &&& d.uniforms.window_offset.y@ == q_int(0)
                &&& d.uniforms.center == ud.center
                &&& d.uniforms.zoom == ud.zoom
                &&& d.uniforms.resolution == ud.resolution
                &&& d.uniforms.cycles == ud.cycles
                &&& d.uniforms.start_color == ud.start_color
                &&& d.uniforms.end_color == ud.end_color
                &&& r@ == spec_frame(self.kind, width as int, height as int, d.uniforms)
            },
    {
        let texture = gpu.create_texture();
        let framebuffer = gpu.create_framebuffer();
        proof {
            assert(old(gpu).textures@.push(texture) =~= seq![texture]);
            assert(old(gpu).framebuffers@.push(framebuffer) =~= seq![framebuffer]);
            assert(gpu.framebuffers@[0] == framebuffer);
            assert(gpu.framebuffers@.contains(framebuffer));
            assert(gpu.programs@[0] == self.program);
            assert(gpu.programs@.contains(self.program));
            assert(gpu.vertex_arrays@[0] == self.vertex_array);
            assert(gpu.vertex_arrays@.contains(self.vertex_array));
        }
        // the texture is the framebuffer's sole color target; the model
        // framebuffer is always complete
        gpu.bind_framebuffer(Some(framebuffer));
        // off-screen buffers have no enclosing window
        let ud0 = UniformData { window_offset: Vec2q::zero(), ..ud };
        self.paint(gpu, ud0);
        let pixels = render_pixels(self.kind, width, height, &ud0);
        gpu.bind_framebuffer(None);
        proof {
            lemma_remove_singleton(framebuffer);
            lemma_remove_singleton(texture);
        }
        gpu.delete_framebuffer(framebuffer);
        gpu.delete_texture(texture);
        proof {
            assert(gpu.textures@ =~= Seq::<u64>::empty());
            assert(gpu.framebuffers@ =~= Seq::<u64>::empty());
        }
        pixels
    }

    /// Teardown: release the active program and the vertex array. Nothing
    /// of any object class remains allocated afterwards; the renderer is
    /// consumed, so no call can follow.
    pub fn destroy(self, gpu: &mut Gpu)
        requires
            self.wf_with(*old(gpu)),
        ensures
            final(gpu).wf(),
            final(gpu).clean(),
    {
        proof {
            lemma_remove_singleton(self.program);
            lemma_remove_singleton(self.vertex_array);
        }
        gpu.delete_program(self.program);
        gpu.delete_vertex_array(self.vertex_array);
    }
}

/// Build a complete replacement program: two fresh shaders, compiled,
/// attached and linked, the shaders detached and deleted afterwards. On
/// any rejected step every object created here is deleted again and the
/// error carries the diagnostic.
fn build_program(
    gpu: &mut Gpu,
    vertex: CompileOutcome,
    fragment: CompileOutcome,
    link: CompileOutcome,
) -> (r: Result<u64, String>)
    requires
        old(gpu).wf(),
        old(gpu).can_allocate(3),
        old(gpu).shaders@.len() == 0,
        old(gpu).programs@.len() <= 1,
    ensures
        final(gpu).wf(),
        final(gpu).shaders@ == old(gpu).shaders@,
        final(gpu).vertex_arrays@ == old(gpu).vertex_arrays@,
        final(gpu).textures@ == old(gpu).textures@,
        final(gpu).framebuffers@ == old(gpu).framebuffers@,
        final(gpu).bound_framebuffer == old(gpu).bound_framebuffer,
        final(gpu).last_draw == old(gpu).last_draw,
        old(gpu).next_id <= final(gpu).next_id <= old(gpu).next_id + 3,
        r is Ok <==> (vertex is Accepted && fragment is Accepted && link is Accepted),
        r matches Ok(p) ==> final(gpu).programs@ == old(gpu).programs@.push(p) && !old(
            gpu,
        ).programs@.contains(p),
        r matches Err(e) ==> final(gpu).programs@ == old(gpu).programs@ && e@.len() > 0,
        vertex matches CompileOutcome::Rejected(log) ==> (r matches Err(e) && (log@.len() > 0
            ==> e@ == log@)),
        vertex is Accepted ==> (fragment matches CompileOutcome::Rejected(log) ==> (r matches
        Err(e) && (log@.len() > 0 ==> e@ == log@))),
        vertex is Accepted && fragment is Accepted ==> (link matches CompileOutcome::Rejected(
            log,
        ) ==> (r matches Err(e) && (log@.len() > 0 ==> e@ == log@))),
{
    let vs = gpu.create_shader();
    proof {
        assert(old(gpu).shaders@.push(vs) =~= seq![vs]);
        lemma_remove_singleton(vs);
    }
    match vertex {
        CompileOutcome::Rejected(log) => {
            gpu.delete_shader(vs);
            return Err(non_empty_log(log));
        },
        CompileOutcome::Accepted => {},
    }
    let fs = gpu.create_shader();
    proof {
        assert(old(gpu).shaders@.push(vs).push(fs) =~= seq![vs, fs]);
        lemma_remove_first_of_two(vs, fs);
        lemma_remove_singleton(fs);
    }
    match fragment {
        CompileOutcome::Rejected(log) => {
            gpu.delete_shader(vs);
            gpu.delete_shader(fs);
            return Err(non_empty_log(log));
        },
        CompileOutcome::Accepted => {},
    }
    let program = gpu.create_program();
    match link {
        CompileOutcome::Rejected(log) => {
            proof {
                if old(gpu).programs@.len() == 1 {
                    let a = old(gpu).programs@[0];
                    if a == program {
                        assert(old(gpu).programs@.contains(program));
                    }
                    assert(old(gpu).programs@.push(program) =~= seq![a, program]);
                    lemma_remove_second_of_two(a, program);
                    assert(seq![a] =~= old(gpu).programs@);
                } else {
                    assert(old(gpu).programs@.push(program) =~= seq![program]);
                    lemma_remove_singleton(program);
                }
            }
            gpu.delete_program(program);
            gpu.delete_shader(vs);
            gpu.delete_shader(fs);
            return Err(non_empty_log(log));
        },
        CompileOutcome::Accepted => {},
    }
    // detach and delete the helper shaders; the program stays
    gpu.delete_shader(vs);
    gpu.delete_shader(fs);
    Ok(program)
}

} // verus!
