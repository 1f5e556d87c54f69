//! A model of the GPU context.
//!
//! The model keeps exact allocation accounting for every object class the
//! renderer touches — shaders, programs, vertex arrays, textures,
//! framebuffers — together with the currently bound framebuffer and an
//! instrumentation record of the most recent draw. The real driver lives
//! outside the library; the capture path and the tests run against this
//! model, and its accounting is what the no-leak and teardown guarantees
//! are stated over.

use vstd::prelude::*;
use crate::shader::FormulaKind;
use crate::uniform::UniformData;

verus! {

/// Instrumentation record of the most recent draw call: which program
/// drew, under which formula — classification and exact source text —
/// with which uniform snapshot, into which bound framebuffer (`None` is
/// the default, on-screen target).
#[derive(Clone, Copy)]
pub struct DrawRec {
    pub program: u64,
    pub kind: FormulaKind,
    pub formula: Ghost<Seq<char>>,
    pub uniforms: UniformData,
    pub target: Option<u64>,
}

/// Every id in the sequence lies below the bound, so a fresh id is fresh.
pub open spec fn ids_below(s: Seq<u64>, b: u64) -> bool {
    forall|i: int| 0 <= i < s.len() ==> s[i] < b
}

/// The sequence with the first occurrence of `id` removed.
pub open spec fn remove_id(s: Seq<u64>, id: u64) -> Seq<u64>
    decreases s.len(),
{
    if s.len() == 0 {
        s
    } else if s[0] == id {
        s.drop_first()
    } else {
        seq![s[0]] + remove_id(s.drop_first(), id)
    }
}

/// Removing an id found first at index `i` is the same as removing index
/// `i`.
pub proof fn lemma_remove_id_at(s: Seq<u64>, id: u64, i: int)
    requires
        0 <= i < s.len(),
        s[i] == id,
        forall|j: int| 0 <= j < i ==> s[j] != id,
    ensures
        remove_id(s, id) == s.remove(i),
    decreases i,
{
    if i == 0 {
        assert(s.drop_first() =~= s.remove(0));
    } else {
        lemma_remove_id_at(s.drop_first(), id, i - 1);
        assert(seq![s[0]] + s.drop_first().remove(i - 1) =~= s.remove(i));
    }
}

/// Removing an id keeps every remaining id below the freshness bound.
pub proof fn lemma_remove_id_below(s: Seq<u64>, id: u64, b: u64)
    requires
        ids_below(s, b),
    ensures
        ids_below(remove_id(s, id), b),
    decreases s.len(),
{
    if s.len() == 0 {
    } else if s[0] == id {
    } else {
        lemma_remove_id_below(s.drop_first(), id, b);
        let r = seq![s[0]] + remove_id(s.drop_first(), id);
        assert forall|i: int| 0 <= i < r.len() implies r[i] < b by {
            if i > 0 {
                assert(r[i] == remove_id(s.drop_first(), id)[i - 1]);
            }
        }
    }
}

pub proof fn lemma_remove_singleton(a: u64)
    ensures
        remove_id(seq![a], a) =~= Seq::<u64>::empty(),
{
    assert(seq![a].drop_first() =~= Seq::<u64>::empty());
}

pub proof fn lemma_remove_first_of_two(a: u64, b: u64)
    ensures
        remove_id(seq![a, b], a) =~= seq![b],
{
    assert(seq![a, b].drop_first() =~= seq![b]);
}

pub proof fn lemma_remove_second_of_two(a: u64, b: u64)
    requires
        a != b,
    ensures
        remove_id(seq![a, b], b) =~= seq![a],
{
    lemma_remove_id_at(seq![a, b], b, 1);
    assert(seq![a, b].remove(1) =~= seq![a]);
}

/// Remove the first occurrence of `id` from the vector.
fn remove_from(v: &mut Vec<u64>, id: u64)
    requires
        old(v)@.contains(id),
    ensures
        final(v)@ == remove_id(old(v)@, id),
{
    let mut i: usize = 0;
    while i < v.len() && v[i] != id
        invariant
            i <= v@.len(),
            v@ == old(v)@,
            forall|j: int| 0 <= j < i ==> v@[j] != id,
        decreases v@.len() - i,
    {
        i += 1;
    }
    if i == v.len() {
        proof {
            let w = choose|w: int| 0 <= w < v@.len() && v@[w] == id;
            assert(v@[w] != id);
            assert(false);
        }
    }
    proof {
        lemma_remove_id_at(v@, id, i as int);
    }
    v.remove(i);
}

/// The model GPU context: object accounting per class, an id counter for
/// freshness, the bound framebuffer, and the last draw submitted.
pub struct Gpu {
    pub shaders: Vec<u64>,
    pub programs: Vec<u64>,
    pub vertex_arrays: Vec<u64>,
    pub textures: Vec<u64>,
    pub framebuffers: Vec<u64>,
    pub bound_framebuffer: Option<u64>,
    pub last_draw: Option<DrawRec>,
    pub next_id: u64,
}

/// The five object classes hold the same ids in both states.
pub open spec fn same_objects(a: Gpu, b: Gpu) -> bool {
    &&& a.shaders@ == b.shaders@
    &&& a.programs@ == b.programs@
    &&& a.vertex_arrays@ == b.vertex_arrays@
    &&& a.textures@ == b.textures@
    &&& a.framebuffers@ == b.framebuffers@
}

/// Binding and instrumentation agree in both states.
pub open spec fn same_binding(a: Gpu, b: Gpu) -> bool {
    &&& a.bound_framebuffer == b.bound_framebuffer
    &&& a.last_draw == b.last_draw
}

impl Gpu {
    /// Allocation accounting is coherent: every live id lies below the
    /// counter, so the counter always hands out fresh ids.
    pub open spec fn wf(self) -> bool {
        &&& ids_below(self.shaders@, self.next_id)
        &&& ids_below(self.programs@, self.next_id)
        &&& ids_below(self.vertex_arrays@, self.next_id)
        &&& ids_below(self.textures@, self.next_id)
        &&& ids_below(self.framebuffers@, self.next_id)
    }

    /// No object of any class remains allocated and the default
    /// framebuffer is bound.
    pub open spec fn clean(self) -> bool {
        &&& self.shaders@.len() == 0
        &&& self.programs@.len() == 0
        &&& self.vertex_arrays@.len() == 0
        &&& self.textures@.len() == 0
        &&& self.framebuffers@.len() == 0
        &&& self.bound_framebuffer is None
    }

    /// Room for `k` more fresh ids.
    pub open spec fn can_allocate(self, k: int) -> bool {
        self.next_id + k <= u64::MAX
    }

    /// A fresh context with nothing allocated.
    pub fn new() -> (r: Gpu)
        ensures
            r.wf(),
            r.clean(),
            r.next_id == 0,
            r.last_draw is None,
    {
        Gpu {
            shaders: Vec::new(),
            programs: Vec::new(),
            vertex_arrays: Vec::new(),
            textures: Vec::new(),
            framebuffers: Vec::new(),
            bound_framebuffer: None,
            last_draw: None,
            next_id: 0,
        }
    }

    pub fn create_shader(&mut self) -> (id: u64)
        requires
            old(self).wf(),
            old(self).can_allocate(1),
        ensures
            final(self).wf(),
            id == old(self).next_id,
            !old(self).shaders@.contains(id),
            final(self).shaders@ == old(self).shaders@.push(id),
            final(self).programs@ == old(self).programs@,
            final(self).vertex_arrays@ == old(self).vertex_arrays@,
            final(self).textures@ == old(self).textures@,
            final(self).framebuffers@ == old(self).framebuffers@,
            same_binding(*final(self), *old(self)),
            final(self).next_id == old(self).next_id + 1,
    {
        let id = self.next_id;
        self.next_id = self.next_id + 1;
        self.shaders.push(id);
        id
    }

    pub fn delete_shader(&mut self, id: u64)
        requires
            old(self).wf(),
            old(self).shaders@.contains(id),
        ensures
            final(self).wf(),
            final(self).shaders@ == remove_id(old(self).shaders@, id),
            final(self).programs@ == old(self).programs@,
            final(self).vertex_arrays@ == old(self).vertex_arrays@,
            final(self).textures@ == old(self).textures@,
            final(self).framebuffers@ == old(self).framebuffers@,
            same_binding(*final(self), *old(self)),
            final(self).next_id == old(self).next_id,
    {
        proof {
            lemma_remove_id_below(old(self).shaders@, id, old(self).next_id);
        }
        remove_from(&mut self.shaders, id);
    }

    pub fn create_program(&mut self) -> (id: u64)
        requires
            old(self).wf(),
            old(self).can_allocate(1),
        ensures
            final(self).wf(),
            id == old(self).next_id,
            !old(self).programs@.contains(id),
            final(self).programs@ == old(self).programs@.push(id),
            final(self).shaders@ == old(self).shaders@,
            final(self).vertex_arrays@ == old(self).vertex_arrays@,
            final(self).textures@ == old(self).textures@,
            final(self).framebuffers@ == old(self).framebuffers@,
            same_binding(*final(self), *old(self)),
            final(self).next_id == old(self).next_id + 1,
    {
        let id = self.next_id;
        self.next_id = self.next_id + 1;
        self.programs.push(id);
        id
    }

    pub fn delete_program(&mut self, id: u64)
        requires
            old(self).wf(),
            old(self).programs@.contains(id),
        ensures
            final(self).wf(),
            final(self).programs@ == remove_id(old(self).programs@, id),
            final(self).shaders@ == old(self).shaders@,
            final(self).vertex_arrays@ == old(self).vertex_arrays@,
            final(self).textures@ == old(self).textures@,
            final(self).framebuffers@ == old(self).framebuffers@,
            same_binding(*final(self), *old(self)),
            final(self).next_id == old(self).next_id,
    {
        proof {
            lemma_remove_id_below(old(self).programs@, id, old(self).next_id);
        }
        remove_from(&mut self.programs, id);
    }

    pub fn create_vertex_array(&mut self) -> (id: u64)
        requires
            old(self).wf(),
            old(self).can_allocate(1),
        ensures
            final(self).wf(),
            id == old(self).next_id,
            !old(self).vertex_arrays@.contains(id),
            final(self).vertex_arrays@ == old(self).vertex_arrays@.push(id),
            final(self).shaders@ == old(self).shaders@,
            final(self).programs@ == old(self).programs@,
            final(self).textures@ == old(self).textures@,
            final(self).framebuffers@ == old(self).framebuffers@,
            same_binding(*final(self), *old(self)),
            final(self).next_id == old(self).next_id + 1,
    {
        let id = self.next_id;
        self.next_id = self.next_id + 1;
        self.vertex_arrays.push(id);
        id
    }

    pub fn delete_vertex_array(&mut self, id: u64)
        requires
            old(self).wf(),
            old(self).vertex_arrays@.contains(id),
        ensures
            final(self).wf(),
            final(self).vertex_arrays@ == remove_id(old(self).vertex_arrays@, id),
            final(self).shaders@ == old(self).shaders@,
            final(self).programs@ == old(self).programs@,
            final(self).textures@ == old(self).textures@,
            final(self).framebuffers@ == old(self).framebuffers@,
            same_binding(*final(self), *old(self)),
            final(self).next_id == old(self).next_id,
    {
        proof {
            lemma_remove_id_below(old(self).vertex_arrays@, id, old(self).next_id);
        }
        remove_from(&mut self.vertex_arrays, id);
    }

    pub fn create_texture(&mut self) -> (id: u64)
        requires
            old(self).wf(),
            old(self).can_allocate(1),
        ensures
            final(self).wf(),
            id == old(self).next_id,
            !old(self).textures@.contains(id),
            final(self).textures@ == old(self).textures@.push(id),
            final(self).shaders@ == old(self).shaders@,
            final(self).programs@ == old(self).programs@,
            final(self).vertex_arrays@ == old(self).vertex_arrays@,
            final(self).framebuffers@ == old(self).framebuffers@,
            same_binding(*final(self), *old(self)),
            final(self).next_id == old(self).next_id + 1,
    {
        let id = self.next_id;
        self.next_id = self.next_id + 1;
        self.textures.push(id);
        id
    }

    pub fn delete_texture(&mut self, id: u64)
        requires
            old(self).wf(),
            old(self).textures@.contains(id),
        ensures
            final(self).wf(),
            final(self).textures@ == remove_id(old(self).textures@, id),
            final(self).shaders@ == old(self).shaders@,
            final(self).programs@ == old(self).programs@,
            final(self).vertex_arrays@ == old(self).vertex_arrays@,
            final(self).framebuffers@ == old(self).framebuffers@,
            same_binding(*final(self), *old(self)),
            final(self).next_id == old(self).next_id,
    {
        proof {
            lemma_remove_id_below(old(self).textures@, id, old(self).next_id);
        }
        remove_from(&mut self.textures, id);
    }

    pub fn create_framebuffer(&mut self) -> (id: u64)
        requires
            old(self).wf(),
            old(self).can_allocate(1),
        ensures
            final(self).wf(),
            id == old(self).next_id,
            !old(self).framebuffers@.contains(id),
            final(self).framebuffers@ == old(self).framebuffers@.push(id),
            final(self).shaders@ == old(self).shaders@,
            final(self).programs@ == old(self).programs@,
            final(self).vertex_arrays@ == old(self).vertex_arrays@,
            final(self).textures@ == old(self).textures@,
            same_binding(*final(self), *old(self)),
            final(self).next_id == old(self).next_id + 1,
    {
        let id = self.next_id;
        self.next_id = self.next_id + 1;
        self.framebuffers.push(id);
        id
    }

    pub fn delete_framebuffer(&mut self, id: u64)
        requires
            old(self).wf(),
            old(self).framebuffers@.contains(id),
        ensures
            final(self).wf(),
            final(self).framebuffers@ == remove_id(old(self).framebuffers@, id),
            final(self).shaders@ == old(self).shaders@,
            final(self).programs@ == old(self).programs@,
            final(self).vertex_arrays@ == old(self).vertex_arrays@,
            final(self).textures@ == old(self).textures@,
            same_binding(*final(self), *old(self)),
            final(self).next_id == old(self).next_id,
    {
        proof {
            lemma_remove_id_below(old(self).framebuffers@, id, old(self).next_id);
        }
        remove_from(&mut self.framebuffers, id);
    }

    /// Bind a framebuffer as the draw target; `None` restores the default,
    /// on-screen target.
    pub fn bind_framebuffer(&mut self, target: Option<u64>)
        requires
            old(self).wf(),
            target matches Some(f) ==> old(self).framebuffers@.contains(f),
        ensures
            final(self).wf(),
            same_objects(*final(self), *old(self)),
            final(self).bound_framebuffer == target,
            final(self).last_draw == old(self).last_draw,
            final(self).next_id == old(self).next_id,
    {
        self.bound_framebuffer = target;
    }

    /// Submit a draw with a live program and vertex array; the draw lands
    /// in whichever framebuffer is currently bound, and the
    /// instrumentation records exactly what was submitted.
    pub fn draw(
        &mut self,
        program: u64,
        vertex_array: u64,
        kind: FormulaKind,
        formula: Ghost<Seq<char>>,
        uniforms: UniformData,
    )
        requires
            old(self).wf(),
            old(self).programs@.contains(program),
            old(self).vertex_arrays@.contains(vertex_array),
            uniforms.wf(),
        ensures
            final(self).wf(),
            same_objects(*final(self), *old(self)),
            final(self).bound_framebuffer == old(self).bound_framebuffer,
            final(self).next_id == old(self).next_id,
            final(self).last_draw == Some(
                DrawRec { program, kind, formula, uniforms, target: old(self).bound_framebuffer },
            ),
    {
        let rec = DrawRec { program, kind, formula, uniforms, target: self.bound_framebuffer };
        self.last_draw = Some(rec);
    }
}

} // verus!
