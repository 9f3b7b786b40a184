//! The rendering context: the shared vertex array, vertex buffer and active
//! shader program, each a slot that is filled once, and the registry of
//! shader programs by name.
//!
//! Handles are the GPU's names for its objects, as plain integers. Readers
//! take `&self` and the one-time initialiser `&mut self`, so Rust's borrowing
//! rules give each slot the shared-read, exclusive-write discipline.
use vstd::prelude::*;

verus! {

/// The name under which the default shader program is registered.
pub const DEFAULT_SHADER: &'static str = "default-shader";

/// What a context holds, as mathematical values.
pub ghost struct ContextView {
    pub vertex_array: Option<u32>,
    pub vertex_buffer: Option<u32>,
    pub program: Option<u32>,
    pub programs: Map<Seq<char>, u32>,
}

/// The rendering context.
pub struct TContext {
    global_vao: Option<u32>,
    global_vbo: Option<u32>,
    global_program: Option<u32>,
    shader_programs: Vec<(String, u32)>,
}

/// Fills an empty slot; a slot that holds a value keeps it.
pub open spec fn get_or_insert(slot: Option<u32>, v: u32) -> Option<u32> {
    match slot {
        Some(old) => Some(old),
        None => Some(v),
    }
}

/// The context after the set-up with a freshly linked default program and a
/// freshly created vertex array and buffer: the program is registered under
/// the default name, and each slot is filled if it was empty.
pub open spec fn after_setup(v: ContextView, program: u32, vao: u32, vbo: u32) -> ContextView {
    ContextView {
        vertex_array: get_or_insert(v.vertex_array, vao),
        vertex_buffer: get_or_insert(v.vertex_buffer, vbo),
        program: get_or_insert(v.program, program),
        programs: v.programs.insert(DEFAULT_SHADER@, program),
    }
}

/// The names in a list of registry entries are pairwise distinct.
pub open spec fn unique_names(s: Seq<(String, u32)>) -> bool {
    forall|i: int, j: int|
        0 <= i < s.len() && 0 <= j < s.len() && i != j ==> #[trigger] s[i].0@ != #[trigger] s[j].0@
}

/// The map from name to handle that a list of registry entries holds.
pub open spec fn entries_map(s: Seq<(String, u32)>) -> Map<Seq<char>, u32> {
    Map::new(
        |k: Seq<char>| exists|i: int| 0 <= i < s.len() && s[i].0@ == k,
        |k: Seq<char>| s[choose|i: int| 0 <= i < s.len() && s[i].0@ == k].1,
    )
}

impl View for TContext {
    type V = ContextView;

    closed spec fn view(&self) -> ContextView {
        ContextView {
            vertex_array: self.global_vao,
            vertex_buffer: self.global_vbo,
            program: self.global_program,
            programs: entries_map(self.shader_programs@),
        }
    }
}

impl TContext {
    /// The registry's names are pairwise distinct.
    pub closed spec fn wf(&self) -> bool {
        unique_names(self.shader_programs@)
    }

    /// Returns a context with empty slots and an empty registry.
    pub fn init() -> (r: TContext)
        ensures
            r.wf(),
            r@.vertex_array is None,
            r@.vertex_buffer is None,
            r@.program is None,
            r@.programs == Map::<Seq<char>, u32>::empty(),
    {
        let r = TContext {
            global_vao: None,
            global_vbo: None,
            global_program: None,
            shader_programs: Vec::new(),
        };
        assert(entries_map(r.shader_programs@) =~= Map::<Seq<char>, u32>::empty());
        r
    }

    /// The three shared slots are filled: the set-up has run.
    pub fn is_ready(&self) -> (r: bool)
        ensures
            r == self.ready(),
    {
        self.global_vao.is_some() && self.global_vbo.is_some() && self.global_program.is_some()
    }

    /// Returns the shared vertex array. Reading it before the set-up filled
    /// it is a defect of the caller.
    pub fn get_glob_vao(&self) -> (r: u32)
        requires
            self@.vertex_array is Some,
        ensures
            r == self@.vertex_array->0,
    {
        self.global_vao.unwrap()
    }

    /// Returns the shared vertex buffer.
    pub fn get_glob_vbo(&self) -> (r: u32)
        requires
            self@.vertex_buffer is Some,
        ensures
            r == self@.vertex_buffer->0,
    {
        self.global_vbo.unwrap()
    }

    /// Returns the active shader program.
    pub fn get_glob_glprogam(&self) -> (r: u32)
        requires
            self@.program is Some,
        ensures
            r == self@.program->0,
    {
        self.global_program.unwrap()
    }

    /// Returns the shared vertex array, vertex buffer and active program.
    pub fn get_gl_parameters(&self) -> (r: (u32, u32, u32))
        requires
            self.ready(),
        ensures
            r == self.globals(),
    {
        (self.get_glob_vao(), self.get_glob_vbo(), self.get_glob_glprogam())
    }

    /// The three shared slots are filled.
    pub open spec fn ready(&self) -> bool {
        self@.vertex_array is Some && self@.vertex_buffer is Some && self@.program is Some
    }

    /// The shared vertex array, vertex buffer and active program.
    pub open spec fn globals(&self) -> (u32, u32, u32) {
        (self@.vertex_array->0, self@.vertex_buffer->0, self@.program->0)
    }

    /// The position of `name` in the registry's entries, if it is there.
    fn find(&self, name: &String) -> (r: Option<usize>)
        ensures
            match r {
                Some(i) => i < self.shader_programs@.len() && self.shader_programs@[i as int].0@
                    == name@,
                None => forall|i: int|
                    0 <= i < self.shader_programs@.len() ==> #[trigger] self.shader_programs@[i].0@
                        != name@,
            },
    {
        let mut i: usize = 0;
        while i < self.shader_programs.len()
            invariant
                i <= self.shader_programs@.len(),
                forall|j: int| 0 <= j < i ==> #[trigger] self.shader_programs@[j].0@ != name@,
            decreases self.shader_programs@.len() - i,
        {
            if self.shader_programs[i].0 == *name {
                return Some(i);
            }
            i = i + 1;
        }
        None
    }

    /// A program is registered under `program_name`.
    pub fn has_shader_program(&self, program_name: &String) -> (r: bool)
        ensures
            r == self@.programs.contains_key(program_name@),
    {
        match self.find(program_name) {
            Some(i) => {
                assert(self.shader_programs@[i as int].0@ == program_name@);
                true
            },
            None => false,
        }
    }

    /// Returns the shader program registered under `program_name`. Asking
    /// for a name that was never registered is a defect of the caller.
    pub fn get_shader_program(&self, program_name: String) -> (r: u32)
        requires
            self.wf(),
            self@.programs.contains_key(program_name@),
        ensures
            r == self@.programs[program_name@],
    {
        let i = self.find(&program_name).unwrap();
        proof {
            let s = self.shader_programs@;
            let k = program_name@;
            let c = choose|j: int| 0 <= j < s.len() && s[j].0@ == k;
            assert(c == i);
        }
        self.shader_programs[i].1
    }

    /// Registers `shader_program` under `program_name`, replacing the program
    /// that the name held before, if any.
    pub fn add_shader_program(&mut self, program_name: String, shader_program: u32)
        requires
            old(self).wf(),
        ensures
            final(self).wf(),
            final(self)@ == (ContextView {
                programs: old(self)@.programs.insert(program_name@, shader_program),
                ..old(self)@
            }),
    {
        let ghost k = program_name@;
        let ghost s0 = self.shader_programs@;
        match self.find(&program_name) {
            Some(i) => {
                self.shader_programs.set(i, (program_name, shader_program));
                proof {
                    let s1 = self.shader_programs@;
                    assert(s1 == s0.update(i as int, s1[i as int]));
                    assert forall|a: int, b: int|
                        0 <= a < s1.len() && 0 <= b < s1.len() && a != b implies
                        #[trigger] s1[a].0@ != #[trigger] s1[b].0@ by {
                        if a != i && b != i {
                            assert(s0[a].0@ != s0[b].0@);
                        } else if a == i {
                            assert(s0[b].0@ != s0[i as int].0@);
                        } else {
                            assert(s0[a].0@ != s0[i as int].0@);
                        }
                    }
                    let m0 = entries_map(s0);
                    let m1 = entries_map(s1);
                    assert forall|key: Seq<char>| #[trigger] m1.contains_key(key)
                        <==> m0.insert(k, shader_program).contains_key(key) by {
                        if m0.contains_key(key) && key != k {
                            let j = choose|j: int| 0 <= j < s0.len() && s0[j].0@ == key;
                            assert(s1[j].0@ == key);
                        }
                        if m1.contains_key(key) && key != k {
                            let j = choose|j: int| 0 <= j < s1.len() && s1[j].0@ == key;
                            assert(s0[j].0@ == key);
                        }
                        if key == k {
                            assert(s1[i as int].0@ == key);
                        }
                    }
                    assert forall|key: Seq<char>| #[trigger] m1.contains_key(key) implies m1[key]
                        == m0.insert(k, shader_program)[key] by {
                        let j1 = choose|j: int| 0 <= j < s1.len() && s1[j].0@ == key;
                        if key == k {
                            assert(s1[i as int].0@ == key);
                            assert(j1 == i);
                        } else {
                            assert(s0[j1].0@ == key);
                            let j0 = choose|j: int| 0 <= j < s0.len() && s0[j].0@ == key;
                            assert(j0 == j1);
                        }
                    }
                    assert(m1 =~= m0.insert(k, shader_program));
                }
            },
            None => {
                self.shader_programs.push((program_name, shader_program));
                proof {
                    let s1 = self.shader_programs@;
                    let n = s0.len() as int;
                    assert(s1 == s0.push(s1[n]));
                    assert forall|a: int, b: int|
                        0 <= a < s1.len() && 0 <= b < s1.len() && a != b implies
                        #[trigger] s1[a].0@ != #[trigger] s1[b].0@ by {
                        if a != n && b != n {
                            assert(s0[a].0@ != s0[b].0@);
                        } else if a == n {
                            assert(s0[b].0@ != k);
                        } else {
                            assert(s0[a].0@ != k);
                        }
                    }
                    let m0 = entries_map(s0);
                    let m1 = entries_map(s1);
                    assert forall|key: Seq<char>| #[trigger] m1.contains_key(key)
                        <==> m0.insert(k, shader_program).contains_key(key) by {
                        if m0.contains_key(key) {
                            let j = choose|j: int| 0 <= j < s0.len() && s0[j].0@ == key;
                            assert(s1[j].0@ == key);
                        }
                        if m1.contains_key(key) && key != k {
                            let j = choose|j: int| 0 <= j < s1.len() && s1[j].0@ == key;
                            assert(s0[j].0@ == key);
                        }
                        if key == k {
                            assert(s1[n].0@ == key);
                        }
                    }
                    assert forall|key: Seq<char>| #[trigger] m1.contains_key(key) implies m1[key]
                        == m0.insert(k, shader_program)[key] by {
                        let j1 = choose|j: int| 0 <= j < s1.len() && s1[j].0@ == key;
                        if key == k {
                            assert(s1[n].0@ == key);
                            assert(j1 == n);
                        } else {
                            assert(s0[j1].0@ == key);
                            let j0 = choose|j: int| 0 <= j < s0.len() && s0[j].0@ == key;
                            assert(j0 == j1);
                        }
                    }
                    assert(m1 =~= m0.insert(k, shader_program));
                }
            },
        }
    }

    /// Makes the program registered under `program_name` the active one, and
    /// returns it: the program that the GPU is told to use, on every call. The
    /// active-program slot is filled only if it was empty.
    pub fn set_shader_program(&mut self, program_name: String) -> (r: u32)
        requires
            old(self).wf(),
            old(self)@.programs.contains_key(program_name@),
        ensures
            final(self).wf(),
            r == old(self)@.programs[program_name@],
            final(self)@ == (ContextView {
                program: get_or_insert(old(self)@.program, old(self)@.programs[program_name@]),
                ..old(self)@
            }),
    {
        let program = self.get_shader_program(program_name);
        if self.global_program.is_none() {
            self.global_program = Some(program);
        }
        program
    }

    /// Fills the vertex-array and vertex-buffer slots where they are empty.
    fn install_vertex_objects(&mut self, vao: u32, vbo: u32)
        ensures
            final(self).shader_programs == old(self).shader_programs,
            final(self)@ == (ContextView {
                vertex_array: get_or_insert(old(self)@.vertex_array, vao),
                vertex_buffer: get_or_insert(old(self)@.vertex_buffer, vbo),
                ..old(self)@
            }),
    {
        if self.global_vao.is_none() {
            self.global_vao = Some(vao);
        }
        if self.global_vbo.is_none() {
            self.global_vbo = Some(vbo);
        }
    }
}

/// The context's part of the surface set-up, run at start-up and on each
/// resize: registers the freshly linked default `program` under the default
/// name, makes it active, and fills the vertex-array and vertex-buffer slots
/// with `vao` and `vbo` where they are empty. Returns the program that the GPU
/// is told to use.
pub fn init_opengl_drawing(ctx: &mut TContext, program: u32, vao: u32, vbo: u32) -> (r: u32)
    requires
        old(ctx).wf(),
    ensures
        final(ctx).wf(),
        final(ctx)@ == after_setup(old(ctx)@, program, vao, vbo),
        r == program,
{
    ctx.add_shader_program(String::from_str(DEFAULT_SHADER), program);
    let r = ctx.set_shader_program(String::from_str(DEFAULT_SHADER));
    ctx.install_vertex_objects(vao, vbo);
    r
}

/// A second set-up keeps the vertex array and vertex buffer of the first,
/// and the active program too, while the default name is registered anew
/// with the program that the second set-up linked.
pub proof fn lemma_setup_twice(v: ContextView, first_program: u32, first_vao: u32, first_vbo: u32, second_program: u32, second_vao: u32, second_vbo: u32)
    ensures
        after_setup(after_setup(v, first_program, first_vao, first_vbo), second_program, second_vao, second_vbo).vertex_array == after_setup(
            v,
            first_program,
            first_vao,
            first_vbo,
        ).vertex_array,
        after_setup(after_setup(v, first_program, first_vao, first_vbo), second_program, second_vao, second_vbo).vertex_buffer == after_setup(
            v,
            first_program,
            first_vao,
            first_vbo,
        ).vertex_buffer,
        after_setup(after_setup(v, first_program, first_vao, first_vbo), second_program, second_vao, second_vbo).program == after_setup(
            v,
            first_program,
            first_vao,
            first_vbo,
        ).program,
        after_setup(after_setup(v, first_program, first_vao, first_vbo), second_program, second_vao, second_vbo).programs[DEFAULT_SHADER@] == second_program,
{
}

} // verus!
