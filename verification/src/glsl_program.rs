//! Shader program lifecycle: stages are added, compiled (every stage must
//! have non-blank source), linked (a compute stage, or both a vertex and a
//! fragment stage) and validated; uniform locations and texture units are
//! cached per name.

use vstd::prelude::*;
use vstd::string::StringExecFns;
use crate::shader_code::{
    ShaderStage,
    NUM_SHADER_STAGES,
    spec_stage_at,
    spec_stage_debug_name,
    spec_stage_index,
};
use crate::text::{seq_is_blank, str_is_blank};

verus! {

/// Compilation or link status of a program.
#[derive(Debug, Clone, Copy, PartialEq, Eq, Structural)]
pub enum CompileStatus {
    NotCompiled,
    Compiling,
    Success,
    Failed,
}

/// A shader program: its stages, compile and link status, and the cached
/// uniform locations and texture units.
#[derive(Debug)]
pub struct HdStGLSLProgram {
    id: u64,
    gpu_handle: u64,
    stages: Vec<Option<String>>,
    compile_status: CompileStatus,
    link_status: CompileStatus,
    uniform_locations: Vec<(String, i32)>,
    texture_units: Vec<(String, u32)>,
    error_log: String,
}

/// The first stage, in canonical order from position `i` on, whose source is
/// blank.
pub open spec fn first_blank_from(stages: Map<ShaderStage, Seq<char>>, i: int) -> Option<
    ShaderStage,
>
    decreases NUM_SHADER_STAGES - i,
{
    if i >= NUM_SHADER_STAGES || i < 0 {
        None
    } else if stages.contains_key(spec_stage_at(i)) && seq_is_blank(stages[spec_stage_at(i)]) {
        Some(spec_stage_at(i))
    } else {
        first_blank_from(stages, i + 1)
    }
}

/// Error logged when the program has no stages at compile time.
pub open spec fn no_stages_message() -> Seq<char> {
    "No shader stages to compile"@
}

/// Error logged for a stage with blank source.
pub open spec fn empty_stage_message(s: ShaderStage) -> Seq<char> {
    "Empty source for stage: "@ + spec_stage_debug_name(s)
}

/// Error logged when linking before a successful compile.
pub open spec fn not_compiled_message() -> Seq<char> {
    "Cannot link: compilation not successful"@
}

/// Error logged when linking without stages.
pub open spec fn nothing_to_link_message() -> Seq<char> {
    "At least one shader has to be compiled before linking."@
}

/// Error logged when a rendering program lacks a vertex or fragment stage.
pub open spec fn missing_stages_message(has_vertex: bool, has_fragment: bool) -> Seq<char> {
    "Failed to link shader: missing required stage(s): "@ + (if !has_vertex && !has_fragment {
        "vertex, fragment"@
    } else if !has_vertex {
        "vertex"@
    } else {
        "fragment"@
    })
}

/// Position of the first entry named `name`, if any.
#[verifier::opaque]
pub open spec fn find_name<V>(entries: Seq<(Seq<char>, V)>, name: Seq<char>) -> Option<int> {
    if exists|i: int| 0 <= i < entries.len() && #[trigger] entries[i].0 == name {
        Some(
            choose|i: int|
                0 <= i < entries.len() && #[trigger] entries[i].0 == name && forall|j: int|
                    0 <= j < i ==> (#[trigger] entries[j]).0 != name,
        )
    } else {
        None
    }
}

/// Looking up uniform `name` in the cached locations: its cached location
/// and the unchanged cache, or, for a new name, the number of cached names
/// as its location and the cache with the name appended.
pub open spec fn uniform_query(u: Seq<(Seq<char>, i32)>, name: Seq<char>) -> (i32, Seq<(Seq<char>, i32)>) {
    match find_name(u, name) {
        Some(i) => (u[i].1, u),
        None => (u.len() as i32, u.push((name, u.len() as i32))),
    }
}

/// Texture units after assigning `unit` to sampler `name`: the sampler's
/// entry is replaced, or appended for a new sampler.
pub open spec fn texture_unit_assign(t: Seq<(Seq<char>, u32)>, name: Seq<char>, unit: u32) -> Seq<(Seq<char>, u32)> {
    match find_name(t, name) {
        Some(i) => t.update(i, (name, unit)),
        None => t.push((name, unit)),
    }
}

/// The unit assigned to sampler `name`, if any.
pub open spec fn texture_unit_lookup(t: Seq<(Seq<char>, u32)>, name: Seq<char>) -> Option<u32> {
    match find_name(t, name) {
        Some(i) => Some(t[i].1),
        None => None,
    }
}

/// Each cached location is the position of its name in the cache.
pub open spec fn uniforms_numbered(u: Seq<(Seq<char>, i32)>) -> bool {
    forall|i: int| 0 <= i < u.len() ==> #[trigger] u[i].1 == i
}

/// Views of name-keyed entries.
pub open spec fn entries_view<V>(v: Seq<(String, V)>) -> Seq<(Seq<char>, V)> {
    v.map_values(|e: (String, V)| (e.0@, e.1))
}

proof fn lemma_first_match_exists<V>(entries: Seq<(Seq<char>, V)>, name: Seq<char>, k: int)
    requires
        0 <= k < entries.len(),
        entries[k].0 == name,
        forall|j: int| 0 <= j < k ==> (#[trigger] entries[j]).0 != name,
    ensures
        find_name(entries, name) == Some(k),
{
    reveal(find_name);
    assert(exists|i: int| 0 <= i < entries.len() && #[trigger] entries[i].0 == name);
    let c = choose|i: int|
        0 <= i < entries.len() && #[trigger] entries[i].0 == name && forall|j: int|
            0 <= j < i ==> (#[trigger] entries[j]).0 != name;
    assert(0 <= c < entries.len() && entries[c].0 == name && forall|j: int|
        0 <= j < c ==> (#[trigger] entries[j]).0 != name);
    if c < k {
        assert(entries[c].0 != name);
    }
    if k < c {
        assert(entries[k].0 != name);
    }
}

/// `find_name` finds nothing exactly when no entry carries the name.
proof fn lemma_find_name_none<V>(entries: Seq<(Seq<char>, V)>, name: Seq<char>)
    ensures
        find_name(entries, name) is None <==> forall|j: int|
            0 <= j < entries.len() ==> (#[trigger] entries[j]).0 != name,
{
    reveal(find_name);
    if find_name(entries, name) is None {
        assert forall|j: int| 0 <= j < entries.len() implies (#[trigger] entries[j]).0 != name by {
            if entries[j].0 == name {
                assert(exists|i: int| 0 <= i < entries.len() && #[trigger] entries[i].0 == name);
            }
        }
    }
}

impl HdStGLSLProgram {
    /// One source slot per stage.
    pub closed spec fn wf(self) -> bool {
        self.stages@.len() == NUM_SHADER_STAGES
    }

    pub closed spec fn spec_id(self) -> u64 {
        self.id
    }

    pub closed spec fn spec_gpu_handle(self) -> u64 {
        self.gpu_handle
    }

    /// The source of each present stage.
    pub closed spec fn spec_stages(self) -> Map<ShaderStage, Seq<char>> {
        Map::new(
            |s: ShaderStage| self.stages@[spec_stage_index(s)] is Some,
            |s: ShaderStage| self.stages@[spec_stage_index(s)]->0@,
        )
    }

    pub closed spec fn spec_compile_status(self) -> CompileStatus {
        self.compile_status
    }

    pub closed spec fn spec_link_status(self) -> CompileStatus {
        self.link_status
    }

    pub closed spec fn spec_error_log(self) -> Seq<char> {
        self.error_log@
    }

    /// Cached uniform locations, in order of first request.
    pub closed spec fn spec_uniforms(self) -> Seq<(Seq<char>, i32)> {
        entries_view(self.uniform_locations@)
    }

    /// Texture unit assignments, in order of first assignment.
    pub closed spec fn spec_texture_units(self) -> Seq<(Seq<char>, u32)> {
        entries_view(self.texture_units@)
    }

    /// The program has stage `s`.
    pub open spec fn has_stage(self, s: ShaderStage) -> bool {
        self.spec_stages().contains_key(s)
    }

    /// A program with the given id and no stages, not compiled or linked.
    pub fn new(id: u64) -> (p: Self)
        ensures
            p.spec_id() == id,
            p.spec_gpu_handle() == 0,
            p.spec_stages() == Map::<ShaderStage, Seq<char>>::empty(),
            p.spec_compile_status() is NotCompiled,
            p.spec_link_status() is NotCompiled,
            p.spec_error_log().len() == 0,
            p.spec_uniforms().len() == 0,
            p.spec_texture_units().len() == 0,
            p.wf(),
    {
        let mut stages: Vec<Option<String>> = Vec::new();
        let mut i: usize = 0;
        while i < NUM_SHADER_STAGES
            invariant
                i <= NUM_SHADER_STAGES,
                stages@.len() == i,
                forall|j: int| 0 <= j < i ==> #[trigger] stages@[j] is None,
            decreases NUM_SHADER_STAGES - i,
        {
            stages.push(None);
            i = i + 1;
        }
        let p = HdStGLSLProgram {
            id,
            gpu_handle: 0,
            stages,
            compile_status: CompileStatus::NotCompiled,
            link_status: CompileStatus::NotCompiled,
            uniform_locations: Vec::new(),
            texture_units: Vec::new(),
            error_log: String::new(),
        };
        assert(p.spec_stages() =~= Map::<ShaderStage, Seq<char>>::empty());
        assert(p.spec_uniforms() =~= Seq::<(Seq<char>, i32)>::empty());
        assert(p.spec_texture_units() =~= Seq::<(Seq<char>, u32)>::empty());
        p
    }

    /// The program id.
    pub fn get_id(&self) -> (id: u64)
        requires
            self.wf(),
        ensures
            id == self.spec_id(),
    {
        self.id
    }

    /// The GPU handle (the id once linked, 0 before).
    pub fn get_gpu_handle(&self) -> (h: u64)
        requires
            self.wf(),
        ensures
            h == self.spec_gpu_handle(),
    {
        self.gpu_handle
    }

    /// Adds or replaces a stage; the program must be compiled again.
    pub fn add_stage(&mut self, stage: ShaderStage, source: String)
        requires
            old(self).wf(),
        ensures
            final(self).wf(),
            final(self).spec_stages() == old(self).spec_stages().insert(stage, source@),
            final(self).spec_compile_status() is NotCompiled,
            final(self).spec_link_status() == old(self).spec_link_status(),
            final(self).spec_id() == old(self).spec_id(),
            final(self).spec_gpu_handle() == old(self).spec_gpu_handle(),
            final(self).spec_error_log() == old(self).spec_error_log(),
            final(self).spec_uniforms() == old(self).spec_uniforms(),
            final(self).spec_texture_units() == old(self).spec_texture_units(),
    {
        let ghost before = self.spec_stages();
        let i = stage.index();
        self.stages.set(i, Some(source));
        self.compile_status = CompileStatus::NotCompiled;
        proof {
            assert forall|s: ShaderStage| #[trigger] spec_stage_index(s) == i implies s == stage by {}
            assert(self.spec_stages() =~= before.insert(stage, source@));
        }
    }

    /// Source of a stage, if present.
    pub fn get_stage_source(&self, stage: ShaderStage) -> (src: Option<&String>)
        requires
            self.wf(),
        ensures
            match src {
                Some(s) => self.has_stage(stage) && self.spec_stages()[stage] == s@,
                None => !self.has_stage(stage),
            },
    {
        let i = stage.index();
        match &self.stages[i] {
            Some(s) => Some(s),
            None => None,
        }
    }

    /// Whether stage `stage` is present.
    pub fn has_stage_source(&self, stage: ShaderStage) -> (b: bool)
        requires
            self.wf(),
        ensures
            b == self.has_stage(stage),
    {
        let i = stage.index();
        self.stages[i].is_some()
    }

    /// Checks every stage before compilation: fails with a message when
    /// there are no stages or when a stage (the first in canonical stage
    /// order) has blank source; succeeds otherwise.
    pub fn compile(&mut self) -> (ok: bool)
        requires
            old(self).wf(),
        ensures
            final(self).wf(),
            ok == (old(self).spec_stages().dom().len() > 0 && first_blank_from(
                old(self).spec_stages(),
                0,
            ) is None),
            final(self).spec_compile_status() == (if ok {
                CompileStatus::Success
            } else {
                CompileStatus::Failed
            }),
            final(self).spec_error_log() == (if old(self).spec_stages().dom().len() == 0 {
                no_stages_message()
            } else {
                match first_blank_from(old(self).spec_stages(), 0) {
                    Some(s) => empty_stage_message(s),
                    None => old(self).spec_error_log(),
                }
            }),
            final(self).spec_stages() == old(self).spec_stages(),
            final(self).spec_link_status() == old(self).spec_link_status(),
            final(self).spec_id() == old(self).spec_id(),
            final(self).spec_gpu_handle() == old(self).spec_gpu_handle(),
            final(self).spec_uniforms() == old(self).spec_uniforms(),
            final(self).spec_texture_units() == old(self).spec_texture_units(),
    {
        proof {
            lemma_stage_count(self.spec_stages(), self.stages@);
        }
        if !self.any_stage() {
            self.error_log = String::from_str("No shader stages to compile");
            self.compile_status = CompileStatus::Failed;
            return false;
        }
        self.compile_status = CompileStatus::Compiling;
        let ghost stages = self.spec_stages();
        let mut i: usize = 0;
        while i < NUM_SHADER_STAGES
            invariant
                self.stages@.len() == NUM_SHADER_STAGES,
                self.spec_stages() == stages,
                stages == old(self).spec_stages(),
                stages.dom().len() > 0,
                i <= NUM_SHADER_STAGES,
                first_blank_from(stages, 0) == first_blank_from(stages, i as int),
                self.id == old(self).id,
                self.gpu_handle == old(self).gpu_handle,
                self.error_log == old(self).error_log,
                self.link_status == old(self).link_status,
                self.uniform_locations == old(self).uniform_locations,
                self.texture_units == old(self).texture_units,
            decreases NUM_SHADER_STAGES - i,
        {
            let stage = ShaderStage::at(i);
            let blank = match &self.stages[i] {
                Some(src) => str_is_blank(src.as_str()),
                None => false,
            };
            proof {
                assert(stages.contains_key(stage) == (self.stages@[i as int] is Some));
                if blank {
                    assert(first_blank_from(stages, i as int) == Some(stage));
                } else {
                    assert(first_blank_from(stages, i as int) == first_blank_from(
                        stages,
                        i as int + 1,
                    ));
                }
            }
            if blank {
                let mut log = String::from_str("Empty source for stage: ");
                log.append(stage.debug_name());
                self.error_log = log;
                self.compile_status = CompileStatus::Failed;
                return false;
            }
            i = i + 1;
        }
        self.compile_status = CompileStatus::Success;
        true
    }

    /// Whether any stage is present.
    fn any_stage(&self) -> (b: bool)
        requires
            self.wf(),
        ensures
            b == (self.spec_stages().dom().len() > 0),
    {
        proof {
            lemma_stage_count(self.spec_stages(), self.stages@);
        }
        let mut i: usize = 0;
        while i < NUM_SHADER_STAGES
            invariant
                self.stages@.len() == NUM_SHADER_STAGES,
                i <= NUM_SHADER_STAGES,
                forall|j: int| 0 <= j < i ==> #[trigger] self.stages@[j] is None,
                (self.spec_stages().dom().len() > 0) == exists|j: int|
                    0 <= j < NUM_SHADER_STAGES && #[trigger] self.stages@[j] is Some,
            decreases NUM_SHADER_STAGES - i,
        {
            if self.stages[i].is_some() {
                return true;
            }
            i = i + 1;
        }
        false
    }

    /// Links the compiled stages: requires a successful compile, at least
    /// one stage, and either a compute stage or both vertex and fragment
    /// stages. On success the GPU handle becomes the program id.
    pub fn link(&mut self) -> (ok: bool)
        requires
            old(self).wf(),
        ensures
            final(self).wf(),
            ok == (old(self).spec_compile_status() is Success && old(self).spec_stages().dom().len()
                > 0 && (old(self).has_stage(ShaderStage::Compute) || (old(self).has_stage(
                ShaderStage::Vertex,
            ) && old(self).has_stage(ShaderStage::Fragment)))),
            final(self).spec_link_status() == (if ok {
                CompileStatus::Success
            } else {
                CompileStatus::Failed
            }),
            final(self).spec_gpu_handle() == (if ok {
                old(self).spec_id()
            } else {
                old(self).spec_gpu_handle()
            }),
            final(self).spec_error_log() == (if !(old(self).spec_compile_status() is Success) {
                not_compiled_message()
            } else if old(self).spec_stages().dom().len() == 0 {
                nothing_to_link_message()
            } else if !ok {
                missing_stages_message(
                    old(self).has_stage(ShaderStage::Vertex),
                    old(self).has_stage(ShaderStage::Fragment),
                )
            } else {
                old(self).spec_error_log()
            }),
            final(self).spec_stages() == old(self).spec_stages(),
            final(self).spec_compile_status() == old(self).spec_compile_status(),
            final(self).spec_id() == old(self).spec_id(),
            final(self).spec_uniforms() == old(self).spec_uniforms(),
            final(self).spec_texture_units() == old(self).spec_texture_units(),
    {
        if self.compile_status != CompileStatus::Success {
            self.error_log = String::from_str("Cannot link: compilation not successful");
            self.link_status = CompileStatus::Failed;
            return false;
        }
        if !self.any_stage() {
            self.error_log = String::from_str(
                "At least one shader has to be compiled before linking.",
            );
            self.link_status = CompileStatus::Failed;
            return false;
        }
        let has_compute = self.has_stage_source(ShaderStage::Compute);
        let has_vertex = self.has_stage_source(ShaderStage::Vertex);
        let has_fragment = self.has_stage_source(ShaderStage::Fragment);
        if !has_compute && !(has_vertex && has_fragment) {
            let mut log = String::from_str("Failed to link shader: missing required stage(s): ");
            if !has_vertex && !has_fragment {
                log.append("vertex, fragment");
            } else if !has_vertex {
                log.append("vertex");
            } else {
                log.append("fragment");
            }
            self.error_log = log;
            self.link_status = CompileStatus::Failed;
            return false;
        }
        self.link_status = CompileStatus::Success;
        self.gpu_handle = self.id;
        true
    }

    /// A linked program with vertex and fragment stages.
    pub fn validate(&self) -> (b: bool)
        requires
            self.wf(),
        ensures
            b == (self.spec_link_status() is Success && self.has_stage(ShaderStage::Vertex)
                && self.has_stage(ShaderStage::Fragment)),
    {
        if self.link_status != CompileStatus::Success {
            return false;
        }
        self.has_stage_source(ShaderStage::Vertex) && self.has_stage_source(ShaderStage::Fragment)
    }

    pub fn get_compile_status(&self) -> (s: CompileStatus)
        requires
            self.wf(),
        ensures
            s == self.spec_compile_status(),
    {
        self.compile_status
    }

    pub fn get_link_status(&self) -> (s: CompileStatus)
        requires
            self.wf(),
        ensures
            s == self.spec_link_status(),
    {
        self.link_status
    }

    /// Compiled, linked and valid.
    pub fn is_valid(&self) -> (b: bool)
        requires
            self.wf(),
        ensures
            b == (self.spec_compile_status() is Success && self.spec_link_status() is Success
                && self.has_stage(ShaderStage::Vertex) && self.has_stage(ShaderStage::Fragment)),
    {
        self.compile_status == CompileStatus::Success && self.link_status == CompileStatus::Success
            && self.validate()
    }

    /// The error log.
    pub fn get_error_log(&self) -> (log: &str)
        requires
            self.wf(),
        ensures
            log@ == self.spec_error_log(),
    {
        self.error_log.as_str()
    }

    /// The cached location of uniform `name`; a name seen for the first time
    /// gets the number of names cached before it.
    pub fn get_uniform_location(&mut self, name: &str) -> (loc: Option<i32>)
        requires
            old(self).wf(),
        ensures
            final(self).wf(),
            loc == Some(uniform_query(old(self).spec_uniforms(), name@).0),
            final(self).spec_uniforms() == uniform_query(old(self).spec_uniforms(), name@).1,
            final(self).spec_stages() == old(self).spec_stages(),
            final(self).spec_compile_status() == old(self).spec_compile_status(),
            final(self).spec_link_status() == old(self).spec_link_status(),
            final(self).spec_id() == old(self).spec_id(),
            final(self).spec_gpu_handle() == old(self).spec_gpu_handle(),
            final(self).spec_error_log() == old(self).spec_error_log(),
            final(self).spec_texture_units() == old(self).spec_texture_units(),
    {
        let ghost u = self.spec_uniforms();
        let mut i: usize = 0;
        while i < self.uniform_locations.len()
            invariant
                *self == *old(self),
                self.wf(),
                u == entries_view(self.uniform_locations@),
                i <= self.uniform_locations@.len(),
                forall|j: int| 0 <= j < i ==> (#[trigger] u[j]).0 != name@,
            decreases self.uniform_locations.len() - i,
        {
            if crate::text::str_eq(self.uniform_locations[i].0.as_str(), name) {
                proof {
                    lemma_first_match_exists(u, name@, i as int);
                }
                return Some(self.uniform_locations[i].1);
            }
            i = i + 1;
        }
        proof {
            lemma_find_name_none(u, name@);
        }
        let loc = self.uniform_locations.len() as i32;
        self.uniform_locations.push((String::from_str(name), loc));
        proof {
            assert(self.spec_uniforms() =~= u.push((name@, loc)));
        }
        Some(loc)
    }

    /// Binds a uniform value: only makes sure the uniform has a location.
    pub fn set_uniform<V>(&mut self, name: &str, _value: &V)
        requires
            old(self).wf(),
        ensures
            final(self).wf(),
            final(self).spec_uniforms() == uniform_query(old(self).spec_uniforms(), name@).1,
            final(self).spec_stages() == old(self).spec_stages(),
            final(self).spec_compile_status() == old(self).spec_compile_status(),
            final(self).spec_link_status() == old(self).spec_link_status(),
            final(self).spec_texture_units() == old(self).spec_texture_units(),
    {
        self.get_uniform_location(name);
    }

    /// Assigns a texture unit to a sampler, replacing an earlier assignment.
    pub fn set_texture_unit(&mut self, name: String, unit: u32)
        requires
            old(self).wf(),
        ensures
            final(self).wf(),
            final(self).spec_texture_units() == texture_unit_assign(
                old(self).spec_texture_units(),
                name@,
                unit,
            ),
            final(self).spec_stages() == old(self).spec_stages(),
            final(self).spec_compile_status() == old(self).spec_compile_status(),
            final(self).spec_link_status() == old(self).spec_link_status(),
            final(self).spec_uniforms() == old(self).spec_uniforms(),
    {
        let ghost t = self.spec_texture_units();
        let mut i: usize = 0;
        while i < self.texture_units.len()
            invariant
                *self == *old(self),
                self.wf(),
                t == entries_view(self.texture_units@),
                i <= self.texture_units@.len(),
                forall|j: int| 0 <= j < i ==> (#[trigger] t[j]).0 != name@,
            decreases self.texture_units.len() - i,
        {
            if self.texture_units[i].0 == name {
                proof {
                    lemma_first_match_exists(t, name@, i as int);
                }
                self.texture_units.set(i, (name, unit));
                proof {
                    assert(self.spec_texture_units() =~= t.update(i as int, (name@, unit)));
                }
                return;
            }
            i = i + 1;
        }
        proof {
            lemma_find_name_none(t, name@);
        }
        let ghost nv = name@;
        self.texture_units.push((name, unit));
        proof {
            assert(self.spec_texture_units() =~= t.push((nv, unit)));
        }
    }

    /// The texture unit assigned to a sampler.
    pub fn get_texture_unit(&self, name: &str) -> (u: Option<u32>)
        requires
            self.wf(),
        ensures
            u == texture_unit_lookup(self.spec_texture_units(), name@),
    {
        let ghost t = self.spec_texture_units();
        let mut i: usize = 0;
        while i < self.texture_units.len()
            invariant
                t == entries_view(self.texture_units@),
                i <= self.texture_units@.len(),
                forall|j: int| 0 <= j < i ==> (#[trigger] t[j]).0 != name@,
            decreases self.texture_units.len() - i,
        {
            if crate::text::str_eq(self.texture_units[i].0.as_str(), name) {
                proof {
                    lemma_first_match_exists(t, name@, i as int);
                }
                return Some(self.texture_units[i].1);
            }
            i = i + 1;
        }
        proof {
            lemma_find_name_none(t, name@);
        }
        None
    }

    /// Binds the program for rendering (nothing to do without a device).
    pub fn bind(&self) {
    }

    /// Unbinds the program (nothing to do without a device).
    pub fn unbind(&self) {
    }

    /// The present stages, in canonical stage order.
    pub fn get_stages(&self) -> (v: Vec<ShaderStage>)
        requires
            self.wf(),
        ensures
            forall|s: ShaderStage| v@.contains(s) <==> self.has_stage(s),
            v@.no_duplicates(),
    {
        broadcast use vstd::seq_lib::group_seq_properties;

        let mut v: Vec<ShaderStage> = Vec::new();
        let mut i: usize = 0;
        while i < NUM_SHADER_STAGES
            invariant
                self.stages@.len() == NUM_SHADER_STAGES,
                i <= NUM_SHADER_STAGES,
                v@.no_duplicates(),
                forall|s: ShaderStage|
                    #[trigger] v@.contains(s) <==> (spec_stage_index(s) < i && self.has_stage(s)),
            decreases NUM_SHADER_STAGES - i,
        {
            let s = ShaderStage::at(i);
            proof {
                assert(v@.contains(s) <==> (spec_stage_index(s) < i && self.has_stage(s)));
                assert(self.has_stage(s) == (self.stages@[i as int] is Some));
            }
            let ghost vold = v@;
            if self.stages[i].is_some() {
                v.push(s);
            }
            proof {
                assert forall|t: ShaderStage|
                    #[trigger] v@.contains(t) <==> (spec_stage_index(t) < i + 1 && self.has_stage(t)) by {
                    assert(vold.contains(t) <==> (spec_stage_index(t) < i && self.has_stage(t)));
                    if spec_stage_index(t) == i {
                        assert(t == s);
                    }
                    if self.stages@[i as int] is Some {
                        assert(v@ == vold.push(s));
                        if vold.contains(t) {
                            let k = choose|k: int| 0 <= k < vold.len() && vold[k] == t;
                            assert(v@[k] == t);
                        }
                        if t == s {
                            assert(v@[vold.len() as int] == t);
                        }
                        if v@.contains(t) {
                            let k = choose|k: int| 0 <= k < v@.len() && v@[k] == t;
                            if k < vold.len() {
                                assert(vold[k] == t);
                            }
                        }
                    } else {
                        assert(v@ == vold);
                    }
                }
            }
            i = i + 1;
        }
        proof {
            assert forall|t: ShaderStage| v@.contains(t) <==> self.has_stage(t) by {
                crate::shader_code::lemma_stage_index_roundtrip(t);
            }
        }
        v
    }
}

/// Number of present stages equals the number of occupied slots.
proof fn lemma_stage_count(m: Map<ShaderStage, Seq<char>>, slots: Seq<Option<String>>)
    requires
        slots.len() == NUM_SHADER_STAGES,
        m == Map::new(
            |s: ShaderStage| slots[spec_stage_index(s)] is Some,
            |s: ShaderStage| slots[spec_stage_index(s)]->0@,
        ),
    ensures
        m.dom().finite(),
        (m.dom().len() > 0) == exists|j: int| 0 <= j < NUM_SHADER_STAGES && #[trigger] slots[j] is Some,
{
    let full = set![
        ShaderStage::Vertex,
        ShaderStage::TessControl,
        ShaderStage::TessEval,
        ShaderStage::Geometry,
        ShaderStage::Fragment,
        ShaderStage::Compute,
    ];
    assert(m.dom().subset_of(full));
    vstd::set_lib::lemma_len_subset(m.dom(), full);
    if exists|j: int| 0 <= j < NUM_SHADER_STAGES && #[trigger] slots[j] is Some {
        let j = choose|j: int| 0 <= j < NUM_SHADER_STAGES && #[trigger] slots[j] is Some;
        let s = spec_stage_at(j);
        assert(spec_stage_index(s) == j);
        assert(m.dom().contains(s));
    } else {
        assert(m.dom() =~= Set::empty());
    }
}

/// Builder assembling a program from stage sources.
pub struct HdStGLSLProgramBuilder {
    id: u64,
    stages: Vec<(ShaderStage, String)>,
}

/// The stage map built from stages set in order (a later source replaces an
/// earlier one for the same stage).
pub open spec fn stages_map(v: Seq<(ShaderStage, Seq<char>)>) -> Map<ShaderStage, Seq<char>>
    decreases v.len(),
{
    if v.len() == 0 {
        Map::empty()
    } else {
        stages_map(v.drop_last()).insert(v.last().0, v.last().1)
    }
}

impl HdStGLSLProgramBuilder {
    pub closed spec fn spec_id(self) -> u64 {
        self.id
    }

    /// The stages set so far, in order.
    pub closed spec fn spec_stages(self) -> Seq<(ShaderStage, Seq<char>)> {
        self.stages@.map_values(|e: (ShaderStage, String)| (e.0, e.1@))
    }

    /// A builder for program 0 with no stages.
    pub fn new() -> (b: Self)
        ensures
            b.spec_id() == 0,
            b.spec_stages().len() == 0,
    {
        let b = HdStGLSLProgramBuilder { id: 0, stages: Vec::new() };
        assert(b.spec_stages() =~= Seq::<(ShaderStage, Seq<char>)>::empty());
        b
    }

    /// Sets the program id.
    pub fn id(self, id: u64) -> (b: Self)
        ensures
            b.spec_id() == id,
            b.spec_stages() == self.spec_stages(),
    {
        HdStGLSLProgramBuilder { id, stages: self.stages }
    }

    fn with_stage(self, stage: ShaderStage, source: String) -> (b: Self)
        ensures
            b.spec_id() == self.spec_id(),
            b.spec_stages() == self.spec_stages().push((stage, source@)),
    {
        let mut stages = self.stages;
        let ghost before = stages@;
        stages.push((stage, source));
        let b = HdStGLSLProgramBuilder { id: self.id, stages };
        assert(b.spec_stages() =~= self.spec_stages().push((stage, source@)));
        b
    }

    /// Sets the vertex stage.
    pub fn vertex(self, source: String) -> (b: Self)
        ensures
            b.spec_id() == self.spec_id(),
            b.spec_stages() == self.spec_stages().push((ShaderStage::Vertex, source@)),
    {
        self.with_stage(ShaderStage::Vertex, source)
    }

    /// Sets the fragment stage.
    pub fn fragment(self, source: String) -> (b: Self)
        ensures
            b.spec_id() == self.spec_id(),
            b.spec_stages() == self.spec_stages().push((ShaderStage::Fragment, source@)),
    {
        self.with_stage(ShaderStage::Fragment, source)
    }

    /// Sets the geometry stage.
    pub fn geometry(self, source: String) -> (b: Self)
        ensures
            b.spec_id() == self.spec_id(),
            b.spec_stages() == self.spec_stages().push((ShaderStage::Geometry, source@)),
    {
        self.with_stage(ShaderStage::Geometry, source)
    }

    /// The program with the builder's id and stages, not yet compiled.
    pub fn build(self) -> (p: HdStGLSLProgram)
        ensures
            p.spec_id() == self.spec_id(),
            p.spec_stages() == stages_map(self.spec_stages()),
            p.spec_compile_status() is NotCompiled,
            p.spec_link_status() is NotCompiled,
            p.wf(),
    {
        let ghost all = self.spec_stages();
        let mut program = HdStGLSLProgram::new(self.id);
        let mut stages = self.stages;
        let n = stages.len();
        let mut k: usize = 0;
        while stages.len() > 0
            invariant
                k <= n,
                n == all.len(),
                stages@.len() == n - k,
                forall|j: int|
                    0 <= j < stages@.len() ==> (#[trigger] stages@[j]).0 == all[k + j].0
                        && stages@[j].1@ == all[k + j].1,
                program.spec_stages() == stages_map(all.subrange(0, k as int)),
                program.spec_id() == self.spec_id(),
                program.spec_compile_status() is NotCompiled,
                program.spec_link_status() is NotCompiled,
                program.wf(),
            decreases stages.len(),
        {
            let (stage, source) = stages.remove(0);
            program.add_stage(stage, source);
            proof {
                assert(all.subrange(0, k as int + 1).drop_last() =~= all.subrange(0, k as int));
            }
            k = k + 1;
        }
        assert(all.subrange(0, n as int) =~= all);
        program
    }
}

impl Default for HdStGLSLProgramBuilder {
    fn default() -> (b: Self)
        ensures
            b.spec_id() == 0,
            b.spec_stages().len() == 0,
    {
        HdStGLSLProgramBuilder::new()
    }
}

/// Asking for a uniform's location again gives the same location and leaves
/// the cache as it was.
pub proof fn lemma_uniform_location_stable(u: Seq<(Seq<char>, i32)>, name: Seq<char>)
    ensures
        uniform_query(uniform_query(u, name).1, name) == uniform_query(u, name),
{
    if find_name(u, name) is None {
        lemma_find_name_none(u, name);
        let u1 = u.push((name, u.len() as i32));
        assert forall|j: int| 0 <= j < u.len() implies (#[trigger] u1[j]).0 != name by {
            assert(u1[j] == u[j]);
        }
        lemma_first_match_exists(u1, name, u.len() as int);
    }
}

/// Locations handed out by lookups are the positions of their names, so a
/// new uniform never shares a location with a cached one.
pub proof fn lemma_uniform_locations_distinct(u: Seq<(Seq<char>, i32)>, name: Seq<char>)
    requires
        uniforms_numbered(u),
        u.len() < i32::MAX,
    ensures
        uniforms_numbered(uniform_query(u, name).1),
        find_name(u, name) is None ==> forall|i: int|
            0 <= i < u.len() ==> #[trigger] u[i].1 != uniform_query(u, name).0,
{
    if find_name(u, name) is None {
        let u1 = u.push((name, u.len() as i32));
        assert forall|i: int| 0 <= i < u1.len() implies #[trigger] u1[i].1 == i by {
            if i < u.len() {
                assert(u1[i] == u[i]);
            }
        }
    }
}

/// When some entry is named `name`, `find_name` gives the first one.
proof fn lemma_find_name_first<V>(entries: Seq<(Seq<char>, V)>, name: Seq<char>, k: int)
    requires
        0 <= k < entries.len(),
        entries[k].0 == name,
    ensures
        find_name(entries, name) matches Some(f) && 0 <= f <= k && entries[f].0 == name && forall|j: int|
            0 <= j < f ==> (#[trigger] entries[j]).0 != name,
    decreases k,
{
    if exists|j: int| 0 <= j < k && #[trigger] entries[j].0 == name {
        let j = choose|j: int| 0 <= j < k && #[trigger] entries[j].0 == name;
        lemma_find_name_first(entries, name, j);
    } else {
        lemma_first_match_exists(entries, name, k);
    }
}

/// Entries that agree on which positions carry `name` agree on its first
/// position.
proof fn lemma_find_name_agrees<V, W>(a: Seq<(Seq<char>, V)>, b: Seq<(Seq<char>, W)>, name: Seq<char>)
    requires
        a.len() <= b.len(),
        forall|j: int| 0 <= j < a.len() ==> ((#[trigger] a[j]).0 == name <==> b[j].0 == name),
        forall|j: int| a.len() <= j < b.len() ==> (#[trigger] b[j]).0 != name,
    ensures
        find_name(a, name) == find_name(b, name),
{
    if exists|k: int| 0 <= k < a.len() && #[trigger] a[k].0 == name {
        let k = choose|k: int| 0 <= k < a.len() && #[trigger] a[k].0 == name;
        lemma_find_name_first(a, name, k);
        let f = find_name(a, name)->0;
        assert(b[f].0 == name);
        assert forall|j: int| 0 <= j < f implies (#[trigger] b[j]).0 != name by {
            assert(a[j].0 != name);
        }
        lemma_first_match_exists(b, name, f);
    } else {
        assert forall|j: int| 0 <= j < b.len() implies (#[trigger] b[j]).0 != name by {
            if j < a.len() {
                assert(a[j].0 != name);
            }
        }
        lemma_find_name_none(a, name);
        lemma_find_name_none(b, name);
    }
}

proof fn lemma_assign_replaces(t: Seq<(Seq<char>, u32)>, name: Seq<char>, unit: u32, other: Seq<char>)
    requires
        find_name(t, name) is Some,
    ensures
        texture_unit_lookup(t.update(find_name(t, name)->0, (name, unit)), name) == Some(unit),
        other != name ==> texture_unit_lookup(t.update(find_name(t, name)->0, (name, unit)), other)
            == texture_unit_lookup(t, other),
{
    lemma_find_name_none(t, name);
    let k = choose|k: int| 0 <= k < t.len() && #[trigger] t[k].0 == name;
    lemma_find_name_first(t, name, k);
    let i = find_name(t, name)->0;
    let t1 = t.update(i, (name, unit));
    assert forall|j: int| 0 <= j < i implies (#[trigger] t1[j]).0 != name by {
        assert(t1[j] == t[j]);
    }
    lemma_first_match_exists(t1, name, i);
    if other != name {
        assert forall|j: int| 0 <= j < t.len() implies ((#[trigger] t[j]).0 == other <==> t1[j].0 == other) by {
            if j != i {
                assert(t1[j] == t[j]);
            }
        }
        lemma_find_name_agrees(t, t1, other);
        if find_name(t, other) is Some {
            lemma_find_name_none(t, other);
            let ko = choose|ko: int| 0 <= ko < t.len() && #[trigger] t[ko].0 == other;
            lemma_find_name_first(t, other, ko);
            let f = find_name(t, other)->0;
            assert(t1[f] == t[f]);
        }
    }
}

proof fn lemma_assign_appends(t: Seq<(Seq<char>, u32)>, name: Seq<char>, unit: u32, other: Seq<char>)
    requires
        find_name(t, name) is None,
    ensures
        texture_unit_lookup(t.push((name, unit)), name) == Some(unit),
        other != name ==> texture_unit_lookup(t.push((name, unit)), other) == texture_unit_lookup(t, other),
{
    lemma_find_name_none(t, name);
    let t1 = t.push((name, unit));
    assert forall|j: int| 0 <= j < t.len() implies (#[trigger] t1[j]).0 != name by {
        assert(t1[j] == t[j]);
    }
    lemma_first_match_exists(t1, name, t.len() as int);
    if other != name {
        assert forall|j: int| 0 <= j < t.len() implies ((#[trigger] t[j]).0 == other <==> t1[j].0 == other) by {
            assert(t1[j] == t[j]);
        }
        lemma_find_name_agrees(t, t1, other);
        if find_name(t, other) is Some {
            lemma_find_name_none(t, other);
            let ko = choose|ko: int| 0 <= ko < t.len() && #[trigger] t[ko].0 == other;
            lemma_find_name_first(t, other, ko);
            let f = find_name(t, other)->0;
            assert(t1[f] == t[f]);
        }
    }
}

/// Reading a sampler's texture unit after assigning it gives the assigned
/// unit, and every other sampler keeps its unit.
pub proof fn lemma_texture_unit_read_after_write(
    t: Seq<(Seq<char>, u32)>,
    name: Seq<char>,
    unit: u32,
    other: Seq<char>,
)
    ensures
        texture_unit_lookup(texture_unit_assign(t, name, unit), name) == Some(unit),
        other != name ==> texture_unit_lookup(texture_unit_assign(t, name, unit), other)
            == texture_unit_lookup(t, other),
{
    if find_name(t, name) is Some {
        lemma_assign_replaces(t, name, unit, other);
    } else {
        lemma_assign_appends(t, name, unit, other);
    }
}

} // verus!
