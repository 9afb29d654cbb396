//! An in-memory model of the GPU driver context.
//!
//! The driver owns the shader-object and program namespaces, each linked
//! program's uniform table and the values uploaded to it, and the currently
//! bound program. Handles are allocated 1, 2, 3, … per namespace and never
//! reused; 0 is "no object". Its GLSL front end is a [`Judge`] handed to the
//! calls that consult it, so every outcome is a stated function of the driver
//! state and the judge.
//!
//! Calls that name a dead handle, an unlinked program, or the sentinel
//! location are silent no-ops, as the corresponding driver entry points
//! record an error and change nothing; a failed `use_program` in particular
//! leaves the previously bound program in place.

use vstd::prelude::*;

use crate::glsl::Judge;
use crate::Stage;
use crate::UniformValue;

verus! {

/// A shader object: an individually compiled stage.
#[derive(Debug)]
pub struct ShaderObj {
    pub kind: Stage,
    pub source: String,
    pub compiled: bool,
}

/// A program object: attached stages, link state, and — once linked — the
/// uniform table (location = index) and the values uploaded per location.
#[derive(Debug)]
pub struct ProgramObj {
    pub vert: u32,
    pub frag: u32,
    pub linked: bool,
    pub uniforms: Vec<String>,
    pub values: Vec<Option<UniformValue>>,
}

/// The driver context.
#[derive(Debug)]
pub struct Driver {
    pub shaders: Vec<Option<ShaderObj>>,
    pub programs: Vec<Option<ProgramObj>>,
    pub bound: u32,
}

/// The diagnostic text this driver's front end gives for a rejected stage.
pub open spec fn stage_reject_log() -> Seq<char> {
    "stage source rejected"@
}

/// The diagnostic text this driver's front end gives for a rejected link.
pub open spec fn link_reject_log() -> Seq<char> {
    "program link rejected"@
}

/// The location of `name` in a uniform table: the least index whose entry
/// reads `name`, or -1 when none does.
pub open spec fn first_name_index(list: Seq<String>, name: Seq<char>) -> int
    decreases list.len(),
{
    if list.len() == 0 {
        -1
    } else if list[0]@ == name {
        0
    } else {
        let rest = first_name_index(list.subrange(1, list.len() as int), name);
        if rest == -1 {
            -1
        } else {
            rest + 1
        }
    }
}

pub proof fn lemma_first_name_index_bounds(list: Seq<String>, name: Seq<char>)
    ensures
        -1 <= first_name_index(list, name) < list.len(),
        first_name_index(list, name) >= 0 ==> list[first_name_index(list, name)]@ == name,
        first_name_index(list, name) == -1 ==> forall|i: int|
            0 <= i < list.len() ==> list[i]@ != name,
    decreases list.len(),
{
    if list.len() > 0 && list[0]@ != name {
        let tail = list.subrange(1, list.len() as int);
        lemma_first_name_index_bounds(tail, name);
        assert forall|i: int| 1 <= i < list.len() implies list[i] == tail[i - 1] by {}
        if first_name_index(list, name) >= 0 {
            assert(list[first_name_index(list, name)] == tail[first_name_index(tail, name)]);
        }
    }
}

/// With no entry for `name` among the first `i` entries, the least matching
/// index at or past `i` is the least matching index overall.
pub proof fn lemma_first_name_index_skip(list: Seq<String>, name: Seq<char>, i: int)
    requires
        0 <= i <= list.len(),
        forall|j: int| 0 <= j < i ==> list[j]@ != name,
    ensures
        first_name_index(list, name) == if first_name_index(
            list.subrange(i, list.len() as int),
            name,
        ) == -1 {
            -1
        } else {
            i + first_name_index(list.subrange(i, list.len() as int), name)
        },
    decreases i,
{
    if i == 0 {
        assert(list.subrange(0, list.len() as int) =~= list);
    } else {
        let tail = list.subrange(1, list.len() as int);
        let tsub = tail.subrange(i - 1, tail.len() as int);
        assert(list.subrange(i, list.len() as int) =~= tsub);
        assert forall|j: int| 0 <= j < i - 1 implies tail[j]@ != name by {
            assert(tail[j] == list[j + 1]);
        }
        lemma_first_name_index_skip(tail, name, i - 1);
        // The recursion step needs the result to be -1 or a proper index,
        // never any other negative value.
        lemma_first_name_index_bounds(tsub, name);
        assert(first_name_index(list, name) == if first_name_index(tail, name) == -1 {
            -1int
        } else {
            1 + first_name_index(tail, name)
        });
    }
}

impl Driver {
    /// Handle `h` names a live program.
    pub open spec fn prog_live(self, h: u32) -> bool {
        1 <= h && h as int <= self.programs@.len() && self.programs@[h as int - 1] is Some
    }

    /// The live program named by `h`.
    pub open spec fn prog(self, h: u32) -> ProgramObj
        recommends
            self.prog_live(h),
    {
        self.programs@[h as int - 1]->0
    }

    /// Handle `h` names a live shader object.
    pub open spec fn sh_live(self, h: u32) -> bool {
        1 <= h && h as int <= self.shaders@.len() && self.shaders@[h as int - 1] is Some
    }

    /// The live shader object named by `h`.
    pub open spec fn sh(self, h: u32) -> ShaderObj
        recommends
            self.sh_live(h),
    {
        self.shaders@[h as int - 1]->0
    }

    /// Room in each namespace for `p` more programs and `s` more shader
    /// objects without leaving the handle type.
    pub open spec fn room_for(self, p: nat, s: nat) -> bool {
        self.programs@.len() + p <= 0xFFFF_FFFF && self.shaders@.len() + s <= 0xFFFF_FFFF
    }

    /// Every live program's table is consistent: one value slot per uniform,
    /// and every location fits the handle type.
    pub open spec fn wf(self) -> bool {
        forall|i: int|
            0 <= i < self.programs@.len() && self.programs@[i] is Some
                ==> (#[trigger] self.programs@[i])->0.uniforms@.len()
                == self.programs@[i]->0.values@.len() && self.programs@[i]->0.uniforms@.len()
                <= 0x7FFF_FFFF
    }

    /// Programs other than `h` read in `other` as they do in `self`.
    pub open spec fn programs_same_except(self, other: Driver, h: u32) -> bool {
        self.programs@.len() == other.programs@.len() && forall|i: int|
            0 <= i < self.programs@.len() && i != h as int - 1 ==> self.programs@[i]
                == other.programs@[i]
    }

    /// Shader objects other than `h` read in `other` as they do in `self`.
    pub open spec fn shaders_same_except(self, other: Driver, h: u32) -> bool {
        self.shaders@.len() == other.shaders@.len() && forall|i: int|
            0 <= i < self.shaders@.len() && i != h as int - 1 ==> self.shaders@[i]
                == other.shaders@[i]
    }

    /// The source of the stage attached as `h`, the empty text when absent.
    pub open spec fn attached_src(self, h: u32) -> Seq<char> {
        if h != 0 && self.sh_live(h) {
            self.sh(h).source@
        } else {
            Seq::empty()
        }
    }

    /// The judge links `p`: every attached stage is live and compiled, and
    /// the pair of their sources is not refused.
    pub open spec fn link_ok(self, judge: Judge, p: ProgramObj) -> bool {
        &&& (p.vert != 0 ==> self.sh_live(p.vert) && self.sh(p.vert).compiled)
        &&& (p.frag != 0 ==> self.sh_live(p.frag) && self.sh(p.frag).compiled)
        &&& !judge.link_rejected(self.attached_src(p.vert), self.attached_src(p.frag))
    }

    /// The uniform table a successful link of `p` installs: the vertex
    /// stage's declarations, then the fragment stage's.
    pub open spec fn linked_uniforms(self, judge: Judge, p: ProgramObj) -> Seq<String> {
        judge.declared(self.attached_src(p.vert)) + judge.declared(self.attached_src(p.frag))
    }

    /// The location `get_uniform_location` reports for `name` on `prog`.
    pub open spec fn spec_resolve(self, prog: u32, name: Seq<char>) -> int {
        if self.prog_live(prog) && self.prog(prog).linked {
            first_name_index(self.prog(prog).uniforms@, name)
        } else {
            -1
        }
    }

    /// The program `use_program(h)` leaves bound.
    pub open spec fn bind_target(self, h: u32) -> u32 {
        if h == 0 {
            0
        } else if self.prog_live(h) && self.prog(h).linked {
            h
        } else {
            self.bound
        }
    }

    /// An upload to location `loc` reaches the bound program's table.
    pub open spec fn can_upload(self, loc: int) -> bool {
        self.prog_live(self.bound) && self.prog(self.bound).linked && 0 <= loc < self.prog(
            self.bound,
        ).values@.len()
    }

    /// A context with no objects and nothing bound.
    pub fn new() -> (d: Driver)
        ensures
            d.shaders@.len() == 0,
            d.programs@.len() == 0,
            d.bound == 0,
            d.wf(),
    {
        Driver { shaders: Vec::new(), programs: Vec::new(), bound: 0 }
    }

    /// Allocate a fresh, empty, unlinked program object.
    pub fn create_program(&mut self) -> (h: u32)
        requires
            old(self).room_for(1, 0),
            old(self).wf(),
        ensures
            final(self).wf(),
            h != 0,
            h as int == old(self).programs@.len() + 1,
            final(self).prog_live(h),
            final(self).prog(h).vert == 0,
            final(self).prog(h).frag == 0,
            !final(self).prog(h).linked,
            final(self).prog(h).uniforms@.len() == 0,
            final(self).prog(h).values@.len() == 0,
            final(self).programs@.len() == old(self).programs@.len() + 1,
            forall|i: int|
                0 <= i < old(self).programs@.len() ==> final(self).programs@[i] == old(
                    self,
                ).programs@[i],
            final(self).shaders@ == old(self).shaders@,
            final(self).bound == old(self).bound,
    {
        let obj = ProgramObj {
            vert: 0,
            frag: 0,
            linked: false,
            uniforms: Vec::new(),
            values: Vec::new(),
        };
        self.programs.push(Some(obj));
        self.programs.len() as u32
    }

    /// Whether `h` names a live program.
    pub fn is_program(&self, h: u32) -> (r: bool)
        ensures
            r == self.prog_live(h),
    {
        h >= 1 && (h as usize) <= self.programs.len() && self.programs[(h - 1) as usize].is_some()
    }

    /// Release the program named `h`; a dead handle is a no-op. The bound
    /// name is left as it is, even when it named `h`.
    pub fn delete_program(&mut self, h: u32)
        requires
            old(self).wf(),
        ensures
            final(self).wf(),
            !final(self).prog_live(h),
            old(self).programs_same_except(*final(self), h),
            h != 0 && old(self).prog_live(h) ==> final(self).programs@[h as int - 1] is None,
            !(h != 0 && old(self).prog_live(h)) ==> final(self).programs@ == old(self).programs@,
            final(self).shaders@ == old(self).shaders@,
            final(self).bound == old(self).bound,
    {
        if h >= 1 && (h as usize) <= self.programs.len() {
            let idx = (h - 1) as usize;
            if self.programs[idx].is_some() {
                self.programs[idx] = None;
            }
        }
    }

    /// Allocate a fresh shader object of the given stage kind, with empty
    /// source and not yet compiled.
    pub fn create_shader(&mut self, kind: Stage) -> (h: u32)
        requires
            old(self).room_for(0, 1),
            old(self).wf(),
        ensures
            final(self).wf(),
            h != 0,
            h as int == old(self).shaders@.len() + 1,
            final(self).sh_live(h),
            final(self).sh(h).kind == kind,
            final(self).sh(h).source@.len() == 0,
            !final(self).sh(h).compiled,
            final(self).shaders@.len() == old(self).shaders@.len() + 1,
            forall|i: int|
                0 <= i < old(self).shaders@.len() ==> final(self).shaders@[i] == old(self).shaders@[i],
            final(self).programs@ == old(self).programs@,
            final(self).bound == old(self).bound,
    {
        let obj = ShaderObj { kind, source: String::new(), compiled: false };
        self.shaders.push(Some(obj));
        self.shaders.len() as u32
    }

    /// Replace the source text of shader object `h`; its compile state is
    /// untouched until the next `compile_shader`. A dead handle is a no-op.
    pub fn shader_source(&mut self, h: u32, src: &str)
        requires
            old(self).wf(),
        ensures
            final(self).wf(),
            old(self).shaders_same_except(*final(self), h),
            old(self).sh_live(h) ==> final(self).sh_live(h) && final(self).sh(h).kind == old(self).sh(h).kind
                && final(self).sh(h).source@ == src@ && final(self).sh(h).compiled == old(self).sh(h).compiled,
            !old(self).sh_live(h) ==> final(self).shaders@ == old(self).shaders@,
            final(self).programs@ == old(self).programs@,
            final(self).bound == old(self).bound,
    {
        if h >= 1 && (h as usize) <= self.shaders.len() {
            let idx = (h - 1) as usize;
            match &mut self.shaders[idx] {
                Some(obj) => {
                    obj.source = src.to_owned();
                },
                None => {},
            }
        }
    }

    /// Compile shader object `h`: its compile state becomes the judge's
    /// verdict on its current source. A dead handle is a no-op.
    pub fn compile_shader(&mut self, judge: &Judge, h: u32)
        requires
            old(self).wf(),
        ensures
            final(self).wf(),
            old(self).shaders_same_except(*final(self), h),
            old(self).sh_live(h) ==> final(self).sh_live(h) && final(self).sh(h).kind == old(self).sh(h).kind
                && final(self).sh(h).source@ == old(self).sh(h).source@ && final(self).sh(h).compiled
                == judge.accepts(old(self).sh(h).source@),
            !old(self).sh_live(h) ==> final(self).shaders@ == old(self).shaders@,
            final(self).programs@ == old(self).programs@,
            final(self).bound == old(self).bound,
    {
        if h >= 1 && (h as usize) <= self.shaders.len() {
            let idx = (h - 1) as usize;
            match &mut self.shaders[idx] {
                Some(obj) => {
                    let ok = judge.compiles(obj.source.as_str());
                    obj.compiled = ok;
                },
                None => {},
            }
        }
    }

    /// The compile state of shader object `h` (false for a dead handle).
    pub fn get_compile_status(&self, h: u32) -> (r: bool)
        ensures
            r == (self.sh_live(h) && self.sh(h).compiled),
    {
        if h >= 1 && (h as usize) <= self.shaders.len() {
            match &self.shaders[(h - 1) as usize] {
                Some(obj) => obj.compiled,
                None => false,
            }
        } else {
            false
        }
    }

    /// The diagnostic log of shader object `h`: empty unless its last
    /// compile was rejected.
    pub fn get_shader_info_log(&self, h: u32) -> (r: String)
        ensures
            r@ == self.spec_shader_log(h),
    {
        if h >= 1 && (h as usize) <= self.shaders.len() {
            match &self.shaders[(h - 1) as usize] {
                Some(obj) => {
                    if !obj.compiled {
                        return "stage source rejected".to_owned();
                    }
                },
                None => {},
            }
        }
        String::new()
    }

    /// What `get_shader_info_log` reads for `h`.
    pub open spec fn spec_shader_log(self, h: u32) -> Seq<char> {
        if self.sh_live(h) && !self.sh(h).compiled {
            stage_reject_log()
        } else {
            Seq::empty()
        }
    }

    /// Release shader object `h`; a dead handle is a no-op.
    pub fn delete_shader(&mut self, h: u32)
        requires
            old(self).wf(),
        ensures
            final(self).wf(),
            !final(self).sh_live(h),
            old(self).shaders_same_except(*final(self), h),
            h != 0 && old(self).sh_live(h) ==> final(self).shaders@[h as int - 1] is None,
            !(h != 0 && old(self).sh_live(h)) ==> final(self).shaders@ == old(self).shaders@,
            final(self).programs@ == old(self).programs@,
            final(self).bound == old(self).bound,
    {
        if h >= 1 && (h as usize) <= self.shaders.len() {
            let idx = (h - 1) as usize;
            if self.shaders[idx].is_some() {
                self.shaders[idx] = None;
            }
        }
    }

    /// Attach shader object `sh` to program `prog`, in the slot of its stage
    /// kind. Either handle dead is a no-op.
    pub fn attach_shader(&mut self, prog: u32, sh: u32)
        requires
            old(self).wf(),
        ensures
            final(self).wf(),
            old(self).programs_same_except(*final(self), prog),
            old(self).prog_live(prog) && old(self).sh_live(sh) ==> final(self).prog_live(prog) && ({
                let p0 = old(self).prog(prog);
                let p1 = final(self).prog(prog);
                &&& (old(self).sh(sh).kind == Stage::Vertex ==> p1.vert == sh && p1.frag
                    == p0.frag)
                &&& (old(self).sh(sh).kind == Stage::Fragment ==> p1.frag == sh && p1.vert
                    == p0.vert)
                &&& p1.linked == p0.linked
                &&& p1.uniforms@ == p0.uniforms@
                &&& p1.values@ == p0.values@
            }),
            !(old(self).prog_live(prog) && old(self).sh_live(sh)) ==> final(self).programs@ == old(
                self,
            ).programs@,
            final(self).shaders@ == old(self).shaders@,
            final(self).bound == old(self).bound,
    {
        if prog >= 1 && (prog as usize) <= self.programs.len() && sh >= 1 && (sh as usize)
            <= self.shaders.len() {
            let kind = match &self.shaders[(sh - 1) as usize] {
                Some(obj) => Some(obj.kind),
                None => None,
            };
            match kind {
                Some(k) => {
                    let idx = (prog - 1) as usize;
                    match &mut self.programs[idx] {
                        Some(p) => {
                            match k {
                                Stage::Vertex => {
                                    p.vert = sh;
                                },
                                Stage::Fragment => {
                                    p.frag = sh;
                                },
                            }
                        },
                        None => {},
                    }
                },
                None => {},
            }
        }
    }

    /// Detach shader object `sh` from program `prog`, clearing the slot that
    /// holds it; anything else is a no-op.
    pub fn detach_shader(&mut self, prog: u32, sh: u32)
        requires
            old(self).wf(),
        ensures
            final(self).wf(),
            old(self).programs_same_except(*final(self), prog),
            old(self).prog_live(prog) ==> final(self).prog_live(prog) && ({
                let p0 = old(self).prog(prog);
                let p1 = final(self).prog(prog);
                &&& p1.vert == (if p0.vert == sh && sh != 0 {
                    0u32
                } else {
                    p0.vert
                })
                &&& p1.frag == (if p0.frag == sh && sh != 0 {
                    0u32
                } else {
                    p0.frag
                })
                &&& p1.linked == p0.linked
                &&& p1.uniforms@ == p0.uniforms@
                &&& p1.values@ == p0.values@
            }),
            !old(self).prog_live(prog) ==> final(self).programs@ == old(self).programs@,
            final(self).shaders@ == old(self).shaders@,
            final(self).bound == old(self).bound,
    {
        if sh != 0 && prog >= 1 && (prog as usize) <= self.programs.len() {
            let idx = (prog - 1) as usize;
            match &mut self.programs[idx] {
                Some(p) => {
                    if p.vert == sh {
                        p.vert = 0;
                    }
                    if p.frag == sh {
                        p.frag = 0;
                    }
                },
                None => {},
            }
        }
    }

    /// Bind program `h` as the active one. Binding 0 unbinds; binding a dead
    /// or unlinked program is refused and leaves the previous binding.
    pub fn use_program(&mut self, h: u32)
        requires
            old(self).wf(),
        ensures
            final(self).wf(),
            final(self).bound == old(self).bind_target(h),
            final(self).programs@ == old(self).programs@,
            final(self).shaders@ == old(self).shaders@,
    {
        if h == 0 {
            self.bound = 0;
        } else if h >= 1 && (h as usize) <= self.programs.len() {
            let linked = match &self.programs[(h - 1) as usize] {
                Some(p) => p.linked,
                None => false,
            };
            if linked {
                self.bound = h;
            }
        }
    }

    /// The source text of the stage attached as `h`, empty when absent.
    fn attached_source(&self, h: u32) -> (s: String)
        ensures
            s@ == self.attached_src(h),
    {
        if h >= 1 && (h as usize) <= self.shaders.len() {
            match &self.shaders[(h - 1) as usize] {
                Some(obj) => obj.source.clone(),
                None => String::new(),
            }
        } else {
            String::new()
        }
    }

    /// Link program `prog`: it becomes linked exactly when every attached
    /// stage is live and compiled and the judge does not refuse the pair of
    /// their sources. A successful link installs the uniform table — the
    /// vertex stage's declarations, then the fragment stage's, location =
    /// index — with every value slot empty; a failed link clears the table.
    /// A dead handle is a no-op.
    pub fn link_program(&mut self, judge: &Judge, prog: u32)
        requires
            old(self).wf(),
            judge.wf(),
        ensures
            final(self).wf(),
            old(self).programs_same_except(*final(self), prog),
            final(self).shaders@ == old(self).shaders@,
            final(self).bound == old(self).bound,
            !old(self).prog_live(prog) ==> final(self).programs@ == old(self).programs@,
            old(self).prog_live(prog) ==> final(self).prog_live(prog) && ({
                let p0 = old(self).prog(prog);
                let p1 = final(self).prog(prog);
                &&& p1.vert == p0.vert
                &&& p1.frag == p0.frag
                &&& p1.linked == old(self).link_ok(*judge, p0)
                &&& (p1.linked ==> p1.uniforms@ == old(self).linked_uniforms(*judge, p0))
                &&& (p1.linked ==> p1.values@.len() == p1.uniforms@.len() && forall|l: int|
                    0 <= l < p1.values@.len() ==> p1.values@[l] is None)
                &&& (!p1.linked ==> p1.uniforms@.len() == 0 && p1.values@.len() == 0)
            }),
    {
        if !(prog >= 1 && (prog as usize) <= self.programs.len()) {
            return ;
        }
        let idx = (prog - 1) as usize;
        let (vh, fh) = match &self.programs[idx] {
            Some(p) => (p.vert, p.frag),
            None => { return ; },
        };
        let v_ok = vh == 0 || self.get_compile_status(vh);
        let f_ok = fh == 0 || self.get_compile_status(fh);
        let vsrc = self.attached_source(vh);
        let fsrc = self.attached_source(fh);
        let rejected = judge.rejects_link(vsrc.as_str(), fsrc.as_str());
        let ok = v_ok && f_ok && !rejected;
        let mut table: Vec<String> = Vec::new();
        let mut vals: Vec<Option<UniformValue>> = Vec::new();
        if ok {
            proof {
                crate::glsl::lemma_find_glsl_member(judge.accepted@, vsrc@);
                crate::glsl::lemma_find_glsl_member(judge.accepted@, fsrc@);
            }
            match judge.find_accepted(vsrc.as_str()) {
                Some(g) => push_all_names(&mut table, &g.uniforms),
                None => {},
            }
            match judge.find_accepted(fsrc.as_str()) {
                Some(g) => push_all_names(&mut table, &g.uniforms),
                None => {},
            }
            proof {
                assert(table@ =~= old(self).linked_uniforms(*judge, old(self).prog(prog)));
            }
            let mut k: usize = 0;
            let n = table.len();
            while k < n
                invariant
                    k <= n,
                    vals@.len() == k,
                    forall|l: int| 0 <= l < k ==> vals@[l] is None,
                decreases n - k,
            {
                vals.push(None);
                k += 1;
            }
        }
        match &mut self.programs[idx] {
            Some(p) => {
                p.linked = ok;
                p.uniforms = table;
                p.values = vals;
            },
            None => {},
        }
    }

    /// The link state of program `prog` (false for a dead handle).
    pub fn get_link_status(&self, h: u32) -> (r: bool)
        ensures
            r == (self.prog_live(h) && self.prog(h).linked),
    {
        if h >= 1 && (h as usize) <= self.programs.len() {
            match &self.programs[(h - 1) as usize] {
                Some(p) => p.linked,
                None => false,
            }
        } else {
            false
        }
    }

    /// What `get_program_info_log` reads for `h`.
    pub open spec fn spec_program_log(self, h: u32) -> Seq<char> {
        if self.prog_live(h) && !self.prog(h).linked {
            link_reject_log()
        } else {
            Seq::empty()
        }
    }

    /// The diagnostic log of program `h`: empty unless it stands unlinked.
    pub fn get_program_info_log(&self, h: u32) -> (r: String)
        ensures
            r@ == self.spec_program_log(h),
    {
        if h >= 1 && (h as usize) <= self.programs.len() {
            match &self.programs[(h - 1) as usize] {
                Some(p) => {
                    if !p.linked {
                        return "program link rejected".to_owned();
                    }
                },
                None => {},
            }
        }
        String::new()
    }

    /// Resolve `name` on program `prog`: the least location whose table
    /// entry reads `name`, or the sentinel -1 when the program is dead or
    /// unlinked or no entry matches. Resolution reads nothing but the table,
    /// so resolving twice returns the same location.
    pub fn get_uniform_location(&self, prog: u32, name: &str) -> (loc: i32)
        requires
            self.wf(),
        ensures
            loc == self.spec_resolve(prog, name@),
    {
        if !(prog >= 1 && (prog as usize) <= self.programs.len()) {
            return -1;
        }
        let n: String = name.to_owned();
        match &self.programs[(prog - 1) as usize] {
            Some(p) => {
                if !p.linked {
                    return -1;
                }
                let count = p.uniforms.len();
                let mut i: usize = 0;
                while i < count
                    invariant
                        self.wf(),
                        1 <= prog,
                        prog as int <= self.programs@.len(),
                        self.programs@[prog as int - 1] == Some(*p),
                        p.linked,
                        count == p.uniforms@.len(),
                        i <= count,
                        n@ == name@,
                        forall|j: int| 0 <= j < i ==> p.uniforms@[j]@ != name@,
                    decreases count - i,
                {
                    if p.uniforms[i] == n {
                        proof {
                            let list = p.uniforms@;
                            let sub = list.subrange(i as int, count as int);
                            assert(sub[0] == list[i as int]);
                            assert(first_name_index(sub, name@) == 0);
                            lemma_first_name_index_skip(list, name@, i as int);
                            assert(self.programs@[prog as int - 1] is Some);
                            assert(list.len() <= 0x7FFF_FFFF);
                        }
                        return i as i32;
                    }
                    i += 1;
                }
                proof {
                    let list = p.uniforms@;
                    lemma_first_name_index_skip(list, name@, count as int);
                    assert(list.subrange(count as int, count as int).len() == 0);
                }
                -1
            },
            None => -1,
        }
    }

    /// Upload an integer to location `loc` of the bound program. A sentinel
    /// location, an out-of-table location, or no live linked bound program
    /// is a silent no-op.
    pub fn uniform_1i(&mut self, loc: i32, v: i32)
        requires
            old(self).wf(),
        ensures
            final(self).wf(),
            final(self).shaders@ == old(self).shaders@,
            final(self).bound == old(self).bound,
            old(self).programs_same_except(*final(self), old(self).bound),
            !old(self).can_upload(loc as int) ==> final(self).programs@ == old(self).programs@,
            old(self).can_upload(loc as int) ==> final(self).prog_live(old(self).bound) && ({
                let p0 = old(self).prog(old(self).bound);
                let p1 = final(self).prog(old(self).bound);
                &&& p1.vert == p0.vert
                &&& p1.frag == p0.frag
                &&& p1.linked == p0.linked
                &&& p1.uniforms@ == p0.uniforms@
                &&& p1.values@ == p0.values@.update(loc as int, Some(UniformValue::Int(v)))
            }),
    {
        let b = self.bound;
        if b >= 1 && (b as usize) <= self.programs.len() {
            let idx = (b - 1) as usize;
            match &mut self.programs[idx] {
                Some(p) => {
                    if p.linked && loc >= 0 && (loc as usize) < p.values.len() {
                        p.values[loc as usize] = Some(UniformValue::Int(v));
                    }
                },
                None => {},
            }
        }
    }

    /// Upload a scalar word to location `loc` of the bound program, under
    /// the no-op rule of `uniform_1i`.
    pub fn uniform_1f_bits(&mut self, loc: i32, bits: u32)
        requires
            old(self).wf(),
        ensures
            final(self).wf(),
            final(self).shaders@ == old(self).shaders@,
            final(self).bound == old(self).bound,
            old(self).programs_same_except(*final(self), old(self).bound),
            !old(self).can_upload(loc as int) ==> final(self).programs@ == old(self).programs@,
            old(self).can_upload(loc as int) ==> final(self).prog_live(old(self).bound) && ({
                let p0 = old(self).prog(old(self).bound);
                let p1 = final(self).prog(old(self).bound);
                &&& p1.vert == p0.vert
                &&& p1.frag == p0.frag
                &&& p1.linked == p0.linked
                &&& p1.uniforms@ == p0.uniforms@
                &&& p1.values@ == p0.values@.update(loc as int, Some(UniformValue::Scalar(bits)))
            }),
    {
        let b = self.bound;
        if b >= 1 && (b as usize) <= self.programs.len() {
            let idx = (b - 1) as usize;
            match &mut self.programs[idx] {
                Some(p) => {
                    if p.linked && loc >= 0 && (loc as usize) < p.values.len() {
                        p.values[loc as usize] = Some(UniformValue::Scalar(bits));
                    }
                },
                None => {},
            }
        }
    }

    /// Upload a 4x4 matrix, handed as its 16 driver-order entries with no
    /// transpose requested (the only request this driver serves), under the
    /// no-op rule of `uniform_1i`.
    pub fn uniform_matrix_4fv(&mut self, loc: i32, transpose: bool, values: &Vec<u32>)
        requires
            old(self).wf(),
            !transpose,
            values@.len() == 16,
        ensures
            final(self).wf(),
            final(self).shaders@ == old(self).shaders@,
            final(self).bound == old(self).bound,
            old(self).programs_same_except(*final(self), old(self).bound),
            !old(self).can_upload(loc as int) ==> final(self).programs@ == old(self).programs@,
            old(self).can_upload(loc as int) ==> final(self).prog_live(old(self).bound) && ({
                let p0 = old(self).prog(old(self).bound);
                let p1 = final(self).prog(old(self).bound);
                &&& p1.vert == p0.vert
                &&& p1.frag == p0.frag
                &&& p1.linked == p0.linked
                &&& p1.uniforms@ == p0.uniforms@
                &&& p1.values@.len() == p0.values@.len()
                &&& (forall|l: int|
                    0 <= l < p0.values@.len() && l != loc as int ==> p1.values@[l]
                        == p0.values@[l])
                &&& crate::is_matrix_with(p1.values@[loc as int], values@)
            }),
    {
        let stored = copy_words(values);
        let b = self.bound;
        if b >= 1 && (b as usize) <= self.programs.len() {
            let idx = (b - 1) as usize;
            match &mut self.programs[idx] {
                Some(p) => {
                    if p.linked && loc >= 0 && (loc as usize) < p.values.len() {
                        p.values[loc as usize] = Some(UniformValue::Matrix(stored));
                    }
                },
                None => {},
            }
        }
    }

    /// Read back the value last uploaded to location `loc` of program
    /// `prog`: `None` when nothing was uploaded there or the location does
    /// not reach a live linked program's table.
    pub fn get_uniform_value(&self, prog: u32, loc: i32) -> (r: Option<&UniformValue>)
        ensures
            match r {
                Some(v) => self.prog_live(prog) && self.prog(prog).linked && 0 <= loc < self.prog(
                    prog,
                ).values@.len() && self.prog(prog).values@[loc as int] == Some(*v),
                None => !(self.prog_live(prog) && self.prog(prog).linked && 0 <= loc < self.prog(
                    prog,
                ).values@.len()) || self.prog(prog).values@[loc as int] is None,
            },
    {
        if !(prog >= 1 && (prog as usize) <= self.programs.len()) {
            return None;
        }
        match &self.programs[(prog - 1) as usize] {
            Some(p) => {
                if p.linked && loc >= 0 && (loc as usize) < p.values.len() {
                    match &p.values[loc as usize] {
                        Some(v) => Some(v),
                        None => None,
                    }
                } else {
                    None
                }
            },
            None => None,
        }
    }
}

/// Append clones of every name in `src` to `dst`, in order.
fn push_all_names(dst: &mut Vec<String>, src: &Vec<String>)
    ensures
        final(dst)@ == old(dst)@ + src@,
{
    let n = src.len();
    let mut i: usize = 0;
    proof {
        assert(old(dst)@ + src@.subrange(0, 0) =~= old(dst)@);
    }
    while i < n
        invariant
            n == src@.len(),
            i <= n,
            dst@ == old(dst)@ + src@.subrange(0, i as int),
        decreases n - i,
    {
        dst.push(src[i].clone());
        proof {
            assert(old(dst)@ + src@.subrange(0, i + 1 as int) =~= (old(dst)@ + src@.subrange(
                0,
                i as int,
            )).push(src@[i as int]));
        }
        i += 1;
    }
    proof {
        assert(src@.subrange(0, n as int) =~= src@);
    }
}

/// A fresh vector holding the same words as `src`, in order.
fn copy_words(src: &Vec<u32>) -> (out: Vec<u32>)
    ensures
        out@ == src@,
{
    let n = src.len();
    let mut out: Vec<u32> = Vec::new();
    let mut i: usize = 0;
    while i < n
        invariant
            n == src@.len(),
            i <= n,
            out@ == src@.subrange(0, i as int),
        decreases n - i,
    {
        out.push(src[i]);
        proof {
            assert(src@.subrange(0, i + 1 as int) =~= src@.subrange(0, i as int).push(
                src@[i as int],
            ));
        }
        i += 1;
    }
    proof {
        assert(src@.subrange(0, n as int) =~= src@);
    }
    out
}

} // verus!
