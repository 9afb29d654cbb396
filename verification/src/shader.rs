//! The shader program subsystem: the compile/link pipeline, the uniform
//! interface, and the two program entities — `Release_Shader`, which never
//! changes after construction, and `Debug_Shader`, which watches its backing
//! files and rebuilds itself on demand.
//!
//! Everything here runs against a [`Driver`] context and a [`Judge`] front
//! end; the contracts state each outcome as a function of both.

use vstd::prelude::*;

use crate::driver::Driver;
use crate::glsl::Judge;
use crate::store::SourceStore;
use crate::mat4::Mat4;
use crate::Stage;

verus! {

/// The GPU-side handles one compile/link run leaves behind: the program and
/// the per-stage shader objects, 0 where absent.
#[derive(Clone, Copy, PartialEq, Eq, Structural, Debug)]
pub struct ProgramHandles {
    pub prog: u32,
    pub vert_obj: u32,
    pub frag_obj: u32,
}

/// Why a compile/link run failed, with the driver's diagnostic log as the
/// payload. A failed source read is reported by the file-backed
/// constructors and reloads, never by [`load`] itself.
#[derive(Clone, PartialEq, Eq, Debug)]
pub enum CompileError {
    StageCompile { stage: Stage, log: String },
    Link { log: String },
    SourceRead { path: String },
}

/// The run succeeds: every non-empty stage compiles, and the judge does not
/// refuse the pair (an absent stage reading as the empty text).
pub open spec fn load_succeeds(judge: Judge, vsrc: Seq<char>, fsrc: Seq<char>) -> bool {
    &&& (vsrc.len() > 0 ==> judge.accepts(vsrc))
    &&& (fsrc.len() > 0 ==> judge.accepts(fsrc))
    &&& !judge.link_rejected(vsrc, fsrc)
}

/// The uniform table a successful run installs: the vertex stage's
/// declarations, then the fragment stage's.
pub open spec fn load_table(judge: Judge, vsrc: Seq<char>, fsrc: Seq<char>) -> Seq<String> {
    judge.declared(vsrc) + judge.declared(fsrc)
}

/// Compile and link one program from the given stage sources.
///
/// Any previous program and stage objects in `sh` are deleted first, so a
/// rebuild is an idempotent replacement, never a partial patch. A fresh
/// program object is allocated even when a stage later fails to compile, so
/// failure leaves a live-but-unlinked program that a bind attempt will not
/// activate. On a stage failure the failed stage object is deleted and the
/// run aborts, surfacing that stage's log. On a link failure both stage
/// objects and the program are deleted and the program handle is zeroed,
/// surfacing the link log. On success the handles name a live linked
/// program whose uniform table is exactly the stages' declarations, with
/// nothing uploaded yet, and the stage objects remain live and attached to
/// it. The bound program is never touched.
pub fn load(d: &mut Driver, judge: &Judge, sh: &mut ProgramHandles, vert_src: &str, frag_src: &str) -> (r:
    Result<(), CompileError>)
    requires
        old(d).wf(),
        judge.wf(),
        old(d).room_for(1, 2),
    ensures
        final(d).wf(),
        final(d).bound == old(d).bound,
        final(d).programs@.len() == old(d).programs@.len() + 1,
        r is Ok <==> load_succeeds(*judge, vert_src@, frag_src@),
        old(d).prog_live(old(sh).prog) ==> !final(d).prog_live(old(sh).prog),
        old(d).sh_live(old(sh).vert_obj) ==> !final(d).sh_live(old(sh).vert_obj),
        old(d).sh_live(old(sh).frag_obj) ==> !final(d).sh_live(old(sh).frag_obj),
        forall|i: int|
            0 <= i < old(d).programs@.len() && i != old(sh).prog as int - 1 ==> final(d).programs@[i] == old(d).programs@[i],
        forall|i: int|
            0 <= i < old(d).shaders@.len() && i != old(sh).vert_obj as int - 1 && i != old(sh).frag_obj as int - 1 ==> final(d).shaders@[i] == old(d).shaders@[i],
        match r {
            Ok(()) => {
                &&& final(sh).prog != 0
                &&& final(d).prog_live(final(sh).prog)
                &&& final(d).prog(final(sh).prog).linked
                &&& final(d).prog(final(sh).prog).uniforms@ == load_table(
                    *judge,
                    vert_src@,
                    frag_src@,
                )
                &&& final(d).prog(final(sh).prog).values@.len() == load_table(
                    *judge,
                    vert_src@,
                    frag_src@,
                ).len()
                &&& (forall|l: int|
                    0 <= l < final(d).prog(final(sh).prog).values@.len() ==> final(d).prog(final(sh).prog).values@[l] is None)
                &&& (vert_src@.len() > 0 <==> final(sh).vert_obj != 0)
                &&& (frag_src@.len() > 0 <==> final(sh).frag_obj != 0)
                &&& final(d).prog(final(sh).prog).vert == final(sh).vert_obj
                &&& final(d).prog(final(sh).prog).frag == final(sh).frag_obj
                &&& (final(sh).vert_obj != 0 ==> final(d).sh_live(final(sh).vert_obj))
                &&& (final(sh).frag_obj != 0 ==> final(d).sh_live(final(sh).frag_obj))
            },
            Err(e) => match e {
                CompileError::StageCompile { stage, log } => {
                    &&& (stage == Stage::Vertex ==> vert_src@.len() > 0 && !judge.accepts(
                        vert_src@,
                    ))
                    &&& (stage == Stage::Fragment ==> frag_src@.len() > 0 && !judge.accepts(
                        frag_src@,
                    ) && (vert_src@.len() == 0 || judge.accepts(vert_src@)))
                    &&& log@ == crate::driver::stage_reject_log()
                    &&& (stage == Stage::Vertex ==> final(sh).vert_obj != 0 && !final(d).sh_live(final(sh).vert_obj))
                    &&& (stage == Stage::Fragment ==> final(sh).frag_obj != 0 && !final(d).sh_live(final(sh).frag_obj))
                    &&& final(sh).prog != 0
                    &&& final(d).prog_live(final(sh).prog)
                    &&& !final(d).prog(final(sh).prog).linked
                },
                CompileError::Link { log } => {
                    &&& (vert_src@.len() == 0 || judge.accepts(vert_src@))
                    &&& (frag_src@.len() == 0 || judge.accepts(frag_src@))
                    &&& judge.link_rejected(vert_src@, frag_src@)
                    &&& log@ == crate::driver::link_reject_log()
                    &&& final(sh).prog == 0
                    &&& (forall|h: u32| final(d).prog_live(h) ==> old(d).prog_live(h))
                    &&& (forall|h: u32| final(d).sh_live(h) ==> old(d).sh_live(h))
                },
                CompileError::SourceRead { .. } => false,
            },
        },
{
    if d.is_program(sh.prog) {
        d.delete_program(sh.prog);
    }
    d.delete_shader(sh.vert_obj);
    d.delete_shader(sh.frag_obj);
    sh.prog = d.create_program();
    sh.vert_obj = 0;
    sh.frag_obj = 0;

    if !vert_src.is_empty() {
        sh.vert_obj = d.create_shader(Stage::Vertex);
        d.shader_source(sh.vert_obj, vert_src);
        d.compile_shader(judge, sh.vert_obj);
        if !d.get_compile_status(sh.vert_obj) {
            let log = d.get_shader_info_log(sh.vert_obj);
            d.delete_shader(sh.vert_obj);
            return Err(CompileError::StageCompile { stage: Stage::Vertex, log });
        }
    }
    if !frag_src.is_empty() {
        sh.frag_obj = d.create_shader(Stage::Fragment);
        d.shader_source(sh.frag_obj, frag_src);
        d.compile_shader(judge, sh.frag_obj);
        if !d.get_compile_status(sh.frag_obj) {
            let log = d.get_shader_info_log(sh.frag_obj);
            d.delete_shader(sh.frag_obj);
            return Err(CompileError::StageCompile { stage: Stage::Fragment, log });
        }
    }

    if sh.vert_obj > 0 {
        d.attach_shader(sh.prog, sh.vert_obj);
    }
    if sh.frag_obj > 0 {
        d.attach_shader(sh.prog, sh.frag_obj);
    }
    proof {
        assert(d.prog_live(sh.prog));
        assert(d.prog(sh.prog).vert == sh.vert_obj && d.prog(sh.prog).frag == sh.frag_obj);
        assert(d.attached_src(sh.vert_obj) =~= vert_src@);
        assert(d.attached_src(sh.frag_obj) =~= frag_src@);
        assert(vert_src@.len() > 0 ==> judge.accepts(vert_src@));
        assert(frag_src@.len() > 0 ==> judge.accepts(frag_src@));
        assert(d.link_ok(*judge, d.prog(sh.prog)) <==> !judge.link_rejected(
            vert_src@,
            frag_src@,
        ));
        assert(d.linked_uniforms(*judge, d.prog(sh.prog)) == load_table(
            *judge,
            vert_src@,
            frag_src@,
        ));
    }
    d.link_program(judge, sh.prog);

    if !d.get_link_status(sh.prog) {
        let log = d.get_program_info_log(sh.prog);
        d.detach_shader(sh.prog, sh.vert_obj);
        d.delete_shader(sh.vert_obj);
        d.detach_shader(sh.prog, sh.frag_obj);
        d.delete_shader(sh.frag_obj);
        d.delete_program(sh.prog);
        sh.prog = 0;
        return Err(CompileError::Link { log });
    }

    Ok(())
}

/// Activate the program of `sh`: the driver's bind rule applies, so a dead
/// or unlinked program leaves the previous binding in place.
pub fn bind(d: &mut Driver, sh: &ProgramHandles)
    requires
        old(d).wf(),
    ensures
        final(d).wf(),
        final(d).bound == old(d).bind_target(sh.prog),
        final(d).programs@ == old(d).programs@,
        final(d).shaders@ == old(d).shaders@,
{
    d.use_program(sh.prog);
}

/// Resolve a uniform name on the program of `sh`. A name the driver cannot
/// resolve reads as [`crate::NO_UNIFORM`], which is not an error: the caller
/// keeps rendering and uploads to it fall out as no-ops.
pub fn get_uniform_location(d: &Driver, sh: &ProgramHandles, uniform: &str) -> (loc: i32)
    requires
        d.wf(),
    ensures
        loc == d.spec_resolve(sh.prog, uniform@),
{
    d.get_uniform_location(sh.prog, uniform)
}

/// Upload an integer to `location` of the bound program (a no-op on the
/// sentinel location).
pub fn update_uniform_i32(d: &mut Driver, location: i32, i: i32)
    requires
        old(d).wf(),
    ensures
        final(d).wf(),
        final(d).bound == old(d).bound,
        final(d).shaders@ == old(d).shaders@,
        old(d).programs_same_except(*final(d), old(d).bound),
        old(d).can_upload(location as int) ==> final(d).prog_live(old(d).bound)
            && final(d).prog(old(d).bound).linked,
        !old(d).can_upload(location as int) ==> final(d).programs@ == old(d).programs@,
        old(d).can_upload(location as int) ==> final(d).prog(old(d).bound).values@ == old(d).prog(
            old(d).bound,
        ).values@.update(location as int, Some(crate::UniformValue::Int(i))) && final(d).prog(
            old(d).bound,
        ).uniforms@ == old(d).prog(old(d).bound).uniforms@,
{
    d.uniform_1i(location, i);
}

/// Upload a scalar word to `location` of the bound program (a no-op on the
/// sentinel location).
pub fn update_uniform_f32(d: &mut Driver, location: i32, bits: u32)
    requires
        old(d).wf(),
    ensures
        final(d).wf(),
        final(d).bound == old(d).bound,
        final(d).shaders@ == old(d).shaders@,
        old(d).programs_same_except(*final(d), old(d).bound),
        old(d).can_upload(location as int) ==> final(d).prog_live(old(d).bound)
            && final(d).prog(old(d).bound).linked,
        !old(d).can_upload(location as int) ==> final(d).programs@ == old(d).programs@,
        old(d).can_upload(location as int) ==> final(d).prog(old(d).bound).values@ == old(d).prog(
            old(d).bound,
        ).values@.update(location as int, Some(crate::UniformValue::Scalar(bits))) && final(d).prog(
            old(d).bound,
        ).uniforms@ == old(d).prog(old(d).bound).uniforms@,
{
    d.uniform_1f_bits(location, bits);
}

/// Upload a 4x4 matrix to `location` of the bound program: the rows are
/// flattened to the driver's 16-entry order (see [`Mat4::flat`]) and handed
/// over with no transpose requested. A no-op on the sentinel location.
pub fn update_uniform_mat(d: &mut Driver, location: i32, mat: &Mat4)
    requires
        old(d).wf(),
    ensures
        final(d).wf(),
        final(d).bound == old(d).bound,
        final(d).shaders@ == old(d).shaders@,
        old(d).programs_same_except(*final(d), old(d).bound),
        old(d).can_upload(location as int) ==> final(d).prog_live(old(d).bound)
            && final(d).prog(old(d).bound).linked,
        !old(d).can_upload(location as int) ==> final(d).programs@ == old(d).programs@,
        old(d).can_upload(location as int) ==> ({
            let p0 = old(d).prog(old(d).bound);
            let p1 = final(d).prog(old(d).bound);
            &&& p1.uniforms@ == p0.uniforms@
            &&& p1.values@.len() == p0.values@.len()
            &&& (forall|l: int|
                0 <= l < p0.values@.len() && l != location as int ==> p1.values@[l]
                    == p0.values@[l])
            &&& crate::is_matrix_with(p1.values@[location as int], mat.spec_flat())
        }),
{
    let flat = mat.flat();
    d.uniform_matrix_4fv(location, false, &flat);
}

/// The capability set a renderer consumes, implemented by both entity
/// variants so they are interchangeable: bind, resolve a uniform name, and
/// the three typed uploads. `inv` is the variant's own well-formedness
/// against the driver; `bind` keeps it standing, and every operation keeps
/// the driver well formed.
pub trait Shaderable: Sized {
    /// The variant's standing obligations against the driver.
    spec fn inv(&self, d: Driver) -> bool;

    fn bind(&mut self, d: &mut Driver, judge: &Judge, store: &SourceStore)
        requires
            old(d).wf(),
            judge.wf(),
            old(d).room_for(1, 2),
            old(self).inv(*old(d)),
        ensures
            final(d).wf(),
            final(self).inv(*final(d)),
    ;

    fn get_uniform_location(&self, d: &Driver, uniform: &str) -> (loc: i32)
        requires
            d.wf(),
    ;

    fn update_uniform_i32(&self, d: &mut Driver, location: i32, i: i32)
        requires
            old(d).wf(),
        ensures
            final(d).wf(),
    ;

    fn update_uniform_f32(&self, d: &mut Driver, location: i32, bits: u32)
        requires
            old(d).wf(),
        ensures
            final(d).wf(),
    ;

    fn update_uniform_mat(&self, d: &mut Driver, location: i32, mat: &Mat4)
        requires
            old(d).wf(),
        ensures
            final(d).wf(),
    ;
}

/// The production entity: compiled and linked once at construction, with no
/// file tracking and no recovery path — its sources are taken as already
/// validated, so a construction that would fail is ruled out up front.
/// Binding and the uniform operations pass straight through.
pub struct Release_Shader {
    pub core: ProgramHandles,
}

impl Release_Shader {
    /// The entity stands on a live linked program of `d`.
    pub open spec fn wf_in(self, d: Driver) -> bool {
        &&& self.core.prog != 0
        &&& d.prog_live(self.core.prog)
        &&& d.prog(self.core.prog).linked
    }

    /// Build from literal stage sources; the sources must be ones the judge
    /// compiles and links, and at least one stage must be present.
    pub fn new(d: &mut Driver, judge: &Judge, vert_src: &str, frag_src: &str) -> (s:
        Release_Shader)
        requires
            old(d).wf(),
            judge.wf(),
            old(d).room_for(1, 2),
            vert_src@.len() > 0 || frag_src@.len() > 0,
            load_succeeds(*judge, vert_src@, frag_src@),
        ensures
            final(d).wf(),
            s.wf_in(*final(d)),
            final(d).bound == old(d).bound,
            final(d).prog(s.core.prog).uniforms@ == load_table(*judge, vert_src@, frag_src@),
            forall|l: int|
                0 <= l < final(d).prog(s.core.prog).values@.len() ==> final(d).prog(
                    s.core.prog,
                ).values@[l] is None,
    {
        let mut core = ProgramHandles { prog: 0, vert_obj: 0, frag_obj: 0 };
        let r = load(d, judge, &mut core, vert_src, frag_src);
        if let Err(_) = r {
            proof {
                assert(false);
            }
        }
        Release_Shader { core }
    }

    /// Build from two source files of `store`; both must be readable, and
    /// their contents must be sources the judge compiles and links, with at
    /// least one stage non-empty.
    pub fn new_with_files(d: &mut Driver, judge: &Judge, store: &SourceStore, vert_file: &str, frag_file: &str) -> (s: Release_Shader)
        requires
            old(d).wf(),
            judge.wf(),
            old(d).room_for(1, 2),
            store.spec_contents(vert_file@) is Some,
            store.spec_contents(frag_file@) is Some,
            store.spec_contents(vert_file@)->0.len() > 0 || store.spec_contents(
                frag_file@,
            )->0.len() > 0,
            load_succeeds(
                *judge,
                store.spec_contents(vert_file@)->0,
                store.spec_contents(frag_file@)->0,
            ),
        ensures
            final(d).wf(),
            s.wf_in(*final(d)),
            final(d).bound == old(d).bound,
            final(d).prog(s.core.prog).uniforms@ == load_table(
                *judge,
                store.spec_contents(vert_file@)->0,
                store.spec_contents(frag_file@)->0,
            ),
    {
        let vert_src = match store.read(vert_file) {
            Some(c) => c,
            None => {
                proof {
                    assert(false);
                }
                String::new()
            },
        };
        let frag_src = match store.read(frag_file) {
            Some(c) => c,
            None => {
                proof {
                    assert(false);
                }
                String::new()
            },
        };
        Release_Shader::new(d, judge, vert_src.as_str(), frag_src.as_str())
    }

    /// Activate the program unconditionally.
    pub fn bind(&self, d: &mut Driver)
        requires
            old(d).wf(),
            self.wf_in(*old(d)),
        ensures
            final(d).wf(),
            final(d).bound == self.core.prog,
            final(d).programs@ == old(d).programs@,
            final(d).shaders@ == old(d).shaders@,
    {
        bind(d, &self.core);
    }

    /// Resolve a uniform name on this program.
    pub fn get_uniform_location(&self, d: &Driver, uniform: &str) -> (loc: i32)
        requires
            d.wf(),
        ensures
            loc == d.spec_resolve(self.core.prog, uniform@),
    {
        get_uniform_location(d, &self.core, uniform)
    }

    /// Upload an integer through the shared pass-through.
    pub fn update_uniform_i32(&self, d: &mut Driver, location: i32, i: i32)
        requires
            old(d).wf(),
        ensures
            final(d).wf(),
            final(d).bound == old(d).bound,
            final(d).shaders@ == old(d).shaders@,
            old(d).programs_same_except(*final(d), old(d).bound),
            old(d).can_upload(location as int) ==> final(d).prog_live(old(d).bound)
                && final(d).prog(old(d).bound).linked,
            !old(d).can_upload(location as int) ==> final(d).programs@ == old(d).programs@,
            old(d).can_upload(location as int) ==> final(d).prog(old(d).bound).values@ == old(d).prog(old(d).bound).values@.update(
                location as int,
                Some(crate::UniformValue::Int(i)),
            ),
    {
        update_uniform_i32(d, location, i);
    }

    /// Upload a scalar word through the shared pass-through.
    pub fn update_uniform_f32(&self, d: &mut Driver, location: i32, bits: u32)
        requires
            old(d).wf(),
        ensures
            final(d).wf(),
            final(d).bound == old(d).bound,
            final(d).shaders@ == old(d).shaders@,
            old(d).programs_same_except(*final(d), old(d).bound),
            old(d).can_upload(location as int) ==> final(d).prog_live(old(d).bound)
                && final(d).prog(old(d).bound).linked,
            !old(d).can_upload(location as int) ==> final(d).programs@ == old(d).programs@,
            old(d).can_upload(location as int) ==> final(d).prog(old(d).bound).values@ == old(d).prog(old(d).bound).values@.update(
                location as int,
                Some(crate::UniformValue::Scalar(bits)),
            ),
    {
        update_uniform_f32(d, location, bits);
    }

    /// Upload a matrix through the shared pass-through.
    pub fn update_uniform_mat(&self, d: &mut Driver, location: i32, mat: &Mat4)
        requires
            old(d).wf(),
        ensures
            final(d).wf(),
            final(d).bound == old(d).bound,
            final(d).shaders@ == old(d).shaders@,
            old(d).programs_same_except(*final(d), old(d).bound),
            old(d).can_upload(location as int) ==> final(d).prog_live(old(d).bound)
                && final(d).prog(old(d).bound).linked,
            !old(d).can_upload(location as int) ==> final(d).programs@ == old(d).programs@,
            old(d).can_upload(location as int) ==> crate::is_matrix_with(
                final(d).prog(old(d).bound).values@[location as int],
                mat.spec_flat(),
            ),
    {
        update_uniform_mat(d, location, mat);
    }
}

impl Shaderable for Release_Shader {
    open spec fn inv(&self, d: Driver) -> bool {
        self.wf_in(d)
    }

    fn bind(&mut self, d: &mut Driver, judge: &Judge, store: &SourceStore) {
        Release_Shader::bind(self, d);
    }

    fn get_uniform_location(&self, d: &Driver, uniform: &str) -> (loc: i32) {
        Release_Shader::get_uniform_location(self, d, uniform)
    }

    fn update_uniform_i32(&self, d: &mut Driver, location: i32, i: i32) {
        Release_Shader::update_uniform_i32(self, d, location, i);
    }

    fn update_uniform_f32(&self, d: &mut Driver, location: i32, bits: u32) {
        Release_Shader::update_uniform_f32(self, d, location, bits);
    }

    fn update_uniform_mat(&self, d: &mut Driver, location: i32, mat: &Mat4) {
        Release_Shader::update_uniform_mat(self, d, location, mat);
    }
}

/// The development entity: a `Release_Shader`-equivalent core plus the
/// tracked source paths, their last observed modification times, and the
/// validity flag. Every `bind` first stats the tracked files and rebuilds
/// the program when either time has advanced — see [`Debug_Shader::bind`].
#[derive(Debug)]
pub struct Debug_Shader {
    pub core: ProgramHandles,
    pub vert_file: String,
    pub frag_file: String,
    pub vert_file_time: u64,
    pub frag_file_time: u64,
    pub valid: bool,
}

impl Debug_Shader {
    /// Whenever the entity reads valid, its program is live and linked.
    pub open spec fn wf_in(self, d: Driver) -> bool {
        self.valid ==> self.core.prog != 0 && d.prog_live(self.core.prog) && d.prog(
            self.core.prog,
        ).linked
    }

    /// A reload is due: either tracked file's current modification time is
    /// strictly past the last recorded one. A missing file observes as 0
    /// and so never counts as changed.
    pub open spec fn reload_due(self, vert_now: u64, frag_now: u64) -> bool {
        vert_now > self.vert_file_time || frag_now > self.frag_file_time
    }

    /// The edge-trigger decision, computed from two fresh stat results.
    pub fn needs_reload(&self, vert_now: u64, frag_now: u64) -> (r: bool)
        ensures
            r == self.reload_due(vert_now, frag_now),
    {
        vert_now > self.vert_file_time || frag_now > self.frag_file_time
    }

    /// Build from literal stage sources. No files are tracked, so the
    /// entity never reloads and behaves as a `Release_Shader` from here on.
    pub fn new(d: &mut Driver, judge: &Judge, vert_src: &str, frag_src: &str) -> (s: Debug_Shader)
        requires
            old(d).wf(),
            judge.wf(),
            old(d).room_for(1, 2),
            vert_src@.len() > 0 || frag_src@.len() > 0,
            load_succeeds(*judge, vert_src@, frag_src@),
        ensures
            final(d).wf(),
            s.wf_in(*final(d)),
            s.valid,
            s.vert_file@.len() == 0,
            s.frag_file@.len() == 0,
            s.vert_file_time == 0,
            s.frag_file_time == 0,
            final(d).bound == old(d).bound,
            final(d).prog(s.core.prog).uniforms@ == load_table(*judge, vert_src@, frag_src@),
    {
        let mut core = ProgramHandles { prog: 0, vert_obj: 0, frag_obj: 0 };
        let r = load(d, judge, &mut core, vert_src, frag_src);
        if let Err(_) = r {
            proof {
                assert(false);
            }
        }
        Debug_Shader {
            core,
            vert_file: String::new(),
            frag_file: String::new(),
            vert_file_time: 0,
            frag_file_time: 0,
            valid: true,
        }
    }

    /// Build from two source files of `store`, recording each file's
    /// modification time as observed now. Both files must be readable and
    /// their contents must be sources the judge compiles and links, with at
    /// least one stage non-empty.
    pub fn new_with_files(d: &mut Driver, judge: &Judge, store: &SourceStore, vert_file: &str, frag_file: &str) -> (s: Debug_Shader)
        requires
            old(d).wf(),
            judge.wf(),
            old(d).room_for(1, 2),
            store.spec_contents(vert_file@) is Some,
            store.spec_contents(frag_file@) is Some,
            store.spec_contents(vert_file@)->0.len() > 0 || store.spec_contents(
                frag_file@,
            )->0.len() > 0,
            load_succeeds(
                *judge,
                store.spec_contents(vert_file@)->0,
                store.spec_contents(frag_file@)->0,
            ),
        ensures
            final(d).wf(),
            s.wf_in(*final(d)),
            s.valid,
            s.vert_file@ == vert_file@,
            s.frag_file@ == frag_file@,
            s.vert_file_time == store.spec_mtime(vert_file@),
            s.frag_file_time == store.spec_mtime(frag_file@),
            final(d).bound == old(d).bound,
            final(d).prog(s.core.prog).uniforms@ == load_table(
                *judge,
                store.spec_contents(vert_file@)->0,
                store.spec_contents(frag_file@)->0,
            ),
    {
        let vert_time = store.stat(vert_file);
        let frag_time = store.stat(frag_file);
        let vert_src = match store.read(vert_file) {
            Some(c) => c,
            None => {
                proof {
                    assert(false);
                }
                String::new()
            },
        };
        let frag_src = match store.read(frag_file) {
            Some(c) => c,
            None => {
                proof {
                    assert(false);
                }
                String::new()
            },
        };
        let mut core = ProgramHandles { prog: 0, vert_obj: 0, frag_obj: 0 };
        let r = load(d, judge, &mut core, vert_src.as_str(), frag_src.as_str());
        if let Err(_) = r {
            proof {
                assert(false);
            }
        }
        Debug_Shader {
            core,
            vert_file: vert_file.to_owned(),
            frag_file: frag_file.to_owned(),
            vert_file_time: vert_time,
            frag_file_time: frag_time,
            valid: true,
        }
    }

    /// Build from two source files of `store`, reporting failure instead of
    /// ruling it out: an unreadable file (the vertex one named first) comes
    /// back as `SourceRead`, a rejected stage or link as the pipeline
    /// reports it. On success the entity is valid with both modification
    /// times recorded as observed now.
    pub fn try_new_with_files(d: &mut Driver, judge: &Judge, store: &SourceStore, vert_file: &str, frag_file: &str) -> (r: Result<Debug_Shader, CompileError>)
        requires
            old(d).wf(),
            judge.wf(),
            old(d).room_for(1, 2),
        ensures
            final(d).wf(),
            final(d).bound == old(d).bound,
            r is Ok <==> (store.spec_contents(vert_file@) is Some && store.spec_contents(
                frag_file@,
            ) is Some && load_succeeds(
                *judge,
                store.spec_contents(vert_file@)->0,
                store.spec_contents(frag_file@)->0,
            )),
            match r {
                Ok(s) => {
                    &&& s.wf_in(*final(d))
                    &&& s.valid
                    &&& s.vert_file@ == vert_file@
                    &&& s.frag_file@ == frag_file@
                    &&& s.vert_file_time == store.spec_mtime(vert_file@)
                    &&& s.frag_file_time == store.spec_mtime(frag_file@)
                    &&& final(d).prog(s.core.prog).uniforms@ == load_table(
                        *judge,
                        store.spec_contents(vert_file@)->0,
                        store.spec_contents(frag_file@)->0,
                    )
                },
                Err(e) => match e {
                    CompileError::SourceRead { path } => {
                        &&& (store.spec_contents(vert_file@) is None && path@ == vert_file@)
                            || (store.spec_contents(vert_file@) is Some && store.spec_contents(
                            frag_file@,
                        ) is None && path@ == frag_file@)
                        &&& final(d).programs@ == old(d).programs@
                        &&& final(d).shaders@ == old(d).shaders@
                    },
                    CompileError::StageCompile { stage, log } => {
                        &&& store.spec_contents(vert_file@) is Some
                        &&& store.spec_contents(frag_file@) is Some
                        &&& (stage == Stage::Vertex ==> store.spec_contents(vert_file@)->0.len()
                            > 0 && !judge.accepts(store.spec_contents(vert_file@)->0))
                        &&& (stage == Stage::Fragment ==> store.spec_contents(
                            frag_file@,
                        )->0.len() > 0 && !judge.accepts(store.spec_contents(frag_file@)->0))
                    },
                    CompileError::Link { log } => {
                        &&& store.spec_contents(vert_file@) is Some
                        &&& store.spec_contents(frag_file@) is Some
                        &&& judge.link_rejected(
                            store.spec_contents(vert_file@)->0,
                            store.spec_contents(frag_file@)->0,
                        )
                    },
                },
            },
    {
        let vert_time = store.stat(vert_file);
        let frag_time = store.stat(frag_file);
        let vert_src = match store.read(vert_file) {
            Some(c) => c,
            None => {
                return Err(CompileError::SourceRead { path: vert_file.to_owned() });
            },
        };
        let frag_src = match store.read(frag_file) {
            Some(c) => c,
            None => {
                return Err(CompileError::SourceRead { path: frag_file.to_owned() });
            },
        };
        let mut core = ProgramHandles { prog: 0, vert_obj: 0, frag_obj: 0 };
        match load(d, judge, &mut core, vert_src.as_str(), frag_src.as_str()) {
            Ok(()) => Ok(
                Debug_Shader {
                    core,
                    vert_file: vert_file.to_owned(),
                    frag_file: frag_file.to_owned(),
                    vert_file_time: vert_time,
                    frag_file_time: frag_time,
                    valid: true,
                },
            ),
            Err(e) => Err(e),
        }
    }

    /// Bind for rendering, consulting the tracked files first.
    ///
    /// The files are statted; if neither time has advanced past the record,
    /// nothing is recompiled (the driver's objects are untouched) and, when
    /// the entity is valid, its program is activated. If either time has
    /// advanced, both files are read fresh and the pipeline reruns; the new
    /// times are recorded whatever happens. A successful rebuild leaves the
    /// entity valid and binds the fresh program; a failed read or rebuild
    /// leaves it invalid and — deliberately — does not touch the binding,
    /// so the driver keeps whatever program was bound before.
    pub fn bind(&mut self, d: &mut Driver, judge: &Judge, store: &SourceStore)
        requires
            old(d).wf(),
            judge.wf(),
            old(d).room_for(1, 2),
            old(self).wf_in(*old(d)),
        ensures
            final(d).wf(),
            final(self).wf_in(*final(d)),
            final(self).vert_file@ == old(self).vert_file@,
            final(self).frag_file@ == old(self).frag_file@,
            ({
                let vt = store.spec_mtime(old(self).vert_file@);
                let ft = store.spec_mtime(old(self).frag_file@);
                let vc = store.spec_contents(old(self).vert_file@);
                let fc = store.spec_contents(old(self).frag_file@);
                if !old(self).reload_due(vt, ft) {
                    &&& *final(self) == *old(self)
                    &&& final(d).programs@ == old(d).programs@
                    &&& final(d).shaders@ == old(d).shaders@
                    &&& final(d).bound == (if old(self).valid {
                        old(self).core.prog
                    } else {
                        old(d).bound
                    })
                } else {
                    &&& final(self).vert_file_time == vt
                    &&& final(self).frag_file_time == ft
                    &&& match (vc, fc) {
                        (Some(v), Some(f)) => {
                            &&& final(d).programs@.len() == old(d).programs@.len()
                                + 1
                            &&& final(self).valid == load_succeeds(*judge, v, f)
                            &&& (final(self).valid ==> final(d).prog(
                                final(self).core.prog,
                            ).uniforms@ == load_table(*judge, v, f) && final(d).bound == final(self).core.prog)
                            &&& (!final(self).valid ==> final(d).bound == old(d).bound)
                        },
                        _ => {
                            &&& !final(self).valid
                            &&& final(d).programs@ == old(d).programs@
                            &&& final(d).shaders@ == old(d).shaders@
                            &&& final(d).bound == old(d).bound
                        },
                    }
                }
            }),
    {
        let vert_now = store.stat(self.vert_file.as_str());
        let frag_now = store.stat(self.frag_file.as_str());

        if self.needs_reload(vert_now, frag_now) {
            let vread = store.read(self.vert_file.as_str());
            let fread = store.read(self.frag_file.as_str());
            match (vread, fread) {
                (Some(vert_src), Some(frag_src)) => {
                    let r = load(d, judge, &mut self.core, vert_src.as_str(), frag_src.as_str());
                    self.valid = r.is_ok();
                },
                _ => {
                    self.valid = false;
                },
            }
            self.vert_file_time = vert_now;
            self.frag_file_time = frag_now;
        }

        if self.valid {
            bind(d, &self.core);
        }
    }

    /// Resolve a uniform name; an invalid entity resolves nothing and
    /// reports the sentinel.
    pub fn get_uniform_location(&self, d: &Driver, uniform: &str) -> (loc: i32)
        requires
            d.wf(),
        ensures
            self.valid ==> loc == d.spec_resolve(self.core.prog, uniform@),
            !self.valid ==> loc == crate::NO_UNIFORM,
    {
        if self.valid {
            get_uniform_location(d, &self.core, uniform)
        } else {
            crate::NO_UNIFORM
        }
    }

    /// Upload an integer; an invalid entity uploads nothing.
    pub fn update_uniform_i32(&self, d: &mut Driver, location: i32, i: i32)
        requires
            old(d).wf(),
        ensures
            final(d).wf(),
            final(d).bound == old(d).bound,
            final(d).shaders@ == old(d).shaders@,
            old(d).programs_same_except(*final(d), old(d).bound),
            self.valid && old(d).can_upload(location as int) ==> final(d).prog_live(
                old(d).bound,
            ) && final(d).prog(old(d).bound).linked,
            !(self.valid && old(d).can_upload(location as int)) ==> final(d).programs@ == old(d).programs@,
            self.valid && old(d).can_upload(location as int) ==> final(d).prog(
                old(d).bound,
            ).values@ == old(d).prog(old(d).bound).values@.update(
                location as int,
                Some(crate::UniformValue::Int(i)),
            ),
    {
        if self.valid {
            update_uniform_i32(d, location, i);
        }
    }

    /// Upload a scalar word; an invalid entity uploads nothing.
    pub fn update_uniform_f32(&self, d: &mut Driver, location: i32, bits: u32)
        requires
            old(d).wf(),
        ensures
            final(d).wf(),
            final(d).bound == old(d).bound,
            final(d).shaders@ == old(d).shaders@,
            old(d).programs_same_except(*final(d), old(d).bound),
            self.valid && old(d).can_upload(location as int) ==> final(d).prog_live(
                old(d).bound,
            ) && final(d).prog(old(d).bound).linked,
            !(self.valid && old(d).can_upload(location as int)) ==> final(d).programs@ == old(d).programs@,
            self.valid && old(d).can_upload(location as int) ==> final(d).prog(
                old(d).bound,
            ).values@ == old(d).prog(old(d).bound).values@.update(
                location as int,
                Some(crate::UniformValue::Scalar(bits)),
            ),
    {
        if self.valid {
            update_uniform_f32(d, location, bits);
        }
    }

    /// Upload a matrix; an invalid entity uploads nothing.
    pub fn update_uniform_mat(&self, d: &mut Driver, location: i32, mat: &Mat4)
        requires
            old(d).wf(),
        ensures
            final(d).wf(),
            final(d).bound == old(d).bound,
            final(d).shaders@ == old(d).shaders@,
            old(d).programs_same_except(*final(d), old(d).bound),
            self.valid && old(d).can_upload(location as int) ==> final(d).prog_live(
                old(d).bound,
            ) && final(d).prog(old(d).bound).linked,
            !(self.valid && old(d).can_upload(location as int)) ==> final(d).programs@ == old(d).programs@,
            self.valid && old(d).can_upload(location as int) ==> crate::is_matrix_with(
                final(d).prog(old(d).bound).values@[location as int],
                mat.spec_flat(),
            ),
    {
        if self.valid {
            update_uniform_mat(d, location, mat);
        }
    }
}

impl Shaderable for Debug_Shader {
    open spec fn inv(&self, d: Driver) -> bool {
        self.wf_in(d)
    }

    fn bind(&mut self, d: &mut Driver, judge: &Judge, store: &SourceStore) {
        Debug_Shader::bind(self, d, judge, store);
    }

    fn get_uniform_location(&self, d: &Driver, uniform: &str) -> (loc: i32) {
        Debug_Shader::get_uniform_location(self, d, uniform)
    }

    fn update_uniform_i32(&self, d: &mut Driver, location: i32, i: i32) {
        Debug_Shader::update_uniform_i32(self, d, location, i);
    }

    fn update_uniform_f32(&self, d: &mut Driver, location: i32, bits: u32) {
        Debug_Shader::update_uniform_f32(self, d, location, bits);
    }

    fn update_uniform_mat(&self, d: &mut Driver, location: i32, mat: &Mat4) {
        Debug_Shader::update_uniform_mat(self, d, location, mat);
    }
}

} // verus!
