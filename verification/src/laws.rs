//! Cross-cutting guarantees of the subsystem, stated as theorems over the
//! driver model. Each is proved from the public contracts alone, so a
//! reader sees the stated shape of the subsystem rather than having to
//! derive it.

use vstd::prelude::*;

use crate::driver::first_name_index;
use crate::driver::lemma_first_name_index_bounds;
use crate::driver::Driver;
use crate::mat4::lemma_flat_round_trip;
use crate::mat4::Mat4;
use crate::shader::Debug_Shader;
use crate::store::SourceStore;

verus! {

/// A monitored shader built from literal sources tracks no files — both
/// recorded paths are empty — and the empty path observes as absent in
/// every store, so no reload is ever due: after the initial build it
/// behaves exactly as the frozen variant.
pub proof fn lemma_literal_source_never_reloads(s: Debug_Shader, store: SourceStore)
    requires
        s.vert_file@.len() == 0,
        s.frag_file@.len() == 0,
    ensures
        !s.reload_due(store.spec_mtime(s.vert_file@), store.spec_mtime(s.frag_file@)),
{
}

/// A program that is dead or failed to link is never activated: asking the
/// driver to bind it leaves whatever program was bound before — a failed
/// build can disable rendering with a shader, but it cannot corrupt the
/// binding.
pub proof fn lemma_unlinked_never_activates(d: Driver, h: u32)
    requires
        h != 0,
        !(d.prog_live(h) && d.prog(h).linked),
    ensures
        d.bind_target(h) == d.bound,
{
}

/// Resolving the same uniform name twice on the same program, with no
/// driver change in between, reports the same handle: resolution is a
/// function of the program's table alone.
pub proof fn lemma_resolution_idempotent(
    d: Driver,
    prog: u32,
    name: Seq<char>,
    first: int,
    second: int,
)
    requires
        first == d.spec_resolve(prog, name),
        second == d.spec_resolve(prog, name),
    ensures
        first == second,
{
}

/// A name no table entry carries resolves to the sentinel -1 — and to
/// nothing else, so a missing or optimised-out uniform never aborts a
/// render.
pub proof fn lemma_absent_name_resolves_sentinel(d: Driver, prog: u32, name: Seq<char>)
    requires
        d.prog_live(prog) ==> forall|i: int|
            0 <= i < d.prog(prog).uniforms@.len() ==> d.prog(prog).uniforms@[i]@ != name,
    ensures
        d.spec_resolve(prog, name) == -1,
{
    if d.prog_live(prog) && d.prog(prog).linked {
        lemma_first_name_index_bounds(d.prog(prog).uniforms@, name);
        if first_name_index(d.prog(prog).uniforms@, name) >= 0 {
            assert(d.prog(prog).uniforms@[first_name_index(d.prog(prog).uniforms@, name)]@
                == name);
        }
    }
}

/// A name some table entry of a linked program carries always resolves to
/// a proper location, never to the sentinel.
pub proof fn lemma_declared_name_resolves(d: Driver, prog: u32, name: Seq<char>)
    requires
        d.prog_live(prog),
        d.prog(prog).linked,
        exists|i: int| 0 <= i < d.prog(prog).uniforms@.len() && d.prog(prog).uniforms@[i]@ == name,
    ensures
        0 <= d.spec_resolve(prog, name) < d.prog(prog).uniforms@.len(),
{
    lemma_first_name_index_bounds(d.prog(prog).uniforms@, name);
}

/// The matrix upload round trip loses nothing: a matrix flattened to the
/// driver's order and rebuilt from what the driver stored agrees with the
/// original entry for entry, bit for bit.
pub proof fn lemma_matrix_round_trip(m: Mat4, back: Mat4)
    requires
        forall|r: int, c: int|
            0 <= r < 4 && 0 <= c < 4 ==> back.entry(r, c) == m.spec_flat()[4 * r + c],
    ensures
        back.entries_equal(m),
{
    assert forall|r: int, c: int| 0 <= r < 4 && 0 <= c < 4 implies m.spec_flat()[4 * r + c]
        == m.entry(r, c) by {
        assert((4 * r + c) / 4 == r);
        assert((4 * r + c) % 4 == c);
    }
    lemma_flat_round_trip(m, m.spec_flat(), back);
}

} // verus!
