//! The driver's GLSL front end, supplied as data.
//!
//! Whether a source text compiles, which uniforms a compiled stage declares,
//! and whether a pair of compiled stages links are judgments of the driver's
//! compiler, not of this library. A [`Judge`] carries those judgments as
//! plain values: the sources the front end accepts (each with the uniforms it
//! declares) and the stage pairs whose link fails. Every contract of the
//! subsystem is stated relative to the judge it ran against, which is exactly
//! the standing of a real driver's compiler.

use vstd::prelude::*;

verus! {

/// One source text the front end accepts, with the uniform names the
/// compiled stage contributes to a program that links it, in declaration
/// order.
#[derive(Clone, PartialEq, Eq, Debug)]
pub struct GlslSpec {
    pub source: String,
    pub uniforms: Vec<String>,
}

/// The front end's judgment of source texts and of links.
///
/// A source compiles if and only if it occurs in `accepted`; when several
/// entries carry the same source, the first governs. A pair of compiled
/// stages links unless the pair of their sources (an absent stage as the
/// empty string) occurs in `bad_links`.
#[derive(Clone, PartialEq, Eq, Debug)]
pub struct Judge {
    pub accepted: Vec<GlslSpec>,
    pub bad_links: Vec<(String, String)>,
}

/// The first entry of `list` whose source reads `src`, if any.
pub open spec fn find_glsl(list: Seq<GlslSpec>, src: Seq<char>) -> Option<GlslSpec>
    decreases list.len(),
{
    if list.len() == 0 {
        None
    } else if list[0].source@ == src {
        Some(list[0])
    } else {
        find_glsl(list.subrange(1, list.len() as int), src)
    }
}

/// What `find_glsl` returns is an entry of the list it searched.
pub proof fn lemma_find_glsl_member(list: Seq<GlslSpec>, src: Seq<char>)
    ensures
        find_glsl(list, src) is Some ==> exists|i: int|
            0 <= i < list.len() && list[i] == find_glsl(list, src)->0,
    decreases list.len(),
{
    if list.len() > 0 && list[0].source@ != src {
        let tail = list.subrange(1, list.len() as int);
        lemma_find_glsl_member(tail, src);
        if find_glsl(list, src) is Some {
            let j = choose|j: int| 0 <= j < tail.len() && tail[j] == find_glsl(tail, src)->0;
            assert(list[j + 1] == tail[j]);
        }
    }
}

impl Judge {
    /// The front end compiles `src`.
    pub open spec fn accepts(self, src: Seq<char>) -> bool {
        find_glsl(self.accepted@, src) is Some
    }

    /// The uniforms a stage compiled from `src` declares (empty if the front
    /// end rejects `src`).
    pub open spec fn declared(self, src: Seq<char>) -> Seq<String> {
        match find_glsl(self.accepted@, src) {
            Some(g) => g.uniforms@,
            None => Seq::empty(),
        }
    }

    /// The front end refuses to link the stage pair compiled from `v` and
    /// `f` (an absent stage as the empty string).
    pub open spec fn link_rejected(self, v: Seq<char>, f: Seq<char>) -> bool {
        exists|i: int|
            0 <= i < self.bad_links@.len() && self.bad_links@[i].0@ == v
                && self.bad_links@[i].1@ == f
    }

    /// No accepted source declares more uniforms than half the handle range,
    /// so every linked table's locations fit the driver's handle type.
    pub open spec fn wf(self) -> bool {
        forall|i: int|
            0 <= i < self.accepted@.len() ==> self.accepted@[i].uniforms@.len() <= 0x3FFF_FFFF
    }

    /// The first accepted entry for `src`, if the front end compiles it.
    pub fn find_accepted(&self, src: &str) -> (r: Option<&GlslSpec>)
        ensures
            match r {
                Some(g) => find_glsl(self.accepted@, src@) == Some(*g),
                None => find_glsl(self.accepted@, src@) is None,
            },
    {
        let s: String = src.to_owned();
        let n: usize = self.accepted.len();
        let mut i: usize = 0;
        proof {
            assert(self.accepted@.subrange(0, n as int) =~= self.accepted@);
        }
        while i < n
            invariant
                n == self.accepted@.len(),
                i <= n,
                s@ == src@,
                find_glsl(self.accepted@, src@) == find_glsl(
                    self.accepted@.subrange(i as int, n as int),
                    src@,
                ),
            decreases n - i,
        {
            let g = &self.accepted[i];
            if g.source == s {
                proof {
                    assert(self.accepted@.subrange(i as int, n as int)[0] == self.accepted@[i as int]);
                }
                return Some(g);
            }
            proof {
                assert(self.accepted@.subrange(i as int, n as int).subrange(
                    1,
                    (n - i) as int,
                ) =~= self.accepted@.subrange(i as int + 1, n as int));
            }
            i += 1;
        }
        proof {
            assert(self.accepted@.subrange(i as int, n as int).len() == 0);
        }
        None
    }

    /// Whether the front end compiles `src`.
    pub fn compiles(&self, src: &str) -> (r: bool)
        ensures
            r == self.accepts(src@),
    {
        self.find_accepted(src).is_some()
    }

    /// Whether the front end refuses the link of the pair `(v, f)`.
    pub fn rejects_link(&self, v: &str, f: &str) -> (r: bool)
        ensures
            r == self.link_rejected(v@, f@),
    {
        let vs: String = v.to_owned();
        let fs: String = f.to_owned();
        let n: usize = self.bad_links.len();
        let mut i: usize = 0;
        while i < n
            invariant
                n == self.bad_links@.len(),
                i <= n,
                vs@ == v@,
                fs@ == f@,
                forall|j: int|
                    0 <= j < i ==> !(self.bad_links@[j].0@ == v@ && self.bad_links@[j].1@
                        == f@),
            decreases n - i,
        {
            let p = &self.bad_links[i];
            if p.0 == vs && p.1 == fs {
                return true;
            }
            i += 1;
        }
        false
    }
}

} // verus!
