//! 4x4 matrices as they cross the uniform-upload boundary.
//!
//! The engine builds a matrix as 4 rows of 4 entries (row-major construction
//! order). The driver expects the upload as a flat sequence of 16 entries in
//! exactly that memory order — the entry at row `r`, column `c` at flat index
//! `4*r + c` — with no transpose requested. This is a layout-compatibility
//! contract, not a transpose: getting the order wrong corrupts every
//! transform silently, without a compile or link error, so the order is
//! stated on both directions and the round trip is proved.
//!
//! Entries are opaque 32-bit words (the bit patterns of the engine's scalar
//! type). Nothing here interprets them, so an uploaded matrix and its later
//! read-back can be compared bit for bit.

use vstd::prelude::*;

verus! {

/// A 4x4 matrix of opaque 32-bit entries, held as rows.
#[derive(Clone, Copy, PartialEq, Eq, Debug)]
pub struct Mat4 {
    pub rows: [[u32; 4]; 4],
}

impl Mat4 {
    /// The entry at row `r`, column `c`.
    pub open spec fn entry(self, r: int, c: int) -> u32 {
        self.rows[r][c]
    }

    /// Two matrices agree entry for entry.
    pub open spec fn entries_equal(self, other: Mat4) -> bool {
        forall|r: int, c: int|
            0 <= r < 4 && 0 <= c < 4 ==> self.entry(r, c) == other.entry(r, c)
    }

    pub fn new(rows: [[u32; 4]; 4]) -> (m: Mat4)
        ensures
            m.rows == rows,
    {
        Mat4 { rows }
    }

    /// The flat 16-entry form as a sequence: row `r`, column `c` at index
    /// `4*r + c`.
    pub open spec fn spec_flat(self) -> Seq<u32> {
        Seq::new(16, |i: int| self.entry(i / 4, i % 4))
    }

    /// The flat 16-entry form the driver uploads: row `r`, column `c` at
    /// index `4*r + c`.
    pub fn flat(&self) -> (v: Vec<u32>)
        ensures
            v@ == self.spec_flat(),
            v@.len() == 16,
            forall|r: int, c: int|
                0 <= r < 4 && 0 <= c < 4 ==> v@[4 * r + c] == self.entry(r, c),
    {
        let mut v: Vec<u32> = Vec::new();
        let mut r: usize = 0;
        while r < 4
            invariant
                r <= 4,
                v@.len() == 4 * r,
                forall|i: int, c: int|
                    0 <= i < r && 0 <= c < 4 ==> v@[4 * i + c] == self.entry(i, c),
            decreases 4 - r,
        {
            let row: [u32; 4] = self.rows[r];
            let mut c: usize = 0;
            while c < 4
                invariant
                    r < 4,
                    c <= 4,
                    row == self.rows@[r as int],
                    v@.len() == 4 * r + c,
                    forall|i: int, j: int|
                        0 <= i < r && 0 <= j < 4 ==> v@[4 * i + j] == self.entry(i, j),
                    forall|j: int| 0 <= j < c ==> v@[4 * r + j] == self.entry(r as int, j),
                decreases 4 - c,
            {
                v.push(row[c]);
                c += 1;
            }
            r += 1;
        }
        proof {
            assert forall|j: int| 0 <= j < 16 implies v@[j] == self.entry(j / 4, j % 4) by {
                assert(v@[4 * (j / 4) + (j % 4)] == self.entry(j / 4, j % 4));
            }
            assert(v@ =~= self.spec_flat());
        }
        v
    }

    /// Rebuild a matrix from the driver's flat form; inverse of [`Mat4::flat`].
    pub fn from_flat(v: &Vec<u32>) -> (m: Mat4)
        requires
            v@.len() == 16,
        ensures
            forall|r: int, c: int|
                0 <= r < 4 && 0 <= c < 4 ==> m.entry(r, c) == v@[4 * r + c],
    {
        let rows: [[u32; 4]; 4] = [
            [v[0], v[1], v[2], v[3]],
            [v[4], v[5], v[6], v[7]],
            [v[8], v[9], v[10], v[11]],
            [v[12], v[13], v[14], v[15]],
        ];
        Mat4 { rows }
    }
}

/// Flattening for upload and rebuilding from a read-back lose nothing:
/// whatever matrix goes out in flat form comes back entry for entry.
pub proof fn lemma_flat_round_trip(m: Mat4, v: Seq<u32>, back: Mat4)
    requires
        v.len() == 16,
        forall|r: int, c: int| 0 <= r < 4 && 0 <= c < 4 ==> v[4 * r + c] == m.entry(r, c),
        forall|r: int, c: int| 0 <= r < 4 && 0 <= c < 4 ==> back.entry(r, c) == v[4 * r + c],
    ensures
        back.entries_equal(m),
{
}

} // verus!
