//! Comparing register values with 128-bit constants written as two big-endian words.

use crate::batch::Reg128;
use vstd::prelude::*;

verus! {

/// The eight bytes of `v`, most significant first.
pub open spec fn be_bytes(v: u64) -> Seq<u8> {
    Seq::new(8, |i: int| ((v >> ((56 - 8 * i) as u64)) & 0xff) as u8)
}

/// The sixteen bytes of a constant written as two big-endian words, first word first.
pub open spec fn be_words_bytes(w: [u64; 2]) -> Seq<u8> {
    be_bytes(w[0]) + be_bytes(w[1])
}

/// Whether a register value holds exactly the bytes that `w` writes out.
pub fn lane_matches_be_words(a: Reg128, w: [u64; 2]) -> (r: bool)
    ensures
        r == (a.bytes@ == be_words_bytes(w)),
{
    let ghost expected = be_words_bytes(w);
    let mut j: usize = 0;
    while j < 16
        invariant
            0 <= j <= 16,
            expected == be_words_bytes(w),
            forall|k: int| 0 <= k < j ==> #[trigger] a.bytes[k] == expected[k],
        decreases 16 - j,
    {
        let word: u64 = if j < 8 { w[0] } else { w[1] };
        let shift: u64 = 56 - 8 * ((j % 8) as u64);
        let byte: u8 = ((word >> shift) & 0xff) as u8;
        assert(byte == expected[j as int]);
        if a.bytes[j] != byte {
            assert(a.bytes@[j as int] != expected[j as int]);
            return false;
        }
        j = j + 1;
    }
    assert(a.bytes@ =~= expected);
    true
}

/// Whether each lane of `a` equals the constant at the same place in `b`; pairs past
/// the shorter of the two are not compared.
pub fn check(a: &[Reg128], b: &[[u64; 2]]) -> (r: bool)
    ensures
        r == forall|i: int|
            0 <= i < a.len() && i < b.len() ==> (#[trigger] a[i]).bytes@ == be_words_bytes(b[i]),
{
    let mut i: usize = 0;
    while i < a.len() && i < b.len()
        invariant
            0 <= i <= a.len(),
            forall|k: int| 0 <= k < i ==> (#[trigger] a[k]).bytes@ == be_words_bytes(b[k]),
        decreases a.len() - i,
    {
        if !lane_matches_be_words(a[i], b[i]) {
            return false;
        }
        i = i + 1;
    }
    true
}

} // verus!
