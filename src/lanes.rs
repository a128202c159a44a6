//! Broadcasting one single-lane operation across the eight lanes of a batch.

use crate::batch::LANES;
use vstd::prelude::*;

verus! {

/// `s` with the contents of positions `i` and `j` exchanged.
pub open spec fn swap_lanes<T>(s: Seq<T>, i: int, j: int) -> Seq<T> {
    s.update(i, s[j]).update(j, s[i])
}

/// `f` gives at most one result for each input.
pub open spec fn deterministic<T, F: Fn(T) -> T>(f: F) -> bool {
    forall|x: T, y: T, z: T|
        #[trigger] f.ensures((x,), y) && #[trigger] f.ensures((x,), z) ==> y == z
}

/// `after` holds, lane by lane, a result that `f` may give on `before`.
pub open spec fn lane_results<T, F: Fn(T) -> T>(f: F, before: [T; 8], after: [T; 8]) -> bool {
    forall|i: int| 0 <= i < 8 ==> f.ensures((before[i],), #[trigger] after[i])
}

/// Applies `f` to each lane on its own, in place; lane `i` out depends only on lane `i` in.
pub fn apply8<T: Copy, F: Fn(T) -> T>(b: &mut [T; 8], f: F)
    requires
        forall|i: int| 0 <= i < 8 ==> f.requires((#[trigger] old(b)[i],)),
    ensures
        lane_results(f, *old(b), *final(b)),
{
    let mut i: usize = 0;
    while i < LANES
        invariant
            0 <= i <= 8,
            forall|j: int| 0 <= j < 8 ==> f.requires((#[trigger] old(b)[j],)),
            forall|j: int| 0 <= j < i ==> f.ensures((old(b)[j],), #[trigger] b[j]),
            forall|j: int| i <= j < 8 ==> #[trigger] b[j] == old(b)[j],
        decreases 8 - i,
    {
        let x = b[i];
        b[i] = f(x);
        i = i + 1;
    }
}

/// Exchanging two input lanes of a lane-wise operation exchanges the same two output
/// lanes and leaves every other lane as it was.
pub proof fn lemma_apply8_lane_swap<T, F: Fn(T) -> T>(
    f: F,
    a: [T; 8],
    ra: [T; 8],
    c: [T; 8],
    rc: [T; 8],
    i: int,
    j: int,
)
    requires
        0 <= i < 8,
        0 <= j < 8,
        deterministic(f),
        c@ == swap_lanes(a@, i, j),
        lane_results(f, a, ra),
        lane_results(f, c, rc),
    ensures
        rc@ == swap_lanes(ra@, i, j),
{
    assert forall|k: int| 0 <= k < 8 implies rc@[k] == swap_lanes(ra@, i, j)[k] by {
        assert(c[k] == c@[k]);
        assert(f.ensures((c[k],), rc[k]));
        if k == j {
            assert(f.ensures((a[i],), ra[i]));
        } else if k == i {
            assert(f.ensures((a[j],), ra[j]));
        } else {
            assert(f.ensures((a[k],), ra[k]));
        }
    }
    assert(rc@ =~= swap_lanes(ra@, i, j));
}

/// A batch whose eight lanes hold the same value comes out with eight equal lanes.
pub proof fn lemma_apply8_uniform<T, F: Fn(T) -> T>(f: F, a: [T; 8], ra: [T; 8])
    requires
        deterministic(f),
        forall|k: int| 0 <= k < 8 ==> #[trigger] a[k] == a[0],
        lane_results(f, a, ra),
    ensures
        forall|k: int| 0 <= k < 8 ==> #[trigger] ra[k] == ra[0],
{
    assert forall|k: int| 0 <= k < 8 implies #[trigger] ra[k] == ra[0] by {
        assert(f.ensures((a[k],), ra[k]));
        assert(f.ensures((a[0],), ra[0]));
    }
}

} // verus!
