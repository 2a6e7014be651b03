//! The escape-time evaluator: how many steps of an iterated map a point
//! survives before a divergence test fires, up to a cap.
//!
//! The point type, the map and the test are parameters. The contracts speak
//! of them through what their own contracts allow, so they hold for any
//! arithmetic a caller plugs in.

use vstd::prelude::*;

verus! {

/// `orbit` is a run of `advance` that starts at `z0`, lasts `k` steps, has not
/// diverged before step `k`, and has diverged at step `k` unless `k` is the
/// cap.
pub open spec fn escapes_along<Z, A: Fn(Z) -> Z, D: Fn(&Z) -> bool>(
    advance: &A,
    diverged: &D,
    z0: Z,
    cap: usize,
    k: usize,
    orbit: Seq<Z>,
) -> bool {
    &&& k <= cap
    &&& orbit.len() == k + 1
    &&& orbit[0] == z0
    &&& forall|i: int| 0 <= i < k ==> advance.ensures((#[trigger] orbit[i],), orbit[i + 1])
    &&& forall|i: int| 0 <= i < k ==> diverged.ensures((&#[trigger] orbit[i],), false)
    &&& k < cap ==> diverged.ensures((&orbit[k as int],), true)
}

/// `k` is an escape time of `z0`: the smallest index at which the orbit of
/// `z0` under `advance` has diverged, or `cap` when no index below the cap
/// has.
pub open spec fn is_escape_time<Z, A: Fn(Z) -> Z, D: Fn(&Z) -> bool>(
    advance: &A,
    diverged: &D,
    z0: Z,
    cap: usize,
    k: usize,
) -> bool {
    exists|orbit: Seq<Z>| #[trigger] escapes_along(advance, diverged, z0, cap, k, orbit)
}

/// `advance` has at most one result for each point.
pub open spec fn single_valued_map<Z, A: Fn(Z) -> Z>(advance: &A) -> bool {
    forall|z: Z, a: Z, b: Z|
        #[trigger] advance.ensures((z,), a) && #[trigger] advance.ensures((z,), b) ==> a == b
}

/// `diverged` has at most one verdict for each point.
pub open spec fn single_valued_test<Z, D: Fn(&Z) -> bool>(diverged: &D) -> bool {
    forall|z: Z| !(#[trigger] diverged.ensures((&z,), true) && diverged.ensures((&z,), false))
}

/// Counts the steps of `advance` from `z0` until `diverged` fires, stopping
/// at `cap`.
///
/// The test is applied to the current point first, so a point that has
/// diverged from the start yields `0`; the map is applied only to points that
/// have not diverged.
pub fn escape_time<Z, A: Fn(Z) -> Z, D: Fn(&Z) -> bool>(
    z0: Z,
    advance: &A,
    diverged: &D,
    cap: usize,
) -> (k: usize)
    requires
        forall|z: Z| #[trigger] advance.requires((z,)),
        forall|z: Z| #[trigger] diverged.requires((&z,)),
    ensures
        k <= cap,
        is_escape_time(advance, diverged, z0, cap, k),
{
    let mut z = z0;
    let mut k: usize = 0;
    let ghost mut orbit: Seq<Z> = seq![z0];
    loop
        invariant_except_break
            k <= cap,
            orbit.len() == k + 1,
            orbit[0] == z0,
            orbit[k as int] == z,
            forall|i: int| 0 <= i < k ==> advance.ensures((#[trigger] orbit[i],), orbit[i + 1]),
            forall|i: int| 0 <= i < k ==> diverged.ensures((&#[trigger] orbit[i],), false),
            forall|z: Z| #[trigger] advance.requires((z,)),
            forall|z: Z| #[trigger] diverged.requires((&z,)),
        ensures
            k <= cap,
            escapes_along(advance, diverged, z0, cap, k, orbit),
        decreases cap - k,
    {
        let out = diverged(&z);
        if out || k >= cap {
            break ;
        }
        let next = advance(z);
        proof {
            orbit = orbit.push(next);
        }
        z = next;
        k = k + 1;
    }
    k
}

/// A point that has already diverged has escape time zero: where the test
/// cannot answer "not diverged" at `z0`, every escape time of `z0` is `0`.
pub proof fn lemma_diverged_start_is_zero<Z, A: Fn(Z) -> Z, D: Fn(&Z) -> bool>(
    advance: &A,
    diverged: &D,
    z0: Z,
    cap: usize,
    k: usize,
)
    requires
        is_escape_time(advance, diverged, z0, cap, k),
        !diverged.ensures((&z0,), false),
    ensures
        k == 0,
{
    let orbit = choose|orbit: Seq<Z>| escapes_along(advance, diverged, z0, cap, k, orbit);
    assert(k > 0 ==> diverged.ensures((&orbit[0],), false));
}

/// A point that the map sends to itself and that has not diverged never
/// escapes: every escape time of it is the cap.
pub proof fn lemma_fixed_point_reaches_cap<Z, A: Fn(Z) -> Z, D: Fn(&Z) -> bool>(
    advance: &A,
    diverged: &D,
    z0: Z,
    cap: usize,
    k: usize,
)
    requires
        is_escape_time(advance, diverged, z0, cap, k),
        forall|z: Z| advance.ensures((z0,), z) ==> z == z0,
        !diverged.ensures((&z0,), true),
    ensures
        k == cap,
{
    let orbit = choose|orbit: Seq<Z>| escapes_along(advance, diverged, z0, cap, k, orbit);
    lemma_orbit_stays(advance, z0, orbit, k as int);
}

/// Along a run of `advance` from a fixed point, every element is that point.
proof fn lemma_orbit_stays<Z, A: Fn(Z) -> Z>(advance: &A, z0: Z, orbit: Seq<Z>, i: int)
    requires
        0 <= i < orbit.len(),
        orbit[0] == z0,
        forall|j: int|
            0 <= j < orbit.len() - 1 ==> advance.ensures((#[trigger] orbit[j],), orbit[j + 1]),
        forall|z: Z| advance.ensures((z0,), z) ==> z == z0,
    ensures
        orbit[i] == z0,
    decreases i,
{
    if i > 0 {
        lemma_orbit_stays(advance, z0, orbit, i - 1);
    }
}

/// Two runs of a single-valued map from the same point agree wherever both
/// are defined.
proof fn lemma_orbits_agree<Z, A: Fn(Z) -> Z>(advance: &A, a: Seq<Z>, b: Seq<Z>, i: int)
    requires
        0 <= i < a.len(),
        i < b.len(),
        a[0] == b[0],
        forall|j: int| 0 <= j < a.len() - 1 ==> advance.ensures((#[trigger] a[j],), a[j + 1]),
        forall|j: int| 0 <= j < b.len() - 1 ==> advance.ensures((#[trigger] b[j],), b[j + 1]),
        single_valued_map(advance),
    ensures
        a[i] == b[i],
    decreases i,
{
    if i > 0 {
        lemma_orbits_agree(advance, a, b, i - 1);
    }
}

/// With a single-valued map and a single-valued test, a point has exactly
/// one escape time: evaluating it again gives the same count.
pub proof fn lemma_escape_time_unique<Z, A: Fn(Z) -> Z, D: Fn(&Z) -> bool>(
    advance: &A,
    diverged: &D,
    z0: Z,
    cap: usize,
    k1: usize,
    k2: usize,
)
    requires
        is_escape_time(advance, diverged, z0, cap, k1),
        is_escape_time(advance, diverged, z0, cap, k2),
        single_valued_map(advance),
        single_valued_test(diverged),
    ensures
        k1 == k2,
{
    let a = choose|orbit: Seq<Z>| escapes_along(advance, diverged, z0, cap, k1, orbit);
    let b = choose|orbit: Seq<Z>| escapes_along(advance, diverged, z0, cap, k2, orbit);
    if k1 < k2 {
        lemma_orbits_agree(advance, a, b, k1 as int);
    } else if k2 < k1 {
        lemma_orbits_agree(advance, a, b, k2 as int);
    }
}

} // verus!
