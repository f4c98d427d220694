//! Phase-coloring correctness.
//!
//! Chunks are colored by their lattice coordinate modulo the coloring width
//! `C`.  Chunks of one color are dispatched in parallel within one phase, so
//! the safety of the scheduler rests on same-colored chunks being far enough
//! apart that their write sets — each chunk plus its 26 neighbors — cannot
//! overlap.  The lemmas here prove that separation: two distinct chunks of
//! one color differ by at least `C` on every axis where they differ at all,
//! so with `C >= 3` their 27-chunk write sets are disjoint.  With `C < 3`
//! that guarantee is gone and the coloring is a mere scheduling heuristic;
//! callers must then rely wholly on the per-chunk locks.

use vstd::prelude::*;

use crate::world::{index3_spec, loopert_spec, World};

verus! {

/// A phase color always lies in `[0, c³)`: the phases `0 .. c³` cover every
/// chunk.
pub proof fn lemma_loopert_range(x: int, y: int, z: int, c: int)
    requires
        c >= 1,
        x >= 0,
        y >= 0,
        z >= 0,
    ensures
        0 <= loopert_spec(x, y, z, c) < c * c * c,
{
    assert(0 <= (x % c) * c * c + (y % c) * c + (z % c) < c * c * c) by (nonlinear_arith)
        requires
            0 <= x % c < c,
            0 <= y % c < c,
            0 <= z % c < c,
            c >= 1,
    ;
}

/// Base-`c` digit uniqueness: a phase color determines all three coordinate
/// residues.
proof fn lemma_color_digits(c: int, x1: int, y1: int, z1: int, x2: int, y2: int, z2: int)
    requires
        c >= 1,
        x1 >= 0,
        y1 >= 0,
        z1 >= 0,
        x2 >= 0,
        y2 >= 0,
        z2 >= 0,
        loopert_spec(x1, y1, z1, c) == loopert_spec(x2, y2, z2, c),
    ensures
        x1 % c == x2 % c,
        y1 % c == y2 % c,
        z1 % c == z2 % c,
{
    let a1 = x1 % c;
    let b1 = y1 % c;
    let d1 = z1 % c;
    let a2 = x2 % c;
    let b2 = y2 % c;
    let d2 = z2 % c;
    assert(a1 == a2 && b1 == b2 && d1 == d2) by (nonlinear_arith)
        requires
            a1 * c * c + b1 * c + d1 == a2 * c * c + b2 * c + d2,
            0 <= a1 < c,
            0 <= b1 < c,
            0 <= d1 < c,
            0 <= a2 < c,
            0 <= b2 < c,
            0 <= d2 < c,
    ;
}

/// Two nonnegative integers with equal residue modulo `c` are either equal
/// or at least `c` apart.
proof fn lemma_congruent_gap(c: int, v1: int, v2: int)
    requires
        c >= 1,
        v1 >= 0,
        v2 >= 0,
        v1 % c == v2 % c,
        v1 != v2,
    ensures
        v1 - v2 >= c || v2 - v1 >= c,
{
    vstd::arithmetic::div_mod::lemma_fundamental_div_mod(v1, c);
    vstd::arithmetic::div_mod::lemma_fundamental_div_mod(v2, c);
    let q1 = v1 / c;
    let q2 = v2 / c;
    assert(v1 - v2 >= c || v2 - v1 >= c) by (nonlinear_arith)
        requires
            v1 == c * q1 + v1 % c,
            v2 == c * q2 + v2 % c,
            v1 % c == v2 % c,
            v1 != v2,
            c >= 1,
    ;
}

/// Coloring separation: two distinct lattice coordinates of equal phase
/// color differ by at least the coloring width `c` on every axis where they
/// differ at all, and with `c >= 3` some axis puts them at least 3 apart, so
/// their 27-chunk write windows share no chunk.
pub proof fn lemma_coloring_separation(
    c: int,
    x1: int,
    y1: int,
    z1: int,
    x2: int,
    y2: int,
    z2: int,
)
    requires
        c >= 1,
        x1 >= 0,
        y1 >= 0,
        z1 >= 0,
        x2 >= 0,
        y2 >= 0,
        z2 >= 0,
        loopert_spec(x1, y1, z1, c) == loopert_spec(x2, y2, z2, c),
    ensures
        x1 != x2 ==> x1 - x2 >= c || x2 - x1 >= c,
        y1 != y2 ==> y1 - y2 >= c || y2 - y1 >= c,
        z1 != z2 ==> z1 - z2 >= c || z2 - z1 >= c,
        (c >= 3 && !(x1 == x2 && y1 == y2 && z1 == z2)) ==> (x1 - x2 >= 3 || x2 - x1 >= 3 || y1
            - y2 >= 3 || y2 - y1 >= 3 || z1 - z2 >= 3 || z2 - z1 >= 3),
{
    lemma_color_digits(c, x1, y1, z1, x2, y2, z2);
    if x1 != x2 {
        lemma_congruent_gap(c, x1, x2);
    }
    if y1 != y2 {
        lemma_congruent_gap(c, y1, y2);
    }
    if z1 != z2 {
        lemma_congruent_gap(c, z1, z2);
    }
}

/// Coloring correctness on a well-formed world: two distinct chunks that
/// share a phase color are at least the coloring width apart on every
/// differing axis.  With a coloring width of at least 3 neither chunk lies
/// in the other's 27-neighbor window, and the windows are disjoint
/// altogether, so one phase may run its chunks in parallel: no node array
/// is reachable from two tasks of the phase.
pub proof fn lemma_world_coloring(w: World, x1: int, y1: int, z1: int, x2: int, y2: int, z2: int)
    requires
        w.wf(),
        0 <= x1 < w.lattice_width,
        0 <= y1 < w.lattice_width,
        0 <= z1 < w.lattice_width,
        0 <= x2 < w.lattice_width,
        0 <= y2 < w.lattice_width,
        0 <= z2 < w.lattice_width,
        !(x1 == x2 && y1 == y2 && z1 == z2),
        w.chunks[index3_spec(w.lattice_width as int, x1, y1, z1)].loopert == w.chunks[index3_spec(
            w.lattice_width as int,
            x2,
            y2,
            z2,
        )].loopert,
    ensures
        x1 != x2 ==> x1 - x2 >= w.coloring_width || x2 - x1 >= w.coloring_width,
        y1 != y2 ==> y1 - y2 >= w.coloring_width || y2 - y1 >= w.coloring_width,
        z1 != z2 ==> z1 - z2 >= w.coloring_width || z2 - z1 >= w.coloring_width,
        w.coloring_width >= 3 ==> (x1 - x2 >= 3 || x2 - x1 >= 3 || y1 - y2 >= 3 || y2 - y1 >= 3
            || z1 - z2 >= 3 || z2 - z1 >= 3),
{
    lemma_coloring_separation(w.coloring_width as int, x1, y1, z1, x2, y2, z2);
}

} // verus!
