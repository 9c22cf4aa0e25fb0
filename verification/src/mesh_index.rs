//! Triangle index buffers for the procedural 2D meshes (joystick ring and
//! five-point star). Vertex positions are computed by the renderer side;
//! these buffers only say which vertices form each triangle.

use vstd::prelude::*;

verus! {

/// Segments actually used for a ring: at least 16.
pub open spec fn ring_segments(requested: int) -> int {
    if requested >= 16 { requested } else { 16 }
}

/// Entry `k` of the ring index buffer with `segs` segments. Vertex `2i` is
/// on the outer rim and `2i + 1` on the inner rim at angle `i`; segment `i`
/// is the quad between angle `i` and the next angle (wrapping), split into
/// the triangles (outer i, outer j, inner i) and (outer j, inner j, inner i).
pub open spec fn ring_index(segs: int, k: int) -> int {
    let i = k / 6;
    let j = (i + 1) % segs;
    let r = k % 6;
    if r == 0 {
        2 * i
    } else if r == 1 {
        2 * j
    } else if r == 2 {
        2 * i + 1
    } else if r == 3 {
        2 * j
    } else if r == 4 {
        2 * j + 1
    } else {
        2 * i + 1
    }
}

/// Index buffer of a ring (annulus) with `segments` segments (at least 16):
/// two triangles per segment over `2 * segs` vertices.
pub fn ring_indices(segments: u32) -> (v: Vec<u32>)
    requires
        6 * ring_segments(segments as int) <= usize::MAX,
        2 * ring_segments(segments as int) <= u32::MAX,
    ensures
        v@.len() == 6 * ring_segments(segments as int),
        forall|k: int| 0 <= k < v@.len() ==> v@[k] == ring_index(ring_segments(segments as int), k),
        forall|k: int| 0 <= k < v@.len() ==> v@[k] < 2 * ring_segments(segments as int),
{
    let segs: u32 = if segments >= 16 { segments } else { 16 };
    let mut indices: Vec<u32> = Vec::new();
    let mut i: u32 = 0;
    while i < segs
        invariant
            16 <= segs,
            segs == ring_segments(segments as int),
            6 * segs <= usize::MAX,
            2 * segs <= u32::MAX,
            i <= segs,
            indices@.len() == 6 * i,
            forall|k: int| 0 <= k < indices@.len() ==> indices@[k] == ring_index(segs as int, k),
        decreases segs - i,
    {
        let i0 = i * 2;
        let i1 = i0 + 1;
        let j0 = ((i + 1) % segs) * 2;
        let j1 = j0 + 1;
        let ghost base = indices@.len();
        indices.push(i0);
        indices.push(j0);
        indices.push(i1);
        indices.push(j0);
        indices.push(j1);
        indices.push(i1);
        assert forall|k: int| 0 <= k < indices@.len() implies indices@[k] == ring_index(segs as int, k) by {
            if k >= base {
                assert(k / 6 == i as int);
                assert(k % 6 == k - base);
            }
        }
        i = i + 1;
    }
    assert forall|k: int| 0 <= k < indices@.len() implies indices@[k] < 2 * segs by {
        let sg = segs as int;
        assert(indices@[k] == ring_index(sg, k));
        assert(0 <= k / 6 < sg) by (nonlinear_arith)
            requires
                0 <= k < 6 * sg,
        ;
        let j = (k / 6 + 1) % sg;
        assert(0 <= j < sg) by (nonlinear_arith)
            requires
                sg > 0,
                j == (k / 6 + 1) % sg,
        ;
    }
    indices
}

/// Entry `k` of a triangle-fan buffer around centre vertex 0 with rim
/// vertices `1..=n`: triangle `t` is (0, t + 1, the next rim vertex), where
/// the last rim vertex wraps back to 1.
pub open spec fn fan_index(n: int, k: int) -> int {
    let t = k / 3 + 1;
    let r = k % 3;
    if r == 0 {
        0
    } else if r == 1 {
        t
    } else if t == n {
        1
    } else {
        t + 1
    }
}

/// Index buffer of a closed triangle fan with `rim` rim vertices (the
/// five-point star uses 10: five tips and five inner corners).
pub fn star_fan_indices(rim: u32) -> (v: Vec<u32>)
    requires
        3 * rim <= usize::MAX,
        rim < u32::MAX,
    ensures
        v@.len() == 3 * rim,
        forall|k: int| 0 <= k < v@.len() ==> v@[k] == fan_index(rim as int, k),
        forall|k: int| 0 <= k < v@.len() ==> v@[k] <= rim,
{
    let mut indices: Vec<u32> = Vec::new();
    let mut i: u32 = 1;
    while i <= rim
        invariant
            1 <= i <= rim + 1,
            rim < u32::MAX,
            3 * rim <= usize::MAX,
            indices@.len() == 3 * (i - 1),
            forall|k: int| 0 <= k < indices@.len() ==> indices@[k] == fan_index(rim as int, k),
        decreases rim + 1 - i,
    {
        let next = if i == rim { 1 } else { i + 1 };
        let ghost base = indices@.len();
        indices.push(0);
        indices.push(i);
        indices.push(next);
        assert forall|k: int| 0 <= k < indices@.len() implies indices@[k] == fan_index(rim as int, k) by {
            if k >= base {
                assert(k / 3 + 1 == i as int);
                assert(k % 3 == k - base);
            }
        }
        i = i + 1;
    }
    assert forall|k: int| 0 <= k < indices@.len() implies indices@[k] <= rim by {
        assert(indices@[k] == fan_index(rim as int, k));
        assert(1 <= k / 3 + 1 <= rim) by (nonlinear_arith)
            requires
                0 <= k < 3 * (rim as int),
        ;
    }
    indices
}

/// Every ring triangle uses three different vertices (no slivers), for any
/// segment count the ring accepts.
pub proof fn law_ring_triangles_nondegenerate(segs: int, t: int)
    requires
        segs >= 16,
        0 <= t < 2 * segs,
    ensures
        ring_index(segs, 3 * t) != ring_index(segs, 3 * t + 1),
        ring_index(segs, 3 * t) != ring_index(segs, 3 * t + 2),
        ring_index(segs, 3 * t + 1) != ring_index(segs, 3 * t + 2),
{
    let i = t / 2;
    assert(0 <= i < segs);
    let j = (i + 1) % segs;
    assert(j != i) by {
        if i + 1 < segs {
            assert(j == i + 1) by (nonlinear_arith)
                requires
                    0 <= i + 1 < segs,
                    j == (i + 1) % segs,
            ;
        } else {
            assert(j == 0) by (nonlinear_arith)
                requires
                    i + 1 == segs,
                    segs > 0,
                    j == (i + 1) % segs,
            ;
        }
    }
    if t % 2 == 0 {
        assert((3 * t) / 6 == i && (3 * t) % 6 == 0);
        assert((3 * t + 1) / 6 == i && (3 * t + 1) % 6 == 1);
        assert((3 * t + 2) / 6 == i && (3 * t + 2) % 6 == 2);
    } else {
        assert((3 * t) / 6 == i && (3 * t) % 6 == 3);
        assert((3 * t + 1) / 6 == i && (3 * t + 1) % 6 == 4);
        assert((3 * t + 2) / 6 == i && (3 * t + 2) % 6 == 5);
    }
}

/// Every fan triangle uses three different vertices once the rim has at
/// least two vertices.
pub proof fn law_fan_triangles_nondegenerate(n: int, t: int)
    requires
        n >= 2,
        0 <= t < n,
    ensures
        fan_index(n, 3 * t) != fan_index(n, 3 * t + 1),
        fan_index(n, 3 * t) != fan_index(n, 3 * t + 2),
        fan_index(n, 3 * t + 1) != fan_index(n, 3 * t + 2),
{
    assert((3 * t) / 3 == t && (3 * t) % 3 == 0);
    assert((3 * t + 1) / 3 == t && (3 * t + 1) % 3 == 1);
    assert((3 * t + 2) / 3 == t && (3 * t + 2) % 3 == 2);
}

} // verus!
