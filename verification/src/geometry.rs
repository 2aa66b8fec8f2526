//! The triangle fan that draws one particle as a filled disc.
//!
//! The disc is a centre vertex (index 0) followed by `segments` rim vertices
//! (indices `1..=segments`). Triangle `i` joins the centre, rim vertex `i + 1`
//! and the next rim vertex, wrapping from the last rim vertex back to the first.
use vstd::prelude::*;

verus! {

/// Number of rim vertices of the particle disc.
pub const CIRCLE_SEGMENTS: u16 = 120;

/// Third corner of fan triangle `i` for a disc of `n` rim vertices.
pub open spec fn fan_third_corner(n: nat, i: nat) -> nat {
    if i + 1 < n {
        i + 2
    } else {
        1
    }
}

/// Index at position `k` of the fan's index buffer.
pub open spec fn fan_index(n: nat, k: nat) -> nat {
    let tri = k / 3;
    if k % 3 == 0 {
        0
    } else if k % 3 == 1 {
        tri + 1
    } else {
        fan_third_corner(n, tri)
    }
}

/// The whole index buffer of a fan with `n` rim vertices: three indices per triangle.
pub open spec fn spec_circle_fan(n: nat) -> Seq<u16> {
    Seq::new(3 * n, |k: int| fan_index(n, k as nat) as u16)
}

/// Builds the index buffer of a triangle fan with `segments` rim vertices.
pub fn circle_fan_indices(segments: u16) -> (indices: Vec<u16>)
    ensures
        indices@ == spec_circle_fan(segments as nat),
        indices@.len() == 3 * segments,
        forall|i: int|
            0 <= i < segments ==> {
                &&& #[trigger] indices@[3 * i] == 0
                &&& indices@[3 * i + 1] == i + 1
                &&& indices@[3 * i + 2] == fan_third_corner(segments as nat, i as nat)
            },
{
    let mut indices: Vec<u16> = Vec::new();
    let mut i: u16 = 0;
    while i < segments
        invariant
            i <= segments,
            indices@.len() == 3 * i,
            forall|j: int|
                0 <= j < i ==> {
                    &&& #[trigger] indices@[3 * j] == 0
                    &&& indices@[3 * j + 1] == j + 1
                    &&& indices@[3 * j + 2] == fan_third_corner(segments as nat, j as nat)
                },
        decreases segments - i,
    {
        let ghost before = indices@;
        indices.push(0);
        indices.push(i + 1);
        if i != segments - 1 {
            indices.push(i + 2);
        } else {
            indices.push(1);
        }
        assert forall|j: int| 0 <= j < i + 1 implies {
            &&& #[trigger] indices@[3 * j] == 0
            &&& indices@[3 * j + 1] == j + 1
            &&& indices@[3 * j + 2] == fan_third_corner(segments as nat, j as nat)
        } by {
            if j < i {
                assert(indices@[3 * j] == before[3 * j]);
                assert(indices@[3 * j + 1] == before[3 * j + 1]);
                assert(indices@[3 * j + 2] == before[3 * j + 2]);
            }
        }
        i = i + 1;
    }
    proof {
        let n = segments as nat;
        assert forall|k: int| 0 <= k < 3 * n implies indices@[k] == spec_circle_fan(n)[k] by {
            let t = k / 3;
            assert(0 <= t < n);
            assert(k == 3 * t + k % 3);
            assert(#[trigger] indices@[3 * t] == 0);
        }
        assert(indices@ =~= spec_circle_fan(n));
    }
    indices
}

/// Number of indices drawn for one disc, as the draw call counts them.
pub fn circle_index_count(segments: u16) -> (count: u32)
    requires
        3 * segments <= u16::MAX,
    ensures
        count == 3 * segments,
        count == spec_circle_fan(segments as nat).len(),
{
    let n: u16 = segments * 3;
    n as u32
}

/// Every index of the fan names a vertex of the disc: the centre (0) or one
/// of the `n` rim vertices (`1..=n`).
pub proof fn lemma_fan_indices_within_disc(n: nat)
    requires
        n <= u16::MAX,
    ensures
        forall|k: int| 0 <= k < spec_circle_fan(n).len() ==> #[trigger] spec_circle_fan(n)[k] <= n,
{
    assert forall|k: int| 0 <= k < spec_circle_fan(n).len() implies #[trigger] spec_circle_fan(n)[k] <= n by {
        let t = k / 3;
        assert(0 <= t < n);
        assert(fan_index(n, k as nat) <= n);
    }
}

/// Triangle `i` of the fan is (centre, rim vertex `i + 1`, next rim vertex),
/// and its third corner is the second corner of the following triangle, the
/// last triangle closing the disc on the first rim vertex.
pub proof fn lemma_fan_is_closed(n: nat)
    requires
        1 <= n <= u16::MAX,
    ensures
        forall|i: int|
            0 <= i < n ==> {
                &&& #[trigger] spec_circle_fan(n)[3 * i] == 0
                &&& spec_circle_fan(n)[3 * i + 1] == i + 1
            },
        forall|i: int|
            0 <= i < n - 1 ==> #[trigger] spec_circle_fan(n)[3 * i + 2] == spec_circle_fan(n)[3 * (i + 1) + 1],
        spec_circle_fan(n)[3 * (n - 1) + 2] == spec_circle_fan(n)[1],
{
    assert forall|i: int| 0 <= i < n implies {
        &&& #[trigger] spec_circle_fan(n)[3 * i] == 0
        &&& spec_circle_fan(n)[3 * i + 1] == i + 1
    } by {
        assert((3 * i) / 3 == i && (3 * i) % 3 == 0);
        assert((3 * i + 1) / 3 == i && (3 * i + 1) % 3 == 1);
    }
    assert forall|i: int| 0 <= i < n - 1 implies #[trigger] spec_circle_fan(n)[3 * i + 2] == spec_circle_fan(n)[3 * (i + 1) + 1] by {
        assert((3 * i + 2) / 3 == i && (3 * i + 2) % 3 == 2);
        assert((3 * (i + 1) + 1) / 3 == i + 1 && (3 * (i + 1) + 1) % 3 == 1);
    }
    let l = 3 * (n - 1) + 2;
    assert(l / 3 == n - 1 && l % 3 == 2);
    assert(1int / 3 == 0 && 1int % 3 == 1);
}

/// Every rim vertex `v` is shared by exactly the two triangles that meet at it:
/// it is the second corner of triangle `v - 1` and the third corner of the
/// triangle before that, wrapping around the disc.
pub proof fn lemma_fan_rim_vertex_shared(n: nat, v: nat)
    requires
        1 <= v <= n <= u16::MAX,
    ensures
        spec_circle_fan(n)[3 * (v - 1) + 1] == v,
        spec_circle_fan(n)[3 * (if v >= 2 { v - 2 } else { n - 1 }) + 2] == v,
{
    let a = 3 * (v - 1) + 1;
    assert(a / 3 == v - 1 && a % 3 == 1);
    let t: int = if v >= 2 { v - 2 } else { n - 1 };
    let b = 3 * t + 2;
    assert(b / 3 == t && b % 3 == 2);
}

} // verus!
