use vstd::prelude::*;

verus! {

/// Index `k` of the triangle list of a box made of six quads of four
/// vertices each: quad `f` is drawn as triangles (4f, 4f+1, 4f+2) and
/// (4f, 4f+2, 4f+3).
pub open spec fn box_index(k: int) -> int {
    let f: int = k / 6;
    let c: int = k % 6;
    4 * f + if c == 0 || c == 3 {
        0int
    } else if c == 1 {
        1int
    } else if c == 2 || c == 4 {
        2int
    } else {
        3int
    }
}

/// Every face of the box is drawn as two triangles over its own four
/// vertices: each index of face `f` lies in 4f..4f+3, the corners of each
/// triangle are distinct, and together the two triangles use all four
/// vertices, sharing the diagonal from 4f to 4f+2.
pub proof fn box_faces_are_quads(f: int)
    requires
        0 <= f < 6,
    ensures
        forall|j: int|
            0 <= j < 6 ==> 4 * f <= #[trigger] box_index(6 * f + j) < 4 * f + 4,
        box_index(6 * f) != box_index(6 * f + 1) && box_index(6 * f + 1) != box_index(6 * f + 2)
            && box_index(6 * f) != box_index(6 * f + 2),
        box_index(6 * f + 3) != box_index(6 * f + 4) && box_index(6 * f + 4) != box_index(
            6 * f + 5,
        ) && box_index(6 * f + 3) != box_index(6 * f + 5),
        box_index(6 * f) == 4 * f && box_index(6 * f + 3) == 4 * f,
        box_index(6 * f + 2) == 4 * f + 2 && box_index(6 * f + 4) == 4 * f + 2,
        box_index(6 * f + 1) == 4 * f + 1 && box_index(6 * f + 5) == 4 * f + 3,
{
    assert forall|j: int| 0 <= j < 6 implies 4 * f <= #[trigger] box_index(6 * f + j) < 4 * f
        + 4 && box_index(6 * f + j) == 4 * f + box_index(j) by {
        assert((6 * f + j) / 6 == f) by (nonlinear_arith)
            requires
                0 <= j < 6,
        ;
        assert((6 * f + j) % 6 == j) by (nonlinear_arith)
            requires
                0 <= j < 6,
        ;
    }
    assert(box_index(6 * f) == 4 * f + box_index(0));
    assert(box_index(6 * f + 1) == 4 * f + box_index(1));
    assert(box_index(6 * f + 2) == 4 * f + box_index(2));
    assert(box_index(6 * f + 3) == 4 * f + box_index(3));
    assert(box_index(6 * f + 4) == 4 * f + box_index(4));
    assert(box_index(6 * f + 5) == 4 * f + box_index(5));
}

/// The 36 triangle indices of a box whose 24 vertices come as six quads.
pub fn box_indices() -> (r: Vec<u32>)
    ensures
        r@.len() == 36,
        forall|k: int| 0 <= k < 36 ==> r@[k] == box_index(k),
{
    let mut indices: Vec<u32> = Vec::new();
    let mut face: u32 = 0;
    while face < 6
        invariant
            face <= 6,
            indices@.len() == 6 * face,
            forall|k: int| 0 <= k < 6 * face ==> indices@[k] == box_index(k),
        decreases 6 - face,
    {
        let b: u32 = face * 4;
        let ghost n = indices@.len() as int;
        indices.push(b);
        indices.push(b + 1);
        indices.push(b + 2);
        indices.push(b);
        indices.push(b + 2);
        indices.push(b + 3);
        assert forall|k: int| n <= k < n + 6 implies indices@[k] == box_index(k) by {
            assert(k / 6 == face as int) by (nonlinear_arith)
                requires
                    n == 6 * face,
                    n <= k < n + 6,
            ;
            assert(k % 6 == k - n) by (nonlinear_arith)
                requires
                    n == 6 * face,
                    n <= k < n + 6,
            ;
        }
        face = face + 1;
    }
    indices
}

/// The 6 triangle indices of a quad of four vertices.
pub fn quad_indices() -> (r: Vec<u32>)
    ensures
        r@ == seq![0u32, 1, 2, 0, 2, 3],
{
    let r: Vec<u32> = vec![0, 1, 2, 0, 2, 3];
    assert(r@ =~= seq![0u32, 1, 2, 0, 2, 3]);
    r
}

} // verus!
