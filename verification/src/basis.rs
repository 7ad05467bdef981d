use vstd::prelude::*;

verus! {

/// The four ways to pick three of the four control points, in the order in
/// which they are compared.
pub open spec fn basis_triple(j: int) -> Seq<usize> {
    if j == 0 {
        seq![0usize, 1, 2]
    } else if j == 1 {
        seq![0usize, 1, 3]
    } else if j == 2 {
        seq![0usize, 2, 3]
    } else {
        seq![1usize, 2, 3]
    }
}

/// `keys[j]` is a greatest key and no later key equals it: the element that
/// a maximum search keeping the last of equal maxima settles on.
pub open spec fn is_last_max(keys: Seq<u32>, j: int) -> bool {
    &&& 0 <= j < keys.len()
    &&& forall|i: int| 0 <= i < keys.len() ==> keys[i] <= keys[j]
    &&& forall|i: int| j < i < keys.len() ==> keys[i] < keys[j]
}

/// Picks the best-conditioned basis of three control points for fitting an
/// affine functional through its control values. `abs_det_keys[j]` orders
/// the absolute determinant of the `j`-th triple (the bit pattern of a
/// non-negative float, whose integer order is the float's total order);
/// the triple with the largest one wins, and of equal ones the last.
pub fn best_basis_triple(abs_det_keys: [u32; 4]) -> (r: [usize; 3])
    ensures
        exists|j: int| is_last_max(abs_det_keys@, j) && r@ == basis_triple(j),
{
    let mut best: usize = 0;
    for i in 1usize..4
        invariant
            best < i,
            forall|m: int| 0 <= m < i ==> abs_det_keys@[m] <= abs_det_keys@[best as int],
            forall|m: int| best < m < i ==> abs_det_keys@[m] < abs_det_keys@[best as int],
    {
        if abs_det_keys[i] >= abs_det_keys[best] {
            best = i;
        }
    }
    let r: [usize; 3] = if best == 0 {
        [0, 1, 2]
    } else if best == 1 {
        [0, 1, 3]
    } else if best == 2 {
        [0, 2, 3]
    } else {
        [1, 2, 3]
    };
    assert(is_last_max(abs_det_keys@, best as int));
    assert(r@ =~= basis_triple(best as int));
    r
}

/// The last maximum is unique, so the chosen triple is determined by the keys.
pub proof fn lemma_last_max_unique(keys: Seq<u32>, j1: int, j2: int)
    requires
        is_last_max(keys, j1),
        is_last_max(keys, j2),
    ensures
        j1 == j2,
{
    if j1 < j2 {
        assert(keys[j2] < keys[j1]);
        assert(keys[j1] <= keys[j2]);
    } else if j2 < j1 {
        assert(keys[j1] < keys[j2]);
        assert(keys[j2] <= keys[j1]);
    }
}

/// Every triple is three distinct control-point indices in increasing order.
pub proof fn lemma_basis_triples_are_distinct_points(j: int)
    requires
        0 <= j < 4,
    ensures
        basis_triple(j).len() == 3,
        basis_triple(j)[0] < basis_triple(j)[1] < basis_triple(j)[2] < 4,
{
}

/// The candidate bases are, in order, points (0,1,2), (0,1,3), (0,2,3) and
/// (1,2,3); the chosen one has a largest key, and no later one ties it.
pub proof fn lemma_basis_choice(keys: Seq<u32>, j: int)
    ensures
        basis_triple(0) == seq![0usize, 1, 2],
        basis_triple(1) == seq![0usize, 1, 3],
        basis_triple(2) == seq![0usize, 2, 3],
        basis_triple(3) == seq![1usize, 2, 3],
        is_last_max(keys, j) ==> (0 <= j < keys.len() && (forall|i: int|
            0 <= i < keys.len() ==> keys[i] <= keys[j]) && (forall|i: int|
            j < i < keys.len() ==> keys[i] < keys[j])),
{
}

} // verus!
