use vstd::prelude::*;

verus! {

/// How a loop-classified cubic is split at its self-intersection: which of
/// the two self-intersection parameters (the smaller and the larger) become
/// chop points, and, for each resulting piece in order, whether its K and L
/// functionals take the loop-side sign (`true`) or are kept as fitted.
pub struct LoopChopPlan {
    pub chop_smaller: bool,
    pub chop_larger: bool,
    pub flip: Vec<bool>,
}

/// The number of chop points a plan makes.
pub open spec fn chop_count(chop_smaller: bool, chop_larger: bool) -> nat {
    (if chop_smaller { 1nat } else { 0nat }) + (if chop_larger { 1nat } else { 0nat })
}

/// The loop side of the curve: with both parameters inside `(0, 1)` it is
/// the middle piece; with one inside, the piece before it when the smaller
/// parameter is negative and the piece after it otherwise; with neither
/// inside, the single piece is on the loop side exactly when the two
/// parameters straddle `[0, 1]`.
pub open spec fn loop_piece_flips(
    smaller_in_range: bool,
    larger_in_range: bool,
    smaller_negative: bool,
    larger_above_one: bool,
) -> Seq<bool> {
    let n = chop_count(smaller_in_range, larger_in_range);
    if n == 2 {
        seq![false, true, false]
    } else if n == 1 {
        if smaller_negative {
            seq![true, false]
        } else {
            seq![false, true]
        }
    } else {
        seq![smaller_negative && larger_above_one]
    }
}

/// Plans the split of a loop cubic from the positions of its two
/// self-intersection parameters `s <= l`: `smaller_in_range` is `0 < s < 1`,
/// `larger_in_range` is `0 < l < 1`, `smaller_negative` is `s < 0` and
/// `larger_above_one` is `l > 1`.
pub fn loop_chop_plan(
    smaller_in_range: bool,
    larger_in_range: bool,
    smaller_negative: bool,
    larger_above_one: bool,
) -> (r: LoopChopPlan)
    ensures
        r.chop_smaller == smaller_in_range,
        r.chop_larger == larger_in_range,
        r.flip@ == loop_piece_flips(
            smaller_in_range,
            larger_in_range,
            smaller_negative,
            larger_above_one,
        ),
{
    let n: usize = (if smaller_in_range { 1 } else { 0 }) + (if larger_in_range { 1 } else { 0 });
    let flip: Vec<bool> = if n == 2 {
        vec![false, true, false]
    } else if n == 1 {
        if smaller_negative {
            vec![true, false]
        } else {
            vec![false, true]
        }
    } else {
        vec![smaller_negative && larger_above_one]
    };
    assert(flip@ =~= loop_piece_flips(
        smaller_in_range,
        larger_in_range,
        smaller_negative,
        larger_above_one,
    ));
    LoopChopPlan { chop_smaller: smaller_in_range, chop_larger: larger_in_range, flip }
}

/// Chopping at `n` points makes `n + 1` pieces, and at most one of them is
/// on the loop side.
pub proof fn lemma_plan_pieces(a: bool, b: bool, c: bool, d: bool)
    ensures
        loop_piece_flips(a, b, c, d).len() == chop_count(a, b) + 1,
        forall|i: int, j: int|
            0 <= i < loop_piece_flips(a, b, c, d).len() && 0 <= j < loop_piece_flips(
                a,
                b,
                c,
                d,
            ).len() && loop_piece_flips(a, b, c, d)[i] && loop_piece_flips(a, b, c, d)[j] ==> i
                == j,
{
}

/// With both parameters inside the visible range, the closed loop is the
/// middle of three pieces and the two tails keep their fitted sign.
pub proof fn lemma_two_chops_flip_the_middle(c: bool, d: bool)
    ensures
        loop_piece_flips(true, true, c, d) == seq![false, true, false],
{
}

/// The loop side among the pieces: with one chop, the first piece when the
/// smaller parameter is negative (the arc starts inside the loop) and the
/// second otherwise; with no chop, the single piece exactly when the two
/// parameters straddle the visible range.
pub proof fn lemma_loop_side(c: bool, d: bool)
    ensures
        loop_piece_flips(false, true, true, d) == seq![true, false],
        loop_piece_flips(false, true, false, d) == seq![false, true],
        loop_piece_flips(true, false, false, d) == seq![false, true],
        loop_piece_flips(false, false, c, d) == seq![c && d],
        chop_count(true, true) == 2,
        chop_count(true, false) == 1,
        chop_count(false, true) == 1,
        chop_count(false, false) == 0,
{
}

} // verus!
