use vstd::prelude::*;

verus! {

/// Loop-Blinn classification of a cubic Bezier.
#[derive(Clone, Copy, Debug, PartialEq, Eq, Structural)]
pub enum CubicKind {
    Serpentine,
    Loop,
    Cusp,
    Quadratic,
    Line,
    Point,
}

/// The display name of each classification.
pub open spec fn kind_label(k: CubicKind) -> Seq<char> {
    match k {
        CubicKind::Serpentine => "Serpentine"@,
        CubicKind::Loop => "Loop"@,
        CubicKind::Cusp => "Cusp"@,
        CubicKind::Quadratic => "Quadratic"@,
        CubicKind::Line => "Line"@,
        CubicKind::Point => "Point"@,
    }
}

/// A classification has a meaningful implicit curve unless the cubic has
/// collapsed to a line or a point.
pub open spec fn kind_is_renderable(k: CubicKind) -> bool {
    !(k is Line || k is Point)
}

impl CubicKind {
    pub fn name(self) -> (r: &'static str)
        ensures
            r@ == kind_label(self),
    {
        match self {
            CubicKind::Serpentine => "Serpentine",
            CubicKind::Loop => "Loop",
            CubicKind::Cusp => "Cusp",
            CubicKind::Quadratic => "Quadratic",
            CubicKind::Line => "Line",
            CubicKind::Point => "Point",
        }
    }

    /// Whether a curve of this classification gets a coverage fill: lines
    /// and points have no implicit curve to draw.
    pub fn is_renderable(self) -> (r: bool)
        ensures
            r == kind_is_renderable(self),
    {
        match self {
            CubicKind::Line | CubicKind::Point => false,
            _ => true,
        }
    }
}

/// The outcomes of the numeric tests that classify a cubic from its control
/// points and its normalized inflection-polynomial coefficients `d0, d1, d2`:
/// whether the four control points coincide, whether the discriminant
/// `d0^2 (3 d1^2 - 4 d0 d2)` lies above the tolerance or below its negation,
/// and whether each `|d_i|` lies below the tolerance.
#[derive(Clone, Copy, Debug, PartialEq, Eq, Structural)]
pub struct ClassifyTests {
    pub all_points_equal: bool,
    pub discriminant_above: bool,
    pub discriminant_below: bool,
    pub d0_nearly_zero: bool,
    pub d1_nearly_zero: bool,
    pub d2_nearly_zero: bool,
}

/// Classifies a cubic from its test outcomes: coincident points make a
/// point; otherwise a clearly positive discriminant a serpentine, a clearly
/// negative one a loop; a vanishing discriminant with `d0` and `d1` both
/// near zero a quadratic, or a line when `d2` vanishes too; any other
/// vanishing discriminant a cusp.
pub fn classify(t: ClassifyTests) -> (r: CubicKind)
    ensures
        (r == CubicKind::Point) <==> t.all_points_equal,
        (r == CubicKind::Serpentine) <==> (!t.all_points_equal && t.discriminant_above),
        (r == CubicKind::Loop) <==> (!t.all_points_equal && !t.discriminant_above
            && t.discriminant_below),
        (r == CubicKind::Line) <==> (!t.all_points_equal && !t.discriminant_above
            && !t.discriminant_below && t.d0_nearly_zero && t.d1_nearly_zero && t.d2_nearly_zero),
        (r == CubicKind::Quadratic) <==> (!t.all_points_equal && !t.discriminant_above
            && !t.discriminant_below && t.d0_nearly_zero && t.d1_nearly_zero && !t.d2_nearly_zero),
        (r == CubicKind::Cusp) <==> (!t.all_points_equal && !t.discriminant_above
            && !t.discriminant_below && !(t.d0_nearly_zero && t.d1_nearly_zero)),
        kind_is_renderable(r) <==> !(t.all_points_equal || (!t.discriminant_above
            && !t.discriminant_below && t.d0_nearly_zero && t.d1_nearly_zero
            && t.d2_nearly_zero)),
{
    if t.all_points_equal {
        return CubicKind::Point;
    }
    if t.discriminant_above {
        CubicKind::Serpentine
    } else if t.discriminant_below {
        CubicKind::Loop
    } else if t.d0_nearly_zero && t.d1_nearly_zero {
        if t.d2_nearly_zero {
            CubicKind::Line
        } else {
            CubicKind::Quadratic
        }
    } else {
        CubicKind::Cusp
    }
}

/// Which closed-form control values give a classified cubic its K, L, M
/// functionals.
#[derive(Clone, Copy, Debug, PartialEq, Eq, Structural)]
pub enum KlmFormula {
    Serpentine,
    Loop,
    Cusp,
    Quadratic,
    /// Lines and points: all three functionals are zero.
    Degenerate,
}

/// The formula used for each classification. A cusp whose `|d0|` lies
/// beyond the cusp tolerance is not the `d0 == 0` case that the cusp
/// formula assumes, and takes the serpentine formula, which also holds there.
pub open spec fn formula_for(kind: CubicKind, d0_beyond_cusp_epsilon: bool) -> KlmFormula {
    match kind {
        CubicKind::Serpentine => KlmFormula::Serpentine,
        CubicKind::Cusp => if d0_beyond_cusp_epsilon {
            KlmFormula::Serpentine
        } else {
            KlmFormula::Cusp
        },
        CubicKind::Loop => KlmFormula::Loop,
        CubicKind::Quadratic => KlmFormula::Quadratic,
        CubicKind::Line | CubicKind::Point => KlmFormula::Degenerate,
    }
}

pub fn klm_formula(kind: CubicKind, d0_beyond_cusp_epsilon: bool) -> (r: KlmFormula)
    ensures
        r == formula_for(kind, d0_beyond_cusp_epsilon),
{
    match kind {
        CubicKind::Serpentine => KlmFormula::Serpentine,
        CubicKind::Cusp => {
            if d0_beyond_cusp_epsilon {
                KlmFormula::Serpentine
            } else {
                KlmFormula::Cusp
            }
        },
        CubicKind::Loop => KlmFormula::Loop,
        CubicKind::Quadratic => KlmFormula::Quadratic,
        CubicKind::Line | CubicKind::Point => KlmFormula::Degenerate,
    }
}

/// A classification gets no implicit form exactly when it is not renderable:
/// every renderable kind has a formula, and lines and points have none.
pub proof fn lemma_formula_degenerate_iff_not_renderable(kind: CubicKind, beyond: bool)
    ensures
        (formula_for(kind, beyond) == KlmFormula::Degenerate) <==> !kind_is_renderable(kind),
{
}

/// The dedicated cusp formula is only ever taken for a cusp whose `d0`
/// lies within the cusp tolerance.
pub proof fn lemma_cusp_formula_only_near_exact_cusp(kind: CubicKind, beyond: bool)
    ensures
        formula_for(kind, beyond) == KlmFormula::Cusp ==> (kind == CubicKind::Cusp && !beyond),
{
}

/// The cusp flag only matters for a cusp: every other kind takes the same
/// formula whichever way the flag is set.
pub proof fn lemma_formula_ignores_flag_except_for_cusp(kind: CubicKind)
    ensures
        kind != CubicKind::Cusp ==> formula_for(kind, true) == formula_for(kind, false),
        formula_for(CubicKind::Cusp, true) != formula_for(CubicKind::Cusp, false),
{
}

/// Serpentines, loops and quadratics take their own formula, whatever the
/// cusp flag; a cusp takes the cusp formula only within the cusp tolerance
/// and the serpentine formula beyond it; lines and points take none.
pub proof fn lemma_formula_follows_kind(beyond: bool)
    ensures
        formula_for(CubicKind::Serpentine, beyond) == KlmFormula::Serpentine,
        formula_for(CubicKind::Loop, beyond) == KlmFormula::Loop,
        formula_for(CubicKind::Quadratic, beyond) == KlmFormula::Quadratic,
        formula_for(CubicKind::Cusp, true) == KlmFormula::Serpentine,
        formula_for(CubicKind::Cusp, false) == KlmFormula::Cusp,
        formula_for(CubicKind::Line, beyond) == KlmFormula::Degenerate,
        formula_for(CubicKind::Point, beyond) == KlmFormula::Degenerate,
{
}

/// Only a serpentine or a numeric cusp takes the serpentine formula, and the
/// loop formula is taken by loops alone.
pub proof fn lemma_formula_sources(kind: CubicKind, beyond: bool)
    ensures
        formula_for(kind, beyond) == KlmFormula::Serpentine ==> (kind == CubicKind::Serpentine || (
        kind == CubicKind::Cusp && beyond)),
        formula_for(kind, beyond) == KlmFormula::Loop ==> kind == CubicKind::Loop,
        formula_for(kind, beyond) == KlmFormula::Quadratic ==> kind == CubicKind::Quadratic,
{
}

/// Each classification's name reads as its kind: the names are
/// "Serpentine", "Loop", "Cusp", "Quadratic", "Line" and "Point".
pub proof fn lemma_kind_labels_spell_the_kind()
    ensures
        kind_label(CubicKind::Serpentine) == seq!['S', 'e', 'r', 'p', 'e', 'n', 't', 'i', 'n', 'e'],
        kind_label(CubicKind::Loop) == seq!['L', 'o', 'o', 'p'],
        kind_label(CubicKind::Cusp) == seq!['C', 'u', 's', 'p'],
        kind_label(CubicKind::Quadratic) == seq!['Q', 'u', 'a', 'd', 'r', 'a', 't', 'i', 'c'],
        kind_label(CubicKind::Line) == seq!['L', 'i', 'n', 'e'],
        kind_label(CubicKind::Point) == seq!['P', 'o', 'i', 'n', 't'],
{
    reveal_strlit("Serpentine");
    reveal_strlit("Loop");
    reveal_strlit("Cusp");
    reveal_strlit("Quadratic");
    reveal_strlit("Line");
    reveal_strlit("Point");
}

/// Distinct classifications have distinct names.
pub proof fn lemma_kind_labels_distinct(a: CubicKind, b: CubicKind)
    requires
        a != b,
    ensures
        kind_label(a) != kind_label(b),
{
    reveal_strlit("Serpentine");
    reveal_strlit("Loop");
    reveal_strlit("Cusp");
    reveal_strlit("Quadratic");
    reveal_strlit("Line");
    reveal_strlit("Point");
    assert(kind_label(a).len() != kind_label(b).len() || kind_label(a)[0] != kind_label(b)[0]
        || kind_label(a)[1] != kind_label(b)[1]);
}

} // verus!
