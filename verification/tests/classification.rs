use loop_blinn::basis::best_basis_triple;
use loop_blinn::kind::{classify, klm_formula, ClassifyTests, CubicKind, KlmFormula};

fn tests(
    all_points_equal: bool,
    discriminant_above: bool,
    discriminant_below: bool,
    d0_nearly_zero: bool,
    d1_nearly_zero: bool,
    d2_nearly_zero: bool,
) -> ClassifyTests {
    ClassifyTests {
        all_points_equal,
        discriminant_above,
        discriminant_below,
        d0_nearly_zero,
        d1_nearly_zero,
        d2_nearly_zero,
    }
}

#[test]
fn kind_names() {
    assert_eq!(CubicKind::Serpentine.name(), "Serpentine");
    assert_eq!(CubicKind::Loop.name(), "Loop");
    assert_eq!(CubicKind::Cusp.name(), "Cusp");
    assert_eq!(CubicKind::Quadratic.name(), "Quadratic");
    assert_eq!(CubicKind::Line.name(), "Line");
    assert_eq!(CubicKind::Point.name(), "Point");
}

#[test]
fn only_lines_and_points_are_not_renderable() {
    assert!(CubicKind::Serpentine.is_renderable());
    assert!(CubicKind::Loop.is_renderable());
    assert!(CubicKind::Cusp.is_renderable());
    assert!(CubicKind::Quadratic.is_renderable());
    assert!(!CubicKind::Line.is_renderable());
    assert!(!CubicKind::Point.is_renderable());
}

#[test]
fn coincident_points_classify_as_point_whatever_the_rest() {
    assert_eq!(classify(tests(true, true, false, false, false, false)), CubicKind::Point);
    assert_eq!(classify(tests(true, false, true, true, true, true)), CubicKind::Point);
}

#[test]
fn discriminant_sign_decides_serpentine_and_loop() {
    assert_eq!(classify(tests(false, true, false, false, false, false)), CubicKind::Serpentine);
    assert_eq!(classify(tests(false, false, true, false, false, false)), CubicKind::Loop);
    // A positive discriminant is tested first.
    assert_eq!(classify(tests(false, true, true, true, true, true)), CubicKind::Serpentine);
}

#[test]
fn vanishing_discriminant_cases() {
    assert_eq!(classify(tests(false, false, false, true, true, true)), CubicKind::Line);
    assert_eq!(classify(tests(false, false, false, true, true, false)), CubicKind::Quadratic);
    assert_eq!(classify(tests(false, false, false, true, false, true)), CubicKind::Cusp);
    assert_eq!(classify(tests(false, false, false, false, true, true)), CubicKind::Cusp);
    assert_eq!(classify(tests(false, false, false, false, false, false)), CubicKind::Cusp);
}

#[test]
fn formula_per_kind() {
    assert_eq!(klm_formula(CubicKind::Serpentine, false), KlmFormula::Serpentine);
    assert_eq!(klm_formula(CubicKind::Loop, true), KlmFormula::Loop);
    assert_eq!(klm_formula(CubicKind::Quadratic, false), KlmFormula::Quadratic);
    assert_eq!(klm_formula(CubicKind::Line, false), KlmFormula::Degenerate);
    assert_eq!(klm_formula(CubicKind::Point, true), KlmFormula::Degenerate);
}

#[test]
fn numeric_cusp_takes_the_serpentine_formula() {
    assert_eq!(klm_formula(CubicKind::Cusp, true), KlmFormula::Serpentine);
    assert_eq!(klm_formula(CubicKind::Cusp, false), KlmFormula::Cusp);
}

#[test]
fn degenerate_formula_exactly_for_unrenderable_kinds() {
    let kinds = [
        CubicKind::Serpentine,
        CubicKind::Loop,
        CubicKind::Cusp,
        CubicKind::Quadratic,
        CubicKind::Line,
        CubicKind::Point,
    ];
    for kind in kinds {
        for beyond in [false, true] {
            assert_eq!(klm_formula(kind, beyond) == KlmFormula::Degenerate, !kind.is_renderable());
        }
    }
}

#[test]
fn best_basis_is_the_largest_determinant() {
    assert_eq!(best_basis_triple([5, 1, 2, 3]), [0, 1, 2]);
    assert_eq!(best_basis_triple([1, 9, 2, 3]), [0, 1, 3]);
    assert_eq!(best_basis_triple([1, 2, 30, 3]), [0, 2, 3]);
    assert_eq!(best_basis_triple([1, 2, 3, 4]), [1, 2, 3]);
}

#[test]
fn best_basis_ties_go_to_the_last() {
    assert_eq!(best_basis_triple([7, 7, 1, 1]), [0, 1, 3]);
    assert_eq!(best_basis_triple([4, 4, 4, 4]), [1, 2, 3]);
    assert_eq!(best_basis_triple([0, 0, 0, 0]), [1, 2, 3]);
}

#[test]
fn best_basis_from_float_determinants() {
    // Control points P0 == P1 (an exact cusp at the start): the triples
    // holding both P0 and P1 are singular.
    let p: [[f32; 2]; 4] = [[0.1, 0.5], [0.1, 0.5], [0.7, 0.1], [0.9, 0.5]];
    let det = |i: usize, j: usize, k: usize| {
        let (a, b, c) = (p[i], p[j], p[k]);
        (a[0] * (b[1] - c[1]) + b[0] * (c[1] - a[1]) + c[0] * (a[1] - b[1])).abs()
    };
    let keys = [det(0, 1, 2).to_bits(), det(0, 1, 3).to_bits(), det(0, 2, 3).to_bits(), det(1, 2, 3).to_bits()];
    // Triples (0,2,3) and (1,2,3) are the same points and tie; the later wins.
    assert_eq!(best_basis_triple(keys), [1, 2, 3]);
}
