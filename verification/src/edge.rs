use vstd::prelude::*;

verus! {

/// Screen-space fill/stroke coverage for a single cubic, after the edge
/// types of a cubic coverage effect.
#[derive(Clone, Copy, Debug, PartialEq, Eq, Structural)]
pub enum EdgeType {
    FillAA,
    HairlineAA,
    FillNoAA,
}

/// The label shown for each edge type.
pub open spec fn edge_type_label(e: EdgeType) -> Seq<char> {
    match e {
        EdgeType::FillAA => "fill (AA)"@,
        EdgeType::HairlineAA => "hairline (AA)"@,
        EdgeType::FillNoAA => "fill (no AA)"@,
    }
}

/// The rotation fill (AA) -> hairline (AA) -> fill (no AA) -> fill (AA).
pub open spec fn edge_type_next(e: EdgeType) -> EdgeType {
    match e {
        EdgeType::FillAA => EdgeType::HairlineAA,
        EdgeType::HairlineAA => EdgeType::FillNoAA,
        EdgeType::FillNoAA => EdgeType::FillAA,
    }
}

/// The number by which the coverage shader tells the edge types apart.
pub open spec fn edge_type_code(e: EdgeType) -> i32 {
    match e {
        EdgeType::FillAA => 0,
        EdgeType::HairlineAA => 1,
        EdgeType::FillNoAA => 2,
    }
}

impl EdgeType {
    pub fn name(self) -> (r: &'static str)
        ensures
            r@ == edge_type_label(self),
    {
        match self {
            EdgeType::FillAA => "fill (AA)",
            EdgeType::HairlineAA => "hairline (AA)",
            EdgeType::FillNoAA => "fill (no AA)",
        }
    }

    pub fn cycle(self) -> (r: EdgeType)
        ensures
            r == edge_type_next(self),
    {
        match self {
            EdgeType::FillAA => EdgeType::HairlineAA,
            EdgeType::HairlineAA => EdgeType::FillNoAA,
            EdgeType::FillNoAA => EdgeType::FillAA,
        }
    }

    /// The shader's number for this edge type.
    pub fn code(self) -> (r: i32)
        ensures
            r == edge_type_code(self),
    {
        match self {
            EdgeType::FillAA => 0,
            EdgeType::HairlineAA => 1,
            EdgeType::FillNoAA => 2,
        }
    }
}

/// Cycling the edge type three times comes back to where it started, and
/// every single step changes it: the rotation visits all three types.
pub proof fn lemma_cycle_has_period_three(e: EdgeType)
    ensures
        edge_type_next(edge_type_next(edge_type_next(e))) == e,
        edge_type_next(e) != e,
        edge_type_next(edge_type_next(e)) != e,
{
}

/// Distinct edge types have distinct labels and distinct shader numbers.
pub proof fn lemma_labels_and_codes_distinct(a: EdgeType, b: EdgeType)
    requires
        a != b,
    ensures
        edge_type_label(a) != edge_type_label(b),
        edge_type_code(a) != edge_type_code(b),
{
    reveal_strlit("fill (AA)");
    reveal_strlit("hairline (AA)");
    reveal_strlit("fill (no AA)");
    assert(edge_type_label(a).len() != edge_type_label(b).len() || edge_type_label(a)[5] != edge_type_label(b)[5]);
}

/// The rotation goes fill (AA) -> hairline (AA) -> fill (no AA) -> fill
/// (AA), and the shader numbers count along it from 0: each step adds one,
/// modulo three.
pub proof fn lemma_cycle_order_and_codes(e: EdgeType)
    ensures
        edge_type_next(EdgeType::FillAA) == EdgeType::HairlineAA,
        edge_type_next(EdgeType::HairlineAA) == EdgeType::FillNoAA,
        edge_type_next(EdgeType::FillNoAA) == EdgeType::FillAA,
        edge_type_code(EdgeType::FillAA) == 0,
        0 <= edge_type_code(e) < 3,
        edge_type_code(edge_type_next(e)) == (edge_type_code(e) + 1) % 3,
{
}

/// The labels name the edge types: "fill (AA)", "hairline (AA)" and
/// "fill (no AA)".
pub proof fn lemma_labels_spell_the_edge_type()
    ensures
        edge_type_label(EdgeType::FillAA) == seq!['f', 'i', 'l', 'l', ' ', '(', 'A', 'A', ')'],
        edge_type_label(EdgeType::HairlineAA) == seq![
            'h', 'a', 'i', 'r', 'l', 'i', 'n', 'e', ' ', '(', 'A', 'A', ')'
        ],
        edge_type_label(EdgeType::FillNoAA) == seq![
            'f', 'i', 'l', 'l', ' ', '(', 'n', 'o', ' ', 'A', 'A', ')'
        ],
{
    reveal_strlit("fill (AA)");
    reveal_strlit("hairline (AA)");
    reveal_strlit("fill (no AA)");
}

} // verus!
