use loop_blinn::chop::loop_chop_plan;
use loop_blinn::fan::fan_indices;
use loop_blinn::gallery::{cell_index, cell_position, rows, COLS};

#[test]
fn rows_round_up() {
    assert_eq!(rows(0), 0);
    assert_eq!(rows(1), 1);
    assert_eq!(rows(5), 1);
    assert_eq!(rows(6), 2);
    assert_eq!(rows(23), 5);
    assert_eq!(rows(25), 5);
}

#[test]
fn cells_fill_row_by_row() {
    assert_eq!(cell_position(0), (0, 0));
    assert_eq!(cell_position(4), (4, 0));
    assert_eq!(cell_position(5), (0, 1));
    assert_eq!(cell_position(22), (2, 4));
}

#[test]
fn clicking_a_drawn_preset_selects_it() {
    for idx in 0..23 {
        let (col, row) = cell_position(idx);
        assert_eq!(cell_index(col, row, 23), Some(idx));
    }
}

#[test]
fn clicks_outside_the_presets_select_nothing() {
    // Past the last preset in the last row.
    assert_eq!(cell_index(3, 4, 23), None);
    assert_eq!(cell_index(4, 4, 23), None);
    // Beyond the columns or the rows.
    assert_eq!(cell_index(COLS, 0, 23), None);
    assert_eq!(cell_index(0, 5, 23), None);
    assert_eq!(cell_index(0, 0, 0), None);
}

#[test]
fn fan_of_a_quad() {
    assert_eq!(fan_indices(4), vec![0, 1, 2, 0, 2, 3]);
}

#[test]
fn fan_of_a_pentagon() {
    assert_eq!(fan_indices(5), vec![0, 1, 2, 0, 2, 3, 0, 3, 4]);
}

#[test]
fn fan_needs_three_vertices() {
    assert!(fan_indices(0).is_empty());
    assert!(fan_indices(2).is_empty());
    assert_eq!(fan_indices(3), vec![0, 1, 2]);
}

#[test]
fn fan_counts_in_sixteen_bits() {
    assert!(fan_indices(65537).is_empty());
    assert!(fan_indices(65538).is_empty());
    assert_eq!(fan_indices(65539), vec![0, 1, 2]);
}

#[test]
fn two_chops_make_tail_loop_tail() {
    let plan = loop_chop_plan(true, true, false, false);
    assert!(plan.chop_smaller && plan.chop_larger);
    assert_eq!(plan.flip, vec![false, true, false]);
}

#[test]
fn one_chop_from_tail_into_loop() {
    // Only the larger parameter is visible and the smaller is negative:
    // the arc starts inside the loop.
    let plan = loop_chop_plan(false, true, true, false);
    assert!(!plan.chop_smaller && plan.chop_larger);
    assert_eq!(plan.flip, vec![true, false]);
}

#[test]
fn one_chop_from_loop_into_tail() {
    let plan = loop_chop_plan(true, false, false, true);
    assert!(plan.chop_smaller && !plan.chop_larger);
    assert_eq!(plan.flip, vec![false, true]);
}

#[test]
fn no_chop_inside_the_loop() {
    let plan = loop_chop_plan(false, false, true, true);
    assert!(!plan.chop_smaller && !plan.chop_larger);
    assert_eq!(plan.flip, vec![true]);
}

#[test]
fn no_chop_no_visible_loop() {
    assert_eq!(loop_chop_plan(false, false, false, false).flip, vec![false]);
    assert_eq!(loop_chop_plan(false, false, true, false).flip, vec![false]);
    assert_eq!(loop_chop_plan(false, false, false, true).flip, vec![false]);
}

#[test]
fn pieces_are_one_more_than_chops_with_at_most_one_flipped() {
    for bits in 0u8..16 {
        let b = |k: u8| bits & (1 << k) != 0;
        let plan = loop_chop_plan(b(0), b(1), b(2), b(3));
        let chops = plan.chop_smaller as usize + plan.chop_larger as usize;
        assert_eq!(plan.flip.len(), chops + 1);
        assert!(plan.flip.iter().filter(|f| **f).count() <= 1);
    }
}
