use loop_blinn::controls::{
    gallery_click, gl_config_picker, key_action, window_action, KeyAction, KeyInput, SceneKind, WindowAction, WindowInput,
};
use loop_blinn::edge::EdgeType;
use loop_blinn::gallery::{cell_index, cell_position};
use loop_blinn::interactive::{nearest_hit, InteractiveScene};

fn scene() -> InteractiveScene<(i32, i32)> {
    InteractiveScene::new([(0, 0), (10, 0), (20, 0), (30, 0)])
}

#[test]
fn edge_type_names() {
    assert_eq!(EdgeType::FillAA.name(), "fill (AA)");
    assert_eq!(EdgeType::HairlineAA.name(), "hairline (AA)");
    assert_eq!(EdgeType::FillNoAA.name(), "fill (no AA)");
}

#[test]
fn edge_type_cycle_order() {
    assert_eq!(EdgeType::FillAA.cycle(), EdgeType::HairlineAA);
    assert_eq!(EdgeType::HairlineAA.cycle(), EdgeType::FillNoAA);
    assert_eq!(EdgeType::FillNoAA.cycle(), EdgeType::FillAA);
}

#[test]
fn edge_type_cycle_has_period_three() {
    for e in [EdgeType::FillAA, EdgeType::HairlineAA, EdgeType::FillNoAA] {
        assert_ne!(e.cycle(), e);
        assert_eq!(e.cycle().cycle().cycle(), e);
    }
}

#[test]
fn edge_type_codes() {
    assert_eq!(EdgeType::FillAA.code(), 0);
    assert_eq!(EdgeType::HairlineAA.code(), 1);
    assert_eq!(EdgeType::FillNoAA.code(), 2);
}

#[test]
fn new_scene_draws_hairline_and_drags_nothing() {
    let s = scene();
    assert_eq!(s.edge_type, EdgeType::HairlineAA);
    assert_eq!(s.dragging, None);
    assert_eq!(s.points, [(0, 0), (10, 0), (20, 0), (30, 0)]);
}

#[test]
fn nearest_hit_prefers_the_closest_then_the_first() {
    assert_eq!(nearest_hit([None, None, None, None]), None);
    assert_eq!(nearest_hit([Some(9), Some(3), None, Some(5)]), Some(1));
    assert_eq!(nearest_hit([None, Some(4), Some(4), Some(7)]), Some(1));
    assert_eq!(nearest_hit([None, None, None, Some(0)]), Some(3));
}

#[test]
fn drag_moves_only_the_grabbed_point() {
    let mut s = scene();
    s.on_mouse_down([None, None, Some(2), None]);
    assert_eq!(s.dragging, Some(2));
    s.on_mouse_move((21, 5));
    s.on_mouse_move((25, 7));
    assert_eq!(s.points, [(0, 0), (10, 0), (25, 7), (30, 0)]);
}

#[test]
fn release_ends_the_drag() {
    let mut s = scene();
    s.on_mouse_down([Some(1), None, None, None]);
    s.on_mouse_up();
    assert_eq!(s.dragging, None);
    s.on_mouse_move((100, 100));
    assert_eq!(s.points, [(0, 0), (10, 0), (20, 0), (30, 0)]);
}

#[test]
fn missed_press_moves_nothing() {
    let mut s = scene();
    s.on_mouse_down([None, None, None, None]);
    s.on_mouse_move((5, 5));
    assert_eq!(s.points, [(0, 0), (10, 0), (20, 0), (30, 0)]);
}

#[test]
fn reset_keeps_edge_type() {
    let mut s = scene();
    s.cycle_edge_type();
    assert_eq!(s.edge_type, EdgeType::FillNoAA);
    s.on_mouse_down([Some(0), None, None, None]);
    s.on_mouse_move((-3, -3));
    s.reset([(1, 1), (2, 2), (3, 3), (4, 4)]);
    assert_eq!(s.points, [(1, 1), (2, 2), (3, 3), (4, 4)]);
    assert_eq!(s.edge_type, EdgeType::FillNoAA);
}

#[test]
fn three_cycles_restore_the_edge_type() {
    let mut s = scene();
    s.cycle_edge_type();
    s.cycle_edge_type();
    s.cycle_edge_type();
    assert_eq!(s.edge_type, EdgeType::HairlineAA);
}

#[test]
fn keys_in_the_editor() {
    let i = SceneKind::Interactive;
    assert_eq!(key_action(i, &KeyInput::Escape), KeyAction::Exit);
    assert_eq!(key_action(i, &KeyInput::Tab), KeyAction::ToggleScene);
    assert_eq!(key_action(i, &KeyInput::Character("e".to_string())), KeyAction::CycleEdgeType);
    assert_eq!(key_action(i, &KeyInput::Character("E".to_string())), KeyAction::CycleEdgeType);
    assert_eq!(key_action(i, &KeyInput::Character("r".to_string())), KeyAction::ResetCurve);
    assert_eq!(key_action(i, &KeyInput::Character("R".to_string())), KeyAction::ResetCurve);
    assert_eq!(key_action(i, &KeyInput::Character("x".to_string())), KeyAction::Nothing);
    assert_eq!(key_action(i, &KeyInput::Character("ee".to_string())), KeyAction::Nothing);
    assert_eq!(key_action(i, &KeyInput::Character(String::new())), KeyAction::Nothing);
    assert_eq!(key_action(i, &KeyInput::Other), KeyAction::Nothing);
}

#[test]
fn keys_in_the_gallery() {
    let g = SceneKind::Gallery;
    assert_eq!(key_action(g, &KeyInput::Escape), KeyAction::Exit);
    assert_eq!(key_action(g, &KeyInput::Tab), KeyAction::ToggleScene);
    assert_eq!(key_action(g, &KeyInput::Character("e".to_string())), KeyAction::Nothing);
    assert_eq!(key_action(g, &KeyInput::Character("R".to_string())), KeyAction::Nothing);
}

#[test]
fn tab_switches_scenes() {
    assert_eq!(SceneKind::Interactive.toggled(), SceneKind::Gallery);
    assert_eq!(SceneKind::Gallery.toggled(), SceneKind::Interactive);
    assert_eq!(SceneKind::Gallery.toggled().toggled(), SceneKind::Gallery);
}

#[test]
fn config_with_most_samples_first_wins() {
    assert_eq!(gl_config_picker(&vec![0]), 0);
    assert_eq!(gl_config_picker(&vec![0, 4, 2, 4]), 1);
    assert_eq!(gl_config_picker(&vec![8, 4, 8]), 0);
    assert_eq!(gl_config_picker(&vec![1, 2, 3]), 2);
}

#[test]
fn window_events_in_the_editor() {
    let i = SceneKind::Interactive;
    assert_eq!(window_action(i, &WindowInput::CloseRequested), WindowAction::Exit);
    assert_eq!(
        window_action(i, &WindowInput::Resized { width: 800, height: 600 }),
        WindowAction::Resize { width: 800, height: 600 }
    );
    assert_eq!(window_action(i, &WindowInput::Resized { width: 0, height: 600 }), WindowAction::Nothing);
    assert_eq!(window_action(i, &WindowInput::Resized { width: 800, height: 0 }), WindowAction::Nothing);
    assert_eq!(window_action(i, &WindowInput::CursorMoved), WindowAction::TrackCursor { drag: true });
    assert_eq!(window_action(i, &WindowInput::LeftButtonPressed), WindowAction::PressPoint);
    assert_eq!(window_action(i, &WindowInput::LeftButtonReleased), WindowAction::ReleasePoint);
    assert_eq!(
        window_action(i, &WindowInput::KeyPressed(KeyInput::Character("e".to_string()))),
        WindowAction::Key(KeyAction::CycleEdgeType)
    );
    assert_eq!(window_action(i, &WindowInput::RedrawRequested), WindowAction::Redraw);
    assert_eq!(window_action(i, &WindowInput::Other), WindowAction::Nothing);
}

#[test]
fn window_events_in_the_gallery() {
    let g = SceneKind::Gallery;
    assert_eq!(window_action(g, &WindowInput::CursorMoved), WindowAction::TrackCursor { drag: false });
    assert_eq!(window_action(g, &WindowInput::LeftButtonPressed), WindowAction::OpenCell);
    assert_eq!(window_action(g, &WindowInput::LeftButtonReleased), WindowAction::Nothing);
    assert_eq!(
        window_action(g, &WindowInput::KeyPressed(KeyInput::Tab)),
        WindowAction::Key(KeyAction::ToggleScene)
    );
}

#[test]
fn gallery_click_on_a_preset_opens_the_editor_on_it() {
    for idx in 0..23 {
        let (col, row) = cell_position(idx);
        assert_eq!(gallery_click(cell_index(col, row, 23)), (SceneKind::Interactive, Some(idx)));
    }
}

#[test]
fn gallery_click_beside_the_presets_stays_in_the_gallery() {
    assert_eq!(gallery_click(None), (SceneKind::Gallery, None));
}
