use depths::drag::{
    click_end_drag_system, click_start_drag_system, DragState, Draggable,
};
use depths::geom::{Vec2I, UNIT};
use depths::hover::{check_hover_system, Hoverable, HoveredEvent};

fn v(x: i64, y: i64) -> Vec2I {
    Vec2I { x, y }
}

/// A hoverable square of `side` world units centered at `(x, y)` world
/// units, with unit scale.
fn square(entity: u64, x: i64, y: i64, side: i64) -> Hoverable {
    Hoverable {
        entity,
        translation: v(x * UNIT, y * UNIT),
        scale: v(UNIT, UNIT),
        size: Some(v(side * UNIT, side * UNIT)),
    }
}

#[test]
fn hover_reports_containing_entities() {
    let hs = vec![square(1, 0, 0, 2), square(2, 10, 10, 2), square(3, 0, 0, 4)];
    let events = check_hover_system(Some(v(0, 0)), &hs);
    // overlapping hoverables all fire, in entity order
    assert_eq!(events, vec![HoveredEvent { entity: 1 }, HoveredEvent { entity: 3 }]);
}

#[test]
fn hover_without_cursor_reports_nothing() {
    let hs = vec![square(1, 0, 0, 2)];
    let events = check_hover_system(None, &hs);
    assert!(events.is_empty());
}

#[test]
fn hover_twice_identical() {
    // Two passes in one frame over unchanged inputs report identical events.
    let hs = vec![square(1, 0, 0, 2), square(2, 1, 1, 2), square(3, -4, 0, 2)];
    let cursor = Some(v(500, 250));
    let first_pass = check_hover_system(cursor, &hs);
    let second_pass = check_hover_system(cursor, &hs);
    assert_eq!(first_pass, second_pass);
}

#[test]
fn hover_boundary_is_closed() {
    // A 2x2-unit square at the origin spans [-1000, 1000] on each axis; a
    // cursor exactly on the edge still counts as hovered.
    let hs = vec![square(1, 0, 0, 2)];
    assert_eq!(check_hover_system(Some(v(1000, 0)), &hs).len(), 1);
    assert_eq!(check_hover_system(Some(v(-1000, 1000)), &hs).len(), 1);
    // one step outside does not
    assert!(check_hover_system(Some(v(1001, 0)), &hs).is_empty());
}

#[test]
fn hover_default_size_is_unit_square() {
    // With no declared size the box is one world unit: half extent 500.
    let h = Hoverable { entity: 9, translation: v(0, 0), scale: v(UNIT, UNIT), size: None };
    let hs = vec![h];
    assert_eq!(check_hover_system(Some(v(500, -500)), &hs).len(), 1);
    assert!(check_hover_system(Some(v(501, 0)), &hs).is_empty());
}

#[test]
fn mirrored_sprite_is_never_hovered() {
    // A negative scale inverts the box, which then contains nothing — not
    // even its own center.
    let mut h = square(5, 0, 0, 2);
    h.scale = v(-UNIT, UNIT);
    let hs = vec![h];
    assert!(check_hover_system(Some(v(0, 0)), &hs).is_empty());
}

#[test]
fn hover_scale_stretches_box() {
    // A 2-unit square at double scale spans two units each way.
    let mut h = square(4, 0, 0, 2);
    h.scale = v(2 * UNIT, UNIT);
    let hs = vec![h];
    assert_eq!(check_hover_system(Some(v(2000, 0)), &hs).len(), 1);
    assert!(check_hover_system(Some(v(2001, 0)), &hs).is_empty());
}

#[test]
fn press_grabs_hovered_draggable() {
    let mut state = DragState::idle();
    let events = vec![HoveredEvent { entity: 7 }];
    let draggables = vec![Draggable { entity: 7 }];
    click_start_drag_system(true, Some(v(10, 20)), &events, &draggables, &mut state);
    assert_eq!(state.active_entity, Some(7));
    assert_eq!(state.drag_start, Some(v(10, 20)));
}

#[test]
fn press_last_draggable_wins() {
    let mut state = DragState::idle();
    let events = vec![
        HoveredEvent { entity: 7 },
        HoveredEvent { entity: 8 },
        HoveredEvent { entity: 9 },
    ];
    let draggables = vec![Draggable { entity: 7 }, Draggable { entity: 8 }];
    click_start_drag_system(true, Some(v(0, 0)), &events, &draggables, &mut state);
    // entity 9 is hovered but not draggable; of 7 and 8 the later one wins
    assert_eq!(state.active_entity, Some(8));
}

#[test]
fn press_without_hover_stays_idle() {
    // A press with no hover report this frame starts nothing.
    let mut state = DragState::idle();
    let events: Vec<HoveredEvent> = Vec::new();
    let draggables = vec![Draggable { entity: 7 }];
    click_start_drag_system(true, Some(v(0, 0)), &events, &draggables, &mut state);
    assert_eq!(state.active_entity, None);
    assert_eq!(state.drag_start, None);
    // and a later release with no active entity emits no event
    let ev = click_end_drag_system(true, Some(v(5, 5)), &mut state);
    assert!(ev.is_none());
    assert_eq!(state.active_entity, None);
}

#[test]
fn press_without_draggable_hover_stays_idle() {
    let mut state = DragState::idle();
    let events = vec![HoveredEvent { entity: 9 }];
    let draggables = vec![Draggable { entity: 7 }];
    click_start_drag_system(true, Some(v(0, 0)), &events, &draggables, &mut state);
    assert_eq!(state.active_entity, None);
}

#[test]
fn no_press_changes_nothing() {
    let mut state = DragState::idle();
    let events = vec![HoveredEvent { entity: 7 }];
    let draggables = vec![Draggable { entity: 7 }];
    click_start_drag_system(false, Some(v(0, 0)), &events, &draggables, &mut state);
    assert_eq!(state.active_entity, None);
}

#[test]
fn press_without_cursor_changes_nothing() {
    let mut state = DragState::idle();
    let events = vec![HoveredEvent { entity: 7 }];
    let draggables = vec![Draggable { entity: 7 }];
    click_start_drag_system(true, None, &events, &draggables, &mut state);
    assert_eq!(state.active_entity, None);
}

#[test]
fn release_emits_displacement() {
    let mut state = DragState { active_entity: Some(7), drag_start: Some(v(100, 200)) };
    let ev = click_end_drag_system(true, Some(v(400, 600)), &mut state);
    let ev = ev.expect("an active drag released under a resolved cursor must emit");
    assert_eq!(ev.entity, 7);
    assert_eq!(ev.start_position, v(100, 200));
    assert_eq!(ev.end_position, v(400, 600));
    assert_eq!(ev.delta, v(300, 400));
    assert_eq!(state.active_entity, None);
    assert_eq!(state.drag_start, None);
}

#[test]
fn release_without_cursor_ends_silently() {
    // Losing the window or camera ends the drag with no event, but the
    // state is still cleared.
    let mut state = DragState { active_entity: Some(7), drag_start: Some(v(100, 200)) };
    let ev = click_end_drag_system(true, None, &mut state);
    assert!(ev.is_none());
    assert_eq!(state.active_entity, None);
    assert_eq!(state.drag_start, None);
}

#[test]
fn no_release_keeps_drag() {
    let mut state = DragState { active_entity: Some(7), drag_start: Some(v(100, 200)) };
    let ev = click_end_drag_system(false, Some(v(0, 0)), &mut state);
    assert!(ev.is_none());
    assert_eq!(state.active_entity, Some(7));
    assert_eq!(state.drag_start, Some(v(100, 200)));
}

#[test]
fn default_state_is_idle() {
    let state = DragState::default();
    assert_eq!(state.active_entity, None);
    assert_eq!(state.drag_start, None);
}
