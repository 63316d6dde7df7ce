use depths::drag::{DragState, Draggable};
use depths::frame::{interaction_frame, InteractionInput};
use depths::geom::{Vec2I, UNIT};
use depths::hover::Hoverable;
use depths::player::BodyVelocity;

fn v(x: i64, y: i64) -> Vec2I {
    Vec2I { x, y }
}

fn idle_input(cursor: Option<Vec2I>) -> InteractionInput {
    InteractionInput { cursor_world: cursor, just_pressed: false, just_released: false }
}

#[test]
fn press_move_release_pipeline() {
    // The ball: a 50-unit square at the origin, hoverable and draggable.
    let ball = 2u64;
    let hoverables = vec![Hoverable {
        entity: ball,
        translation: v(0, 0),
        scale: v(UNIT, UNIT),
        size: Some(v(50 * UNIT, 50 * UNIT)),
    }];
    let draggables = vec![Draggable { entity: ball }];
    let bodies = vec![BodyVelocity { entity: ball, velocity: v(0, 0) }];
    let mut state = DragState::idle();

    // frame 1: press over the ball
    let press = InteractionInput {
        cursor_world: Some(v(1_000, 2_000)),
        just_pressed: true,
        just_released: false,
    };
    let out1 = interaction_frame(press, &hoverables, &draggables, &bodies, false, &mut state);
    assert_eq!(out1.hover_events.len(), 1);
    assert!(out1.drag_completed.is_none());
    assert!(out1.impulse_writes.is_empty());
    assert_eq!(state.active_entity, Some(ball));

    // frame 2: the cursor moves, nothing else happens
    let out2 = interaction_frame(
        idle_input(Some(v(3_000, 5_000))),
        &hoverables,
        &draggables,
        &bodies,
        false,
        &mut state,
    );
    assert!(out2.drag_completed.is_none());
    assert_eq!(state.active_entity, Some(ball));

    // frame 3: release after a (2, 4)-unit move; the completed drag yields
    // the slingshot impulse in the same frame
    let release = InteractionInput {
        cursor_world: Some(v(3_000, 6_000)),
        just_pressed: false,
        just_released: true,
    };
    let out3 = interaction_frame(release, &hoverables, &draggables, &bodies, false, &mut state);
    let done = out3.drag_completed.expect("release must complete the drag");
    assert_eq!(done.entity, ball);
    assert_eq!(done.delta, v(2_000, 4_000));
    assert_eq!(out3.impulse_writes.len(), 1);
    assert_eq!(out3.impulse_writes[0].impulse, v(-3_000_000, -6_000_000));
    assert_eq!(state.active_entity, None);
}

#[test]
fn frame_without_cursor_does_nothing() {
    let hoverables = vec![Hoverable {
        entity: 1,
        translation: v(0, 0),
        scale: v(UNIT, UNIT),
        size: None,
    }];
    let draggables = vec![Draggable { entity: 1 }];
    let bodies: Vec<BodyVelocity> = Vec::new();
    let mut state = DragState::idle();
    let out = interaction_frame(
        InteractionInput { cursor_world: None, just_pressed: true, just_released: false },
        &hoverables,
        &draggables,
        &bodies,
        true,
        &mut state,
    );
    assert!(out.hover_events.is_empty());
    assert!(out.drag_completed.is_none());
    assert!(out.impulse_writes.is_empty());
    assert_eq!(state.active_entity, None);
}
