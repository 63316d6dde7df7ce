//! The interaction pipeline of one simulation frame, in its required stage
//! order: hover detection feeds the drag controller's press handler, the
//! release handler's completed drag feeds the impulse applier, all within
//! the same frame. Event queues are frame-scoped, so running the stages as
//! one call is the single-threaded substitute for any synchronization.

use vstd::prelude::*;

verus! {

use crate::drag::{DragEndedEvent, DragState, Draggable, click_end_drag_system, click_start_drag_system, drag_after_press, drag_after_release, drag_release_event};
use crate::geom::{COORD_LIMIT, Vec2I, in_bounds, in_range};
use crate::hover::{Hoverable, HoveredEvent, check_hover_system, hover_events};
use crate::player::{BodyVelocity, ImpulseWrite, apply_drag_impulse_system, drag_impulse_writes};

/// The raw input one frame hands the interaction pipeline: the resolved
/// world cursor, if any, and the mouse button edges. Edges fire once per
/// press or release — the host's input layer is the edge detector.
#[derive(Clone, Copy, Debug)]
pub struct InteractionInput {
    pub cursor_world: Option<Vec2I>,
    pub just_pressed: bool,
    pub just_released: bool,
}

/// What the interaction pipeline produced this frame: the hover reports,
/// the completed drag if one ended, and the impulse writes it yielded. All
/// of it is frame-scoped; only the drag state survives.
#[derive(Clone, Debug)]
pub struct InteractionOutput {
    pub hover_events: Vec<HoveredEvent>,
    pub drag_completed: Option<DragEndedEvent>,
    pub impulse_writes: Vec<ImpulseWrite>,
}

/// This frame's completed-drag queue: empty, or the one event the release
/// emitted.
pub open spec fn completed_queue(ev: Option<DragEndedEvent>) -> Seq<DragEndedEvent> {
    match ev {
        None => Seq::empty(),
        Some(e) => Seq::empty().push(e),
    }
}

/// One frame of the interaction pipeline, stages in their required order:
/// the hover pass runs first and its reports reach the press handler in the
/// same frame; the release handler runs after the press; the impulse
/// applier consumes whatever drag completed this frame.
pub fn interaction_frame(
    input: InteractionInput,
    hoverables: &Vec<Hoverable>,
    draggables: &Vec<Draggable>,
    bodies: &Vec<BodyVelocity>,
    require_near_rest: bool,
    state: &mut DragState,
) -> (out: InteractionOutput)
    requires
        old(state).wf(),
        input.cursor_world matches Some(p) ==> in_bounds(p),
        forall|i: int| 0 <= i < hoverables@.len() ==> (#[trigger] hoverables@[i]).wf(),
        forall|i: int| 0 <= i < bodies@.len() ==> in_bounds((#[trigger] bodies@[i]).velocity),
    ensures
        final(state).wf(),
        out.hover_events@ == hover_events(input.cursor_world, hoverables@),
        ({
            let held = drag_after_press(
                *old(state),
                input.just_pressed,
                input.cursor_world,
                hover_events(input.cursor_world, hoverables@),
                draggables@,
            );
            &&& *final(state) == drag_after_release(held, input.just_released)
            &&& out.drag_completed == drag_release_event(
                held,
                input.just_released,
                input.cursor_world,
            )
        }),
        out.impulse_writes@ == drag_impulse_writes(
            completed_queue(out.drag_completed),
            bodies@,
            require_near_rest,
        ),
{
    let hover_reports = check_hover_system(input.cursor_world, hoverables);
    click_start_drag_system(
        input.just_pressed,
        input.cursor_world,
        &hover_reports,
        draggables,
        state,
    );
    let drag_completed = click_end_drag_system(input.just_released, input.cursor_world, state);
    let completed: Vec<DragEndedEvent> = match drag_completed {
        Some(e) => {
            let mut one: Vec<DragEndedEvent> = Vec::new();
            one.push(e);
            one
        },
        None => Vec::new(),
    };
    proof {
        assert(completed@ =~= completed_queue(drag_completed));
        if drag_completed is Some {
            assert(in_range(drag_completed->0.delta, 2 * COORD_LIMIT as int));
        }
    }
    let impulse_writes = apply_drag_impulse_system(&completed, bodies, require_near_rest);
    InteractionOutput { hover_events: hover_reports, drag_completed, impulse_writes }
}

} // verus!
