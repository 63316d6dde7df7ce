//! Drag gesture state machine. A left-button press that coincides with a
//! hover report on a draggable entity starts a drag, recording the entity and
//! the world cursor position; a release ends it, clearing the state and
//! emitting a completed-drag event with the cursor displacement whenever the
//! cursor can still be resolved.

use vstd::prelude::*;

verus! {

use crate::geom::{COORD_LIMIT, Vec2I, in_bounds, in_range};
use crate::hover::HoveredEvent;

/// A draggable entity as the press handler sees it: its identifier.
#[derive(Clone, Copy, Debug, PartialEq, Eq, Structural)]
pub struct Draggable {
    pub entity: u64,
}

/// The one piece of state that survives across frames: the entity under an
/// active drag and where the drag started. Both fields are set together on a
/// press and cleared together on a release — never one alone.
#[derive(Clone, Copy, Debug)]
pub struct DragState {
    pub active_entity: Option<u64>,
    pub drag_start: Option<Vec2I>,
}

/// A completed drag: the dragged entity, where the gesture started and
/// ended, and the cursor displacement `delta`, always end minus start.
#[derive(Clone, Copy, Debug, PartialEq, Eq, Structural)]
pub struct DragEndedEvent {
    pub entity: u64,
    pub start_position: Vec2I,
    pub end_position: Vec2I,
    pub delta: Vec2I,
}

impl DragState {
    /// Both fields set together or both empty, and any recorded start
    /// position within the coordinate bound.
    pub open spec fn wf(self) -> bool {
        &&& (self.active_entity is Some <==> self.drag_start is Some)
        &&& (self.drag_start matches Some(p) ==> in_bounds(p))
    }

    /// No drag in progress.
    pub fn idle() -> (s: DragState)
        ensures
            s.active_entity is None,
            s.drag_start is None,
            s.wf(),
    {
        DragState { active_entity: None, drag_start: None }
    }
}

impl Default for DragState {
    /// The initial state: no drag in progress.
    fn default() -> (s: DragState)
        ensures
            s.active_entity is None,
            s.drag_start is None,
            s.wf(),
    {
        DragState { active_entity: None, drag_start: None }
    }
}

/// This entity appears among the frame's draggable entities.
pub open spec fn is_draggable(drags: Seq<Draggable>, e: u64) -> bool {
    exists|i: int| 0 <= i < drags.len() && (#[trigger] drags[i]).entity == e
}

/// The entity a press would grab: of the frame's hover reports that name a
/// draggable entity, the last one — each matching report overwrites the
/// previous, so the report iterated last wins.
pub open spec fn last_draggable_hover(evs: Seq<HoveredEvent>, drags: Seq<Draggable>) -> Option<u64>
    decreases evs.len(),
{
    if evs.len() == 0 {
        None
    } else if is_draggable(drags, evs.last().entity) {
        Some(evs.last().entity)
    } else {
        last_draggable_hover(evs.drop_last(), drags)
    }
}

/// The drag state after a press handler runs: unchanged unless the button was
/// pressed this frame, the cursor resolved, and some hover report named a
/// draggable entity — then that entity and the cursor become the active drag.
pub open spec fn drag_after_press(
    s: DragState,
    pressed: bool,
    cursor: Option<Vec2I>,
    evs: Seq<HoveredEvent>,
    drags: Seq<Draggable>,
) -> DragState {
    if pressed && cursor is Some && last_draggable_hover(evs, drags) is Some {
        DragState { active_entity: last_draggable_hover(evs, drags), drag_start: cursor }
    } else {
        s
    }
}

/// The drag state after a release handler runs: cleared on a release —
/// whether or not a drag was active and wherever the cursor is — and
/// untouched otherwise.
pub open spec fn drag_after_release(s: DragState, released: bool) -> DragState {
    if released {
        DragState { active_entity: None, drag_start: None }
    } else {
        s
    }
}

/// The event a release emits: only a release that ends an active drag with a
/// resolved cursor yields one, carrying the dragged entity and the
/// displacement from drag start to the cursor. A release that cannot resolve
/// the cursor ends the drag silently.
pub open spec fn drag_release_event(
    s: DragState,
    released: bool,
    cursor: Option<Vec2I>,
) -> Option<DragEndedEvent> {
    if released && s.active_entity is Some && s.drag_start is Some && cursor is Some {
        Some(
            DragEndedEvent {
                entity: s.active_entity->0,
                start_position: s.drag_start->0,
                end_position: cursor->0,
                delta: Vec2I {
                    x: (cursor->0.x - s.drag_start->0.x) as i64,
                    y: (cursor->0.y - s.drag_start->0.y) as i64,
                },
            },
        )
    } else {
        None
    }
}

/// Whether this entity appears among the frame's draggable entities.
pub fn contains_draggable(draggables: &Vec<Draggable>, e: u64) -> (b: bool)
    ensures
        b == is_draggable(draggables@, e),
{
    let mut i: usize = 0;
    while i < draggables.len()
        invariant
            0 <= i <= draggables@.len(),
            forall|k: int| 0 <= k < i ==> (#[trigger] draggables@[k]).entity != e,
        decreases draggables@.len() - i,
    {
        if draggables[i].entity == e {
            return true;
        }
        i += 1;
    }
    false
}

/// The press handler. On a left-button press edge with a resolved cursor, it
/// walks the frame's hover reports in order and records each draggable one as
/// the active drag, so the last draggable report wins; with no press, no
/// cursor or no matching report the state is untouched.
pub fn click_start_drag_system(
    just_pressed: bool,
    cursor_world: Option<Vec2I>,
    events: &Vec<HoveredEvent>,
    draggables: &Vec<Draggable>,
    state: &mut DragState,
)
    requires
        old(state).wf(),
        cursor_world matches Some(p) ==> in_bounds(p),
    ensures
        *final(state) == drag_after_press(
            *old(state),
            just_pressed,
            cursor_world,
            events@,
            draggables@,
        ),
        final(state).wf(),
{
    if !just_pressed {
        return ;
    }
    let cursor = match cursor_world {
        Some(c) => c,
        None => {
            return ;
        },
    };
    let mut grabbed: Option<u64> = None;
    let mut i: usize = 0;
    while i < events.len()
        invariant
            0 <= i <= events@.len(),
            grabbed == last_draggable_hover(events@.subrange(0, i as int), draggables@),
        decreases events@.len() - i,
    {
        let e = events[i].entity;
        if contains_draggable(draggables, e) {
            grabbed = Some(e);
        }
        proof {
            let grown = events@.subrange(0, i + 1 as int);
            assert(grown.drop_last() =~= events@.subrange(0, i as int));
            assert(grown.last() == events@[i as int]);
        }
        i += 1;
    }
    proof {
        assert(events@.subrange(0, events@.len() as int) =~= events@);
    }
    if let Some(e) = grabbed {
        state.active_entity = Some(e);
        state.drag_start = Some(cursor);
    }
}

/// The release handler. On a left-button release edge it takes whatever drag
/// is active — clearing both fields — and, if a drag was active and the
/// cursor resolves, emits the completed drag with displacement end minus
/// start; without a release edge nothing happens.
pub fn click_end_drag_system(
    just_released: bool,
    cursor_world: Option<Vec2I>,
    state: &mut DragState,
) -> (ev: Option<DragEndedEvent>)
    requires
        old(state).wf(),
        cursor_world matches Some(p) ==> in_bounds(p),
    ensures
        *final(state) == drag_after_release(*old(state), just_released),
        final(state).wf(),
        ev == drag_release_event(*old(state), just_released, cursor_world),
        ev matches Some(e) ==> in_range(e.delta, 2 * COORD_LIMIT as int),
{
    if !just_released {
        return None;
    }
    let active = state.active_entity;
    let start = state.drag_start;
    state.active_entity = None;
    state.drag_start = None;
    let e = match active {
        Some(e) => e,
        None => {
            return None;
        },
    };
    let s = match start {
        Some(s) => s,
        None => {
            return None;
        },
    };
    let c = match cursor_world {
        Some(c) => c,
        None => {
            return None;
        },
    };
    Some(
        DragEndedEvent {
            entity: e,
            start_position: s,
            end_position: c,
            delta: Vec2I { x: c.x - s.x, y: c.y - s.y },
        },
    )
}

} // verus!
