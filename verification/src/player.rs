//! Player control: each frame the held directional keys become an impulse,
//! an animation key and a rotation target, and a completed drag becomes a
//! one-shot slingshot impulse on the dragged body.

use vstd::prelude::*;

verus! {

use crate::animation::{AnimationSlice, Animator};
use crate::drag::{DragEndedEvent, DragState, Draggable, drag_after_press, drag_release_event, last_draggable_hover};
use crate::geom::{COORD_LIMIT, UNIT, Vec2I, in_bounds, in_range, len_sq, len_sq_i64, octant_degrees, rotation_target_degrees};
use crate::hover::HoveredEvent;

/// Impulse written per unit of keyed direction, each frame.
pub const PLAYER_IMPULSE_SCALE: i64 = 20_000;

/// Above this fixed-point speed an undirected player counts as towed rather
/// than idle (twenty world units per second).
pub const TOW_SPEED_THRESHOLD: i64 = 20 * UNIT;

/// Impulse written per world unit of drag displacement.
pub const DRAG_IMPULSE_SCALE: i64 = 1_500_000;

/// Bound on the squared world speed (sixty, in squared fixed-point steps)
/// under which a body counts as near rest for the slingshot policy.
pub const NEAR_REST_SPEED_SQ: i64 = 60 * UNIT * UNIT;

/// The player's animation keys.
#[derive(Clone, Copy, Debug, PartialEq, Eq, Hash, Structural)]
pub enum PlayerAnimation {
    Idle,
    Swimming,
    Trackted,
}

impl PlayerAnimation {
    /// This key's slot in the player's clip table.
    pub open spec fn index_spec(self) -> int {
        match self {
            PlayerAnimation::Idle => 0,
            PlayerAnimation::Trackted => 1,
            PlayerAnimation::Swimming => 2,
        }
    }

    /// This key's slot in the player's clip table.
    pub fn index(self) -> (i: usize)
        ensures
            i == self.index_spec(),
    {
        match self {
            PlayerAnimation::Idle => 0,
            PlayerAnimation::Trackted => 1,
            PlayerAnimation::Swimming => 2,
        }
    }
}

/// The four directional keys, as held this frame.
#[derive(Clone, Copy, Debug, PartialEq, Eq, Structural)]
pub struct DirectionalInput {
    pub left: bool,
    pub right: bool,
    pub up: bool,
    pub down: bool,
}

/// Horizontal keyed direction: right minus left, so each component is -1, 0
/// or 1. Opposed keys cancel; diagonals are deliberately not normalized.
pub open spec fn direction_x(keys: DirectionalInput) -> int {
    (if keys.right {
        1int
    } else {
        0int
    }) - (if keys.left {
        1int
    } else {
        0int
    })
}

/// Vertical keyed direction: up minus down.
pub open spec fn direction_y(keys: DirectionalInput) -> int {
    (if keys.up {
        1int
    } else {
        0int
    }) - (if keys.down {
        1int
    } else {
        0int
    })
}

/// Some directional key wins this frame. The keyed direction's length is
/// either zero or at least one, so any length threshold below one — the
/// customary tenth — separates exactly these two cases.
pub open spec fn has_direction(keys: DirectionalInput) -> bool {
    direction_x(keys) != 0 || direction_y(keys) != 0
}

/// The animation key the controller selects, in fixed priority order:
/// directional input wins, then high residual speed, then idle.
pub open spec fn player_animation(keys: DirectionalInput, velocity: Vec2I) -> PlayerAnimation {
    if has_direction(keys) {
        PlayerAnimation::Swimming
    } else if len_sq(velocity) > TOW_SPEED_THRESHOLD * TOW_SPEED_THRESHOLD {
        PlayerAnimation::Trackted
    } else {
        PlayerAnimation::Idle
    }
}

/// What the player controller writes this frame: the continuous impulse (the
/// zero vector actively overwrites any residue when no key is held), the
/// selected animation key, and — only while keyed movement is happening —
/// the rotation target the host should interpolate toward.
#[derive(Clone, Copy, Debug, PartialEq, Eq, Structural)]
pub struct PlayerUpdate {
    pub impulse: Vec2I,
    pub animation: PlayerAnimation,
    pub rotation_target_degrees: Option<i64>,
}

/// One frame of player control: sums the held keys into a direction, writes
/// `direction * PLAYER_IMPULSE_SCALE` as the impulse, selects the animation
/// key by the fixed priority order, and, while moving, hands back the exact
/// rotation target for the keyed heading.
pub fn player_movement(keys: DirectionalInput, velocity: Vec2I) -> (u: PlayerUpdate)
    requires
        in_bounds(velocity),
    ensures
        u.impulse.x == direction_x(keys) * PLAYER_IMPULSE_SCALE,
        u.impulse.y == direction_y(keys) * PLAYER_IMPULSE_SCALE,
        u.animation == player_animation(keys, velocity),
        has_direction(keys) ==> (u.rotation_target_degrees matches Some(a) && a == octant_degrees(
            direction_x(keys),
            direction_y(keys),
        ) - 90),
        !has_direction(keys) ==> u.rotation_target_degrees is None,
{
    let dx: i64 = (if keys.right {
        1i64
    } else {
        0i64
    }) - (if keys.left {
        1i64
    } else {
        0i64
    });
    let dy: i64 = (if keys.up {
        1i64
    } else {
        0i64
    }) - (if keys.down {
        1i64
    } else {
        0i64
    });
    let impulse = Vec2I { x: dx * PLAYER_IMPULSE_SCALE, y: dy * PLAYER_IMPULSE_SCALE };
    let moving = dx != 0 || dy != 0;
    let animation = if moving {
        PlayerAnimation::Swimming
    } else {
        let speed_sq = len_sq_i64(velocity);
        if speed_sq > TOW_SPEED_THRESHOLD * TOW_SPEED_THRESHOLD {
            PlayerAnimation::Trackted
        } else {
            PlayerAnimation::Idle
        }
    };
    let rotation = if moving {
        rotation_target_degrees(Vec2I { x: dx, y: dy })
    } else {
        None
    };
    PlayerUpdate { impulse, animation, rotation_target_degrees: rotation }
}

/// With no directional input the controller writes the zero impulse and
/// never selects the swimming key: the towed key above the speed threshold,
/// the idle key at or below it.
pub proof fn lemma_no_input_is_zero_impulse(keys: DirectionalInput, velocity: Vec2I)
    requires
        !has_direction(keys),
    ensures
        direction_x(keys) * PLAYER_IMPULSE_SCALE == 0,
        direction_y(keys) * PLAYER_IMPULSE_SCALE == 0,
        player_animation(keys, velocity) != PlayerAnimation::Swimming,
        len_sq(velocity) > TOW_SPEED_THRESHOLD * TOW_SPEED_THRESHOLD ==> player_animation(
            keys,
            velocity,
        ) == PlayerAnimation::Trackted,
        len_sq(velocity) <= TOW_SPEED_THRESHOLD * TOW_SPEED_THRESHOLD ==> player_animation(
            keys,
            velocity,
        ) == PlayerAnimation::Idle,
{
}

/// The body's squared speed is at or below the near-rest bound.
pub open spec fn near_rest(velocity: Vec2I) -> bool {
    len_sq(velocity) <= NEAR_REST_SPEED_SQ
}

/// The slingshot impulse a displacement yields: the displacement negated and
/// scaled by the drag impulse per fixed-point step — dragging the ball in
/// one direction hurls it the opposite way.
pub open spec fn drag_impulse_vec(delta: Vec2I) -> Vec2I {
    Vec2I {
        x: (-delta.x * (DRAG_IMPULSE_SCALE / UNIT)) as i64,
        y: (-delta.y * (DRAG_IMPULSE_SCALE / UNIT)) as i64,
    }
}

/// What one completed drag writes: nothing when the near-rest policy is on
/// and the body is still moving too fast, the slingshot impulse otherwise.
pub open spec fn drag_impulse_spec(delta: Vec2I, velocity: Vec2I, require_near_rest: bool) -> Option<
    Vec2I,
> {
    if require_near_rest && !near_rest(velocity) {
        None
    } else {
        Some(drag_impulse_vec(delta))
    }
}

/// Turns one completed drag into the one-shot impulse for the dragged body,
/// or nothing when the near-rest policy is on and the body is already moving.
pub fn drag_impulse(delta: Vec2I, velocity: Vec2I, require_near_rest: bool) -> (r: Option<Vec2I>)
    requires
        in_range(delta, 2 * COORD_LIMIT as int),
        in_bounds(velocity),
    ensures
        r == drag_impulse_spec(delta, velocity, require_near_rest),
{
    if require_near_rest {
        let speed_sq = len_sq_i64(velocity);
        if speed_sq > NEAR_REST_SPEED_SQ {
            return None;
        }
    }
    let per_step: i64 = 1_500;
    proof {
        assert(per_step == DRAG_IMPULSE_SCALE / UNIT);
    }
    Some(Vec2I { x: -delta.x * per_step, y: -delta.y * per_step })
}

/// A rigid body's per-frame view for the drag applier: its identifier and
/// its current linear velocity.
#[derive(Clone, Copy, Debug, PartialEq, Eq, Structural)]
pub struct BodyVelocity {
    pub entity: u64,
    pub velocity: Vec2I,
}

/// A one-shot impulse write destined for a body's impulse accumulator.
#[derive(Clone, Copy, Debug, PartialEq, Eq, Structural)]
pub struct ImpulseWrite {
    pub entity: u64,
    pub impulse: Vec2I,
}

/// The first body carrying this entity (entities are unique in the host's
/// store, so the first is the only one), or nothing when it has despawned.
pub open spec fn lookup_velocity(bodies: Seq<BodyVelocity>, e: u64) -> Option<Vec2I>
    decreases bodies.len(),
{
    if bodies.len() == 0 {
        None
    } else if bodies.first().entity == e {
        Some(bodies.first().velocity)
    } else {
        lookup_velocity(bodies.drop_first(), e)
    }
}

/// The impulse writes a frame's completed drags yield, in event order:
/// events naming despawned bodies are skipped, as are — under the near-rest
/// policy — events whose body is still moving too fast.
pub open spec fn drag_impulse_writes(
    events: Seq<DragEndedEvent>,
    bodies: Seq<BodyVelocity>,
    require_near_rest: bool,
) -> Seq<ImpulseWrite>
    decreases events.len(),
{
    if events.len() == 0 {
        Seq::empty()
    } else {
        let rest = drag_impulse_writes(events.drop_last(), bodies, require_near_rest);
        let ev = events.last();
        match lookup_velocity(bodies, ev.entity) {
            None => rest,
            Some(vel) => match drag_impulse_spec(ev.delta, vel, require_near_rest) {
                None => rest,
                Some(imp) => rest.push(ImpulseWrite { entity: ev.entity, impulse: imp }),
            },
        }
    }
}

/// The velocity of the body carrying this entity, if it still exists.
fn find_velocity(bodies: &Vec<BodyVelocity>, e: u64) -> (r: Option<Vec2I>)
    ensures
        r == lookup_velocity(bodies@, e),
{
    let mut i: usize = 0;
    proof {
        assert(bodies@.subrange(0, bodies@.len() as int) =~= bodies@);
    }
    while i < bodies.len()
        invariant
            0 <= i <= bodies@.len(),
            lookup_velocity(bodies@, e) == lookup_velocity(
                bodies@.subrange(i as int, bodies@.len() as int),
                e,
            ),
        decreases bodies@.len() - i,
    {
        proof {
            let tail = bodies@.subrange(i as int, bodies@.len() as int);
            assert(tail.first() == bodies@[i as int]);
            assert(tail.drop_first() =~= bodies@.subrange(i + 1 as int, bodies@.len() as int));
        }
        if bodies[i].entity == e {
            return Some(bodies[i].velocity);
        }
        i += 1;
    }
    proof {
        assert(bodies@.subrange(bodies@.len() as int, bodies@.len() as int).len() == 0);
    }
    None
}

/// Consumes the frame's completed drags: looks each dragged body up, skips
/// bodies that have despawned (not an error) and, under the near-rest
/// policy, bodies still moving too fast, and hands back the slingshot
/// impulse writes in event order.
pub fn apply_drag_impulse_system(
    events: &Vec<DragEndedEvent>,
    bodies: &Vec<BodyVelocity>,
    require_near_rest: bool,
) -> (writes: Vec<ImpulseWrite>)
    requires
        forall|i: int| 0 <= i < events@.len() ==> in_range(
            (#[trigger] events@[i]).delta,
            2 * COORD_LIMIT as int,
        ),
        forall|i: int| 0 <= i < bodies@.len() ==> in_bounds((#[trigger] bodies@[i]).velocity),
    ensures
        writes@ == drag_impulse_writes(events@, bodies@, require_near_rest),
{
    let mut writes: Vec<ImpulseWrite> = Vec::new();
    let mut i: usize = 0;
    while i < events.len()
        invariant
            0 <= i <= events@.len(),
            forall|k: int| 0 <= k < events@.len() ==> in_range(
                (#[trigger] events@[k]).delta,
                2 * COORD_LIMIT as int,
            ),
            forall|k: int| 0 <= k < bodies@.len() ==> in_bounds((#[trigger] bodies@[k]).velocity),
            writes@ == drag_impulse_writes(
                events@.subrange(0, i as int),
                bodies@,
                require_near_rest,
            ),
        decreases events@.len() - i,
    {
        let ev = events[i];
        if let Some(vel) = find_velocity(bodies, ev.entity) {
            proof {
                lemma_lookup_velocity_in_bounds(bodies@, ev.entity);
            }
            if let Some(imp) = drag_impulse(ev.delta, vel, require_near_rest) {
                writes.push(ImpulseWrite { entity: ev.entity, impulse: imp });
            }
        }
        proof {
            let grown = events@.subrange(0, i + 1 as int);
            assert(grown.drop_last() =~= events@.subrange(0, i as int));
            assert(grown.last() == events@[i as int]);
        }
        i += 1;
    }
    proof {
        assert(events@.subrange(0, events@.len() as int) =~= events@);
    }
    writes
}

/// A velocity found in a store of bounded bodies is itself bounded.
proof fn lemma_lookup_velocity_in_bounds(bodies: Seq<BodyVelocity>, e: u64)
    requires
        forall|k: int| 0 <= k < bodies.len() ==> in_bounds((#[trigger] bodies[k]).velocity),
    ensures
        lookup_velocity(bodies, e) matches Some(v) ==> in_bounds(v),
    decreases bodies.len(),
{
    if bodies.len() > 0 && bodies.first().entity != e {
        lemma_lookup_velocity_in_bounds(bodies.drop_first(), e);
    }
}

/// The full drag round trip. Pressing while at least one draggable entity is
/// hovered, with the cursor at `press_cursor`, then releasing with the
/// cursor at `release_cursor`, emits a completed drag whose displacement is
/// exactly the cursor movement; and whenever the near-rest policy is off or
/// the body is near rest, that drag yields the slingshot impulse: the
/// movement negated and scaled by `DRAG_IMPULSE_SCALE` per world unit.
pub proof fn lemma_drag_round_trip(
    state: DragState,
    evs: Seq<HoveredEvent>,
    drags: Seq<Draggable>,
    press_cursor: Vec2I,
    release_cursor: Vec2I,
    velocity: Vec2I,
    require_near_rest: bool,
)
    requires
        state.wf(),
        last_draggable_hover(evs, drags) is Some,
        in_bounds(press_cursor),
        in_bounds(release_cursor),
        !require_near_rest || near_rest(velocity),
    ensures
        ({
            let held = drag_after_press(state, true, Some(press_cursor), evs, drags);
            let ev = drag_release_event(held, true, Some(release_cursor));
            &&& ev matches Some(e)
            &&& ev->0.entity == last_draggable_hover(evs, drags)->0
            &&& ev->0.delta.x == release_cursor.x - press_cursor.x
            &&& ev->0.delta.y == release_cursor.y - press_cursor.y
            &&& drag_impulse_spec(ev->0.delta, velocity, require_near_rest) matches Some(imp)
            &&& imp.x == -(release_cursor.x - press_cursor.x) * (DRAG_IMPULSE_SCALE / UNIT)
            &&& imp.y == -(release_cursor.y - press_cursor.y) * (DRAG_IMPULSE_SCALE / UNIT)
        }),
{
    let held = drag_after_press(state, true, Some(press_cursor), evs, drags);
    let ev = drag_release_event(held, true, Some(release_cursor));
    assert(held.drag_start == Some(press_cursor));
    assert(ev is Some);
    let delta = ev->0.delta;
    assert(delta.x == release_cursor.x - press_cursor.x);
    assert(delta.y == release_cursor.y - press_cursor.y);
    let imp = drag_impulse_spec(delta, velocity, require_near_rest)->0;
    assert(DRAG_IMPULSE_SCALE / UNIT == 1500);
    assert(-delta.x * (DRAG_IMPULSE_SCALE / UNIT) == -delta.x * 1500);
    assert(-delta.y * (DRAG_IMPULSE_SCALE / UNIT) == -delta.y * 1500);
    assert(imp.x == -delta.x * 1500);
    assert(imp.y == -delta.y * 1500);
    assert(-(release_cursor.x - press_cursor.x) * (DRAG_IMPULSE_SCALE / UNIT) == -(release_cursor.x
        - press_cursor.x) * 1500);
    assert(-(release_cursor.y - press_cursor.y) * (DRAG_IMPULSE_SCALE / UNIT) == -(release_cursor.y
        - press_cursor.y) * 1500);
}

/// The player's spawn-time animation setup: the clip table — idle on frames
/// 0 to 1, towed pinned to frame 2, swimming on frames 3 to 5 — starting on
/// the idle key.
pub fn setup_player() -> (a: Animator)
    ensures
        a.current == PlayerAnimation::Idle.index_spec(),
        a.clips@.len() == 3,
        a.clips@[PlayerAnimation::Idle.index_spec()] == (AnimationSlice { first: 0, last: 1 }),
        a.clips@[PlayerAnimation::Trackted.index_spec()] == (AnimationSlice { first: 2, last: 2 }),
        a.clips@[PlayerAnimation::Swimming.index_spec()] == (AnimationSlice { first: 3, last: 5 }),
{
    let mut clips: Vec<AnimationSlice> = Vec::new();
    clips.push(AnimationSlice { first: 0, last: 1 });
    clips.push(AnimationSlice { first: 2, last: 2 });
    clips.push(AnimationSlice { first: 3, last: 5 });
    Animator { current: PlayerAnimation::Idle.index(), clips }
}

} // verus!
