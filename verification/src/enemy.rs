//! Pursuit control for the fish: each follower steers toward its single
//! designated target with a proportional force and turns to face it, and
//! collision contacts between the tagged groups are picked out for the host
//! to report.

use vstd::prelude::*;

verus! {

use crate::animation::{AnimationSlice, Animator};
use crate::geom::{UNIT, Vec2I, in_bounds, norm_x, norm_y, octant_degrees, on_octant_ray, normalize_or_zero, rotation_target_degrees};

/// Steering force written per unit of pursuit direction, each frame.
pub const PURSUIT_STRENGTH: i64 = 200_000;

/// The fish's animation keys.
#[derive(Clone, Copy, Debug, PartialEq, Eq, Hash, Structural)]
pub enum FishAnimation {
    Idle,
    Attack,
}

impl FishAnimation {
    /// This key's slot in the fish's clip table.
    pub open spec fn index_spec(self) -> int {
        match self {
            FishAnimation::Idle => 0,
            FishAnimation::Attack => 1,
        }
    }

    /// This key's slot in the fish's clip table.
    pub fn index(self) -> (i: usize)
        ensures
            i == self.index_spec(),
    {
        match self {
            FishAnimation::Idle => 0,
            FishAnimation::Attack => 1,
        }
    }
}

/// What the pursuit controller writes for one follower this frame: its unit
/// direction toward the target (fixed point, zero when the two coincide),
/// the continuous steering force overwriting the follower's accumulator,
/// and — when the heading lies on an exact ray — the rotation target the
/// host should interpolate toward; for any other heading the host derives
/// the angle from the direction itself.
#[derive(Clone, Copy, Debug, PartialEq, Eq, Structural)]
pub struct Steering {
    pub direction: Vec2I,
    pub force: Vec2I,
    pub rotation_target_degrees: Option<i64>,
}

/// The steering one follower gets: direction is the normalized offset to the
/// target, force is `direction * PURSUIT_STRENGTH` (per fixed-point unit
/// direction), and the rotation target faces the direction. A follower on
/// its target gets the zero direction, hence zero force, and the rotation
/// target of heading zero.
pub open spec fn steering_matches(s: Steering, follower: Vec2I, target: Vec2I) -> bool {
    let delta = Vec2I { x: (target.x - follower.x) as i64, y: (target.y - follower.y) as i64 };
    &&& s.direction.x == norm_x(delta)
    &&& s.direction.y == norm_y(delta)
    &&& s.force.x == s.direction.x * (PURSUIT_STRENGTH / UNIT)
    &&& s.force.y == s.direction.y * (PURSUIT_STRENGTH / UNIT)
    &&& (on_octant_ray(s.direction.x as int, s.direction.y as int) ==> (
        s.rotation_target_degrees matches Some(a) && a == octant_degrees(
            s.direction.x as int,
            s.direction.y as int,
        ) - 90))
    &&& (!on_octant_ray(s.direction.x as int, s.direction.y as int)
        ==> s.rotation_target_degrees is None)
}

/// One follower's pursuit step: the unit direction toward the target, the
/// proportional steering force, and the rotation target facing the
/// direction.
pub fn pursue(follower: Vec2I, target: Vec2I) -> (s: Steering)
    requires
        in_bounds(follower),
        in_bounds(target),
    ensures
        steering_matches(s, follower, target),
{
    let delta = Vec2I { x: target.x - follower.x, y: target.y - follower.y };
    let direction = normalize_or_zero(delta);
    let per_unit: i64 = 200;
    proof {
        assert(per_unit == PURSUIT_STRENGTH / UNIT);
    }
    let force = Vec2I { x: direction.x * per_unit, y: direction.y * per_unit };
    let rotation = rotation_target_degrees(direction);
    Steering { direction, force, rotation_target_degrees: rotation }
}

/// Steering for a list of followers toward one target, in follower order.
fn steer_followers(target: Vec2I, followers: &Vec<Vec2I>) -> (out: Vec<Steering>)
    requires
        in_bounds(target),
        forall|i: int| 0 <= i < followers@.len() ==> in_bounds(#[trigger] followers@[i]),
    ensures
        out@.len() == followers@.len(),
        forall|i: int| 0 <= i < followers@.len() ==> steering_matches(
            #[trigger] out@[i],
            followers@[i],
            target,
        ),
{
    let mut out: Vec<Steering> = Vec::new();
    let mut i: usize = 0;
    while i < followers.len()
        invariant
            0 <= i <= followers@.len(),
            in_bounds(target),
            forall|k: int| 0 <= k < followers@.len() ==> in_bounds(#[trigger] followers@[k]),
            out@.len() == i,
            forall|k: int| 0 <= k < i ==> steering_matches(#[trigger] out@[k], followers@[k], target),
        decreases followers@.len() - i,
    {
        let s = pursue(followers[i], target);
        out.push(s);
        i += 1;
    }
    out
}

/// The fish that chase the player: with the player present, every follower
/// is steered toward the player's position; with no player resolved this
/// frame, no work happens and no force is written.
pub fn fish_follow_player_system(player: Option<Vec2I>, followers: &Vec<Vec2I>) -> (out: Vec<
    Steering,
>)
    requires
        player matches Some(p) ==> in_bounds(p),
        forall|i: int| 0 <= i < followers@.len() ==> in_bounds(#[trigger] followers@[i]),
    ensures
        player is None ==> out@.len() == 0,
        player matches Some(p) ==> out@.len() == followers@.len() && forall|i: int|
            0 <= i < followers@.len() ==> steering_matches(#[trigger] out@[i], followers@[i], p),
{
    match player {
        None => Vec::new(),
        Some(p) => steer_followers(p, followers),
    }
}

/// The fish that chase the ball, under the same steering policy.
pub fn fish_follow_ball_system(ball: Option<Vec2I>, followers: &Vec<Vec2I>) -> (out: Vec<Steering>)
    requires
        ball matches Some(p) ==> in_bounds(p),
        forall|i: int| 0 <= i < followers@.len() ==> in_bounds(#[trigger] followers@[i]),
    ensures
        ball is None ==> out@.len() == 0,
        ball matches Some(p) ==> out@.len() == followers@.len() && forall|i: int|
            0 <= i < followers@.len() ==> steering_matches(#[trigger] out@[i], followers@[i], p),
{
    match ball {
        None => Vec::new(),
        Some(p) => steer_followers(p, followers),
    }
}

/// A collision contact the physics feed reports: the two entities and
/// whether the contact started (rather than stopped) this frame.
#[derive(Clone, Copy, Debug, PartialEq, Eq, Structural)]
pub struct CollisionContact {
    pub first: u64,
    pub second: u64,
    pub started: bool,
}

/// This entity appears in the group.
pub open spec fn in_group(group: Seq<u64>, e: u64) -> bool {
    exists|i: int| 0 <= i < group.len() && group[i] == e
}

/// A started contact that links the two groups: either side may be the
/// group member.
pub open spec fn links_groups(c: CollisionContact, a: Seq<u64>, b: Seq<u64>) -> bool {
    &&& c.started
    &&& (in_group(a, c.first) || in_group(a, c.second))
    &&& (in_group(b, c.first) || in_group(b, c.second))
}

/// The contacts worth reporting: the started ones linking the two groups,
/// in feed order.
pub open spec fn collision_reports(
    evs: Seq<CollisionContact>,
    a: Seq<u64>,
    b: Seq<u64>,
) -> Seq<CollisionContact>
    decreases evs.len(),
{
    if evs.len() == 0 {
        Seq::empty()
    } else {
        let rest = collision_reports(evs.drop_last(), a, b);
        if links_groups(evs.last(), a, b) {
            rest.push(evs.last())
        } else {
            rest
        }
    }
}

/// Whether this entity appears in the group.
fn group_contains(group: &Vec<u64>, e: u64) -> (b: bool)
    ensures
        b == in_group(group@, e),
{
    let mut i: usize = 0;
    while i < group.len()
        invariant
            0 <= i <= group@.len(),
            forall|k: int| 0 <= k < i ==> group@[k] != e,
        decreases group@.len() - i,
    {
        if group[i] == e {
            return true;
        }
        i += 1;
    }
    false
}

/// The started contacts linking the two groups, in feed order.
fn filter_contacts(events: &Vec<CollisionContact>, a: &Vec<u64>, b: &Vec<u64>) -> (hits: Vec<
    CollisionContact,
>)
    ensures
        hits@ == collision_reports(events@, a@, b@),
{
    let mut hits: Vec<CollisionContact> = Vec::new();
    let mut i: usize = 0;
    while i < events.len()
        invariant
            0 <= i <= events@.len(),
            hits@ == collision_reports(events@.subrange(0, i as int), a@, b@),
        decreases events@.len() - i,
    {
        let c = events[i];
        if c.started {
            let side_a = group_contains(a, c.first) || group_contains(a, c.second);
            let side_b = group_contains(b, c.first) || group_contains(b, c.second);
            if side_a && side_b {
                hits.push(c);
            }
        }
        proof {
            let grown = events@.subrange(0, i + 1 as int);
            assert(grown.drop_last() =~= events@.subrange(0, i as int));
            assert(grown.last() == events@[i as int]);
        }
        i += 1;
    }
    proof {
        assert(events@.subrange(0, events@.len() as int) =~= events@);
    }
    hits
}

/// Picks the started contacts between a fish and the player out of the
/// frame's collision feed; the host prints the notice, which is the
/// contact's only effect in this core.
pub fn detect_playerfish_collision_system(
    events: &Vec<CollisionContact>,
    fish: &Vec<u64>,
    players: &Vec<u64>,
) -> (hits: Vec<CollisionContact>)
    ensures
        hits@ == collision_reports(events@, fish@, players@),
{
    filter_contacts(events, fish, players)
}

/// Picks the started contacts between a fish and the ball out of the
/// frame's collision feed.
pub fn detect_ballfish_collision_system(
    events: &Vec<CollisionContact>,
    fish: &Vec<u64>,
    balls: &Vec<u64>,
) -> (hits: Vec<CollisionContact>)
    ensures
        hits@ == collision_reports(events@, fish@, balls@),
{
    filter_contacts(events, fish, balls)
}

/// The fish's spawn-time animation setup: idle on frames 0 to 1, attack
/// pinned to frame 2, starting on the idle key.
#[allow(non_snake_case)]
pub fn spawn_playerFish() -> (a: Animator)
    ensures
        a.current == FishAnimation::Idle.index_spec(),
        a.clips@.len() == 2,
        a.clips@[FishAnimation::Idle.index_spec()] == (AnimationSlice { first: 0, last: 1 }),
        a.clips@[FishAnimation::Attack.index_spec()] == (AnimationSlice { first: 2, last: 2 }),
{
    let mut clips: Vec<AnimationSlice> = Vec::new();
    clips.push(AnimationSlice { first: 0, last: 1 });
    clips.push(AnimationSlice { first: 2, last: 2 });
    Animator { current: FishAnimation::Idle.index(), clips }
}

} // verus!
