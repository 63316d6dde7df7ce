//! Hover detection: each frame the cursor's world position is tested against
//! the axis-aligned bounding box of every hoverable entity, and one hover
//! event fires per entity that contains the point. Overlapping entities all
//! report; there is deliberately no topmost-only resolution.

use vstd::prelude::*;

verus! {

use crate::geom::{COORD_LIMIT, UNIT, Vec2I, in_bounds};
use vstd::arithmetic::div_mod::{lemma_div_is_ordered, lemma_div_pos_is_pos};

/// A hoverable entity as the hover pass sees it each frame: its identifier,
/// its world translation and scale, and its sprite's declared size (`None`
/// stands for the default unit square). Sizes and scales are fixed-point,
/// `UNIT` meaning one world unit and a scale factor of one respectively.
#[derive(Clone, Copy, Debug, PartialEq, Eq, Structural)]
pub struct Hoverable {
    pub entity: u64,
    pub translation: Vec2I,
    pub scale: Vec2I,
    pub size: Option<Vec2I>,
}

/// A hover report: this entity contains the cursor this frame. Produced and
/// consumed within one frame, never persisted.
#[derive(Clone, Copy, Debug, PartialEq, Eq, Structural)]
pub struct HoveredEvent {
    pub entity: u64,
}

impl Hoverable {
    /// Well-formed per-frame data: translation, scale and size all within the
    /// coordinate bound. A negative scale or size (a mirrored sprite) is
    /// legal; its box is inverted and contains nothing.
    pub open spec fn wf(self) -> bool {
        &&& in_bounds(self.translation)
        &&& in_bounds(self.scale)
        &&& (self.size matches Some(s) ==> in_bounds(s))
    }

    /// Declared width, with the unit square standing in when no size is set.
    pub open spec fn size_x(self) -> int {
        match self.size {
            Some(s) => s.x as int,
            None => UNIT as int,
        }
    }

    /// Declared height, with the unit square standing in when no size is set.
    pub open spec fn size_y(self) -> int {
        match self.size {
            Some(s) => s.y as int,
            None => UNIT as int,
        }
    }

    /// The scaled width, `size * scale`, still carrying both fixed-point
    /// factors; negative for a mirrored sprite.
    pub open spec fn scaled_width(self) -> int {
        self.size_x() * self.scale.x
    }

    /// The scaled height.
    pub open spec fn scaled_height(self) -> int {
        self.size_y() * self.scale.y
    }

    /// Half the scaled width: `(size * scale) / UNIT / 2`, meaningful when
    /// the scaled width is nonnegative.
    pub open spec fn half_x(self) -> int {
        self.scaled_width() / (UNIT as int) / 2
    }

    /// Half the scaled height.
    pub open spec fn half_y(self) -> int {
        self.scaled_height() / (UNIT as int) / 2
    }
}

/// The cursor point lies within the entity's box, closed on both axes: a
/// point exactly on an edge counts as contained. A mirrored sprite's box is
/// inverted — its lower bound exceeds its upper — so it contains nothing.
pub open spec fn contains_point(h: Hoverable, p: Vec2I) -> bool {
    &&& h.scaled_width() >= 0
    &&& h.scaled_height() >= 0
    &&& h.translation.x - h.half_x() <= p.x <= h.translation.x + h.half_x()
    &&& h.translation.y - h.half_y() <= p.y <= h.translation.y + h.half_y()
}

/// The hover events one frame reports: nothing without a resolved cursor,
/// else one event per containing entity, in the entities' own order.
pub open spec fn hover_events(cursor: Option<Vec2I>, hs: Seq<Hoverable>) -> Seq<HoveredEvent>
    decreases hs.len(),
{
    match cursor {
        None => Seq::empty(),
        Some(p) => {
            if hs.len() == 0 {
                Seq::empty()
            } else {
                let rest = hover_events(cursor, hs.drop_last());
                if contains_point(hs.last(), p) {
                    rest.push(HoveredEvent { entity: hs.last().entity })
                } else {
                    rest
                }
            }
        },
    }
}

/// Whether the cursor point lies within this entity's scaled bounding box.
pub fn hovered(h: &Hoverable, p: Vec2I) -> (b: bool)
    requires
        h.wf(),
    ensures
        b == contains_point(*h, p),
{
    let (sx, sy): (i64, i64) = match h.size {
        Some(s) => (s.x, s.y),
        None => (UNIT, UNIT),
    };
    proof {
        assert(-1_000_000_000_000_000_000 <= sx * h.scale.x <= 1_000_000_000_000_000_000
            && -1_000_000_000_000_000_000 <= sy * h.scale.y
                <= 1_000_000_000_000_000_000) by (nonlinear_arith)
            requires
                -1_000_000_000 <= sx <= 1_000_000_000,
                -1_000_000_000 <= sy <= 1_000_000_000,
                -1_000_000_000 <= h.scale.x <= 1_000_000_000,
                -1_000_000_000 <= h.scale.y <= 1_000_000_000,
        ;
    }
    let wx = sx * h.scale.x;
    let wy = sy * h.scale.y;
    if wx < 0 || wy < 0 {
        return false;
    }
    proof {
        lemma_div_pos_is_pos(wx as int, UNIT as int);
        lemma_div_pos_is_pos(wy as int, UNIT as int);
        lemma_div_is_ordered(wx as int, 1_000_000_000_000_000_000, UNIT as int);
        lemma_div_is_ordered(wy as int, 1_000_000_000_000_000_000, UNIT as int);
    }
    let hx = (((wx as u64) / (UNIT as u64)) / 2) as i64;
    let hy = (((wy as u64) / (UNIT as u64)) / 2) as i64;
    let bx = h.translation.x - hx <= p.x && p.x <= h.translation.x + hx;
    let by = h.translation.y - hy <= p.y && p.y <= h.translation.y + hy;
    bx && by
}

/// Reports every hoverable entity whose box contains the world cursor; a
/// frame without a resolved cursor reports nothing.
pub fn check_hover_system(cursor_world: Option<Vec2I>, hoverables: &Vec<Hoverable>) -> (events: Vec<
    HoveredEvent,
>)
    requires
        forall|i: int| 0 <= i < hoverables@.len() ==> (#[trigger] hoverables@[i]).wf(),
    ensures
        events@ == hover_events(cursor_world, hoverables@),
        cursor_world is None ==> events@.len() == 0,
{
    let mut events: Vec<HoveredEvent> = Vec::new();
    let p = match cursor_world {
        Some(p) => p,
        None => {
            return events;
        },
    };
    let mut i: usize = 0;
    while i < hoverables.len()
        invariant
            0 <= i <= hoverables@.len(),
            cursor_world == Some(p),
            forall|k: int| 0 <= k < hoverables@.len() ==> (#[trigger] hoverables@[k]).wf(),
            events@ == hover_events(cursor_world, hoverables@.subrange(0, i as int)),
        decreases hoverables@.len() - i,
    {
        let h = &hoverables[i];
        if hovered(h, p) {
            events.push(HoveredEvent { entity: h.entity });
        }
        proof {
            let grown = hoverables@.subrange(0, i + 1 as int);
            assert(grown.drop_last() =~= hoverables@.subrange(0, i as int));
            assert(grown.last() == hoverables@[i as int]);
        }
        i += 1;
    }
    proof {
        assert(hoverables@.subrange(0, hoverables@.len() as int) =~= hoverables@);
    }
    events
}

/// Hover detection is a pure function of its frame inputs: two passes over
/// the same cursor and the same entities report the identical events.
pub proof fn lemma_hover_idempotent(
    cursor: Option<Vec2I>,
    hs: Seq<Hoverable>,
    first_pass: Seq<HoveredEvent>,
    second_pass: Seq<HoveredEvent>,
)
    requires
        first_pass == hover_events(cursor, hs),
        second_pass == hover_events(cursor, hs),
    ensures
        first_pass == second_pass,
{
}

/// Every reported event is genuine: it names an entity whose box contains
/// the cursor.
pub proof fn lemma_hover_events_sound(p: Vec2I, hs: Seq<Hoverable>, j: int)
    requires
        0 <= j < hover_events(Some(p), hs).len(),
    ensures
        exists|i: int| 0 <= i < hs.len() && (#[trigger] hs[i]).entity == hover_events(Some(p), hs)[j].entity
            && contains_point(hs[i], p),
    decreases hs.len(),
{
    let evs = hover_events(Some(p), hs);
    let rest = hover_events(Some(p), hs.drop_last());
    if hs.len() == 0 {
    } else if contains_point(hs.last(), p) && j == evs.len() - 1 {
        assert(hs[hs.len() - 1].entity == evs[j].entity && contains_point(hs[hs.len() - 1], p));
    } else {
        lemma_hover_events_sound(p, hs.drop_last(), j);
        let i = choose|i: int|
            0 <= i < hs.drop_last().len() && (#[trigger] hs.drop_last()[i]).entity == rest[j].entity
                && contains_point(hs.drop_last()[i], p);
        assert(hs[i].entity == evs[j].entity && contains_point(hs[i], p));
    }
}

/// No overlap is dropped: every entity whose box contains the cursor is
/// reported — overlapping hoverables all fire, with no topmost-only
/// resolution.
pub proof fn lemma_hover_events_complete(p: Vec2I, hs: Seq<Hoverable>, i: int)
    requires
        0 <= i < hs.len(),
        contains_point(hs[i], p),
    ensures
        exists|j: int| 0 <= j < hover_events(Some(p), hs).len() && hover_events(Some(p), hs)[j].entity
            == hs[i].entity,
    decreases hs.len(),
{
    let evs = hover_events(Some(p), hs);
    let rest = hover_events(Some(p), hs.drop_last());
    if i == hs.len() - 1 {
        assert(evs[evs.len() - 1].entity == hs[i].entity);
    } else {
        lemma_hover_events_complete(p, hs.drop_last(), i);
        let j = choose|j: int| 0 <= j < rest.len() && rest[j].entity == hs.drop_last()[i].entity;
        assert(evs[j].entity == hs[i].entity);
    }
}

/// Containment is closed on both axes: a cursor sitting exactly on an edge
/// of an uninverted box — the pinned axis on an edge, the other axis within
/// its bounds — still counts as hovered.
pub proof fn lemma_hover_boundary_closed(h: Hoverable, p: Vec2I)
    requires
        h.scaled_width() >= 0,
        h.scaled_height() >= 0,
        ((p.x == h.translation.x - h.half_x() || p.x == h.translation.x + h.half_x())
            && h.translation.y - h.half_y() <= p.y <= h.translation.y + h.half_y()) || ((p.y
            == h.translation.y - h.half_y() || p.y == h.translation.y + h.half_y())
            && h.translation.x - h.half_x() <= p.x <= h.translation.x + h.half_x()),
    ensures
        contains_point(h, p),
{
    lemma_half_extents_nonneg(h);
}

/// An uninverted box has nonnegative half-extents, so it always holds at
/// least its own center.
pub proof fn lemma_half_extents_nonneg(h: Hoverable)
    requires
        h.scaled_width() >= 0,
        h.scaled_height() >= 0,
    ensures
        h.half_x() >= 0,
        h.half_y() >= 0,
        contains_point(h, h.translation),
{
    lemma_div_pos_is_pos(h.scaled_width(), UNIT as int);
    lemma_div_pos_is_pos(h.scaled_height(), UNIT as int);
    lemma_div_pos_is_pos(h.scaled_width() / (UNIT as int), 2);
    lemma_div_pos_is_pos(h.scaled_height() / (UNIT as int), 2);
}

/// A mirrored sprite — negative scaled width or height — is never hovered,
/// wherever the cursor is: its inverted box contains nothing.
pub proof fn lemma_mirrored_sprite_never_hovered(h: Hoverable, p: Vec2I)
    requires
        h.scaled_width() < 0 || h.scaled_height() < 0,
    ensures
        !contains_point(h, p),
{
}

} // verus!
