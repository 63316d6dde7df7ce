//! Sprite animation state machine: each named clip is a contiguous frame
//! range in the sprite atlas, and on every timer tick the active clip
//! advances the atlas index by one, wrapping back to the clip's first frame
//! whenever the index would leave `[first, last)`.

use vstd::prelude::*;

verus! {

/// A contiguous frame range within the sprite atlas, with inclusive bounds.
#[derive(Clone, Copy, Debug, PartialEq, Eq, Structural)]
pub struct AnimationSlice {
    pub first: usize,
    pub last: usize,
}

/// The per-entity animation state: the active key (as an index into the clip
/// table) and one clip per key. The tick cadence itself is the host clock's
/// business; [`animate_sprite`] is handed the elapsed-interval decision.
#[derive(Debug)]
pub struct Animator {
    pub current: usize,
    pub clips: Vec<AnimationSlice>,
}

/// One tick of a clip: if the index sits outside `[first, last)` it is pulled
/// back to `first`, otherwise it moves one frame forward. A key change takes
/// effect lazily through this same rule: the cursor is corrected to the new
/// clip's range only on the next tick, so a frame of the previous clip may
/// show for one tick when the ranges overlap.
pub open spec fn advance_frame(slice: AnimationSlice, index: int) -> int {
    if index < slice.first || index >= slice.last {
        slice.first as int
    } else {
        index + 1
    }
}

/// What one call of [`animate_sprite`] yields: the index is untouched unless
/// the timer interval elapsed and the active key has a clip.
pub open spec fn animator_tick(a: Animator, timer_finished: bool, index: int) -> int {
    if !timer_finished {
        index
    } else if a.current >= a.clips@.len() {
        index
    } else {
        advance_frame(a.clips@[a.current as int], index)
    }
}

/// Advances the sprite's atlas index by one tick of the active clip; a tick
/// on which the timer interval has not elapsed, or whose active key has no
/// clip, leaves the index alone.
pub fn animate_sprite(animator: &Animator, timer_finished: bool, atlas_index: usize) -> (next: usize)
    ensures
        next == animator_tick(*animator, timer_finished, atlas_index as int),
{
    if !timer_finished {
        return atlas_index;
    }
    if animator.current >= animator.clips.len() {
        return atlas_index;
    }
    let slice = animator.clips[animator.current];
    if atlas_index < slice.first || atlas_index >= slice.last {
        slice.first
    } else {
        atlas_index + 1
    }
}

/// A single-frame clip (`first == last`) never advances: every tick lands on
/// `first` again, whatever the index was before.
pub proof fn lemma_static_clip_resets(slice: AnimationSlice, index: int)
    requires
        slice.first == slice.last,
    ensures
        advance_frame(slice, index) == slice.first,
{
}

/// After any tick of a clip with ordered bounds the index lies inside the
/// clip's inclusive range, wherever it was before — the cursor invariant of
/// the animation state.
pub proof fn lemma_advance_frame_in_range(slice: AnimationSlice, index: int)
    requires
        slice.first <= slice.last,
    ensures
        slice.first <= advance_frame(slice, index) <= slice.last,
{
}

} // verus!
