use depths::animation::{animate_sprite, AnimationSlice, Animator};
use depths::enemy::{spawn_playerFish, FishAnimation};
use depths::player::{setup_player, PlayerAnimation};

fn animator(current: usize, clips: Vec<AnimationSlice>) -> Animator {
    Animator { current, clips }
}

#[test]
fn static_clip_always_resets() {
    // A clip with first == last never advances: every tick lands on `first`.
    let a = animator(0, vec![AnimationSlice { first: 2, last: 2 }]);
    assert_eq!(animate_sprite(&a, true, 2), 2);
    assert_eq!(animate_sprite(&a, true, 5), 2);
    assert_eq!(animate_sprite(&a, true, 0), 2);
}

#[test]
fn clip_advances_and_wraps() {
    // Swimming-style clip on frames 3..=5: the index walks 3, 4, 5 and wraps
    // back to 3 once it would leave [3, 5).
    let a = animator(0, vec![AnimationSlice { first: 3, last: 5 }]);
    assert_eq!(animate_sprite(&a, true, 3), 4);
    assert_eq!(animate_sprite(&a, true, 4), 5);
    assert_eq!(animate_sprite(&a, true, 5), 3);
    // an index below the clip is pulled up to first
    assert_eq!(animate_sprite(&a, true, 1), 3);
}

#[test]
fn no_tick_no_advance() {
    let a = animator(0, vec![AnimationSlice { first: 0, last: 4 }]);
    assert_eq!(animate_sprite(&a, false, 2), 2);
}

#[test]
fn missing_clip_leaves_index() {
    // An active key without a clip leaves the sprite alone.
    let a = animator(3, vec![AnimationSlice { first: 0, last: 4 }]);
    assert_eq!(animate_sprite(&a, true, 2), 2);
}

#[test]
fn key_switch_is_lazy() {
    // Switching keys does not reset the cursor; the next tick corrects it.
    // With overlapping ranges the old index may simply advance within the
    // new clip for one tick.
    let overlapping = animator(1, vec![
        AnimationSlice { first: 1, last: 4 },
        AnimationSlice { first: 0, last: 2 },
    ]);
    // index 1 came from the first clip but lies inside [0, 2), so it advances
    assert_eq!(animate_sprite(&overlapping, true, 1), 2);
    // with disjoint ranges the old index is clamped to the new first frame
    let disjoint = animator(1, vec![
        AnimationSlice { first: 3, last: 5 },
        AnimationSlice { first: 0, last: 1 },
    ]);
    assert_eq!(animate_sprite(&disjoint, true, 4), 0);
}

#[test]
fn player_clip_table() {
    let a = setup_player();
    assert_eq!(a.current, PlayerAnimation::Idle.index());
    assert_eq!(a.clips.len(), 3);
    assert_eq!(a.clips[PlayerAnimation::Idle.index()], AnimationSlice { first: 0, last: 1 });
    assert_eq!(a.clips[PlayerAnimation::Trackted.index()], AnimationSlice { first: 2, last: 2 });
    assert_eq!(a.clips[PlayerAnimation::Swimming.index()], AnimationSlice { first: 3, last: 5 });
}

#[test]
fn fish_clip_table() {
    let a = spawn_playerFish();
    assert_eq!(a.current, FishAnimation::Idle.index());
    assert_eq!(a.clips.len(), 2);
    assert_eq!(a.clips[FishAnimation::Idle.index()], AnimationSlice { first: 0, last: 1 });
    assert_eq!(a.clips[FishAnimation::Attack.index()], AnimationSlice { first: 2, last: 2 });
}

#[test]
fn towed_clip_is_static() {
    // The towed key pins the sprite to frame 2 whatever it showed before.
    let mut a = setup_player();
    a.current = PlayerAnimation::Trackted.index();
    assert_eq!(animate_sprite(&a, true, 4), 2);
    assert_eq!(animate_sprite(&a, true, 2), 2);
}
