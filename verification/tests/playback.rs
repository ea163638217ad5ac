use bevy_vello::float_bits::prev_f64_bits;
use bevy_vello::playback::{
    boundary_step, restart_placement, BoundaryStep, FramePlacement, Overshoot, PlaybackDirection,
    PlaybackLoopBehavior, PlaybackPlayMode,
};

fn prev_f64(x: f64) -> f64 {
    f64::from_bits(prev_f64_bits(x.to_bits()))
}

#[test]
fn prev_of_three_is_next_smaller_double() {
    assert_eq!(prev_f64(3.0), 2.9999999999999996);
}

#[test]
fn prev_of_positive_zero_is_negative_zero() {
    let p = prev_f64(0.0);
    assert_eq!(p, 0.0);
    assert!(p.is_sign_negative());
}

#[test]
fn prev_of_negative_zero_is_smallest_negative_subnormal() {
    assert_eq!(prev_f64(-0.0), -f64::from_bits(1));
}

#[test]
fn prev_of_negative_values_and_infinities() {
    assert!(prev_f64(-1.0) < -1.0);
    assert_eq!(prev_f64(f64::NEG_INFINITY), f64::NEG_INFINITY);
    assert_eq!(prev_f64(f64::INFINITY), f64::MAX);
    assert_eq!(prev_f64(f64::MIN_POSITIVE) < f64::MIN_POSITIVE, true);
}

#[test]
fn direction_signs_and_defaults() {
    assert_eq!(PlaybackDirection::Normal.sign(), 1);
    assert_eq!(PlaybackDirection::Reverse.sign(), -1);
    assert_eq!(PlaybackDirection::default(), PlaybackDirection::Normal);
    assert_eq!(PlaybackLoopBehavior::default(), PlaybackLoopBehavior::Loop);
    assert_eq!(PlaybackPlayMode::default(), PlaybackPlayMode::Normal);
}

#[test]
fn loop_behavior_counts() {
    assert!(PlaybackLoopBehavior::Loop.keeps_looping(1000));
    assert!(PlaybackLoopBehavior::Amount(2).keeps_looping(1));
    assert!(!PlaybackLoopBehavior::Amount(2).keeps_looping(2));
    assert!(!PlaybackLoopBehavior::DoNotLoop.keeps_looping(0));
    assert_eq!(PlaybackLoopBehavior::DoNotLoop.loops_needed(), 0);
    assert_eq!(PlaybackLoopBehavior::Amount(3).loops_needed(), 3);
    assert_eq!(PlaybackLoopBehavior::Loop.loops_needed(), 0);
}

#[test]
fn within_segment_changes_nothing() {
    let step = boundary_step(
        Overshoot::Within,
        PlaybackLoopBehavior::Loop,
        PlaybackPlayMode::Bounce,
        true,
        4,
    );
    assert_eq!(
        step,
        BoundaryStep {
            loops_completed: 4,
            flip_direction: false,
            start_intermission: false,
            placement: FramePlacement::Unchanged,
        }
    );
}

#[test]
fn looping_past_end_wraps_to_start() {
    let step = boundary_step(
        Overshoot::PastEnd,
        PlaybackLoopBehavior::Loop,
        PlaybackPlayMode::Normal,
        false,
        0,
    );
    assert_eq!(step.loops_completed, 1);
    assert!(!step.flip_direction);
    assert!(!step.start_intermission);
    assert_eq!(step.placement, FramePlacement::WrapFromStart);
}

#[test]
fn looping_before_start_wraps_to_end() {
    let step = boundary_step(
        Overshoot::BeforeStart,
        PlaybackLoopBehavior::Loop,
        PlaybackPlayMode::Normal,
        false,
        3,
    );
    assert_eq!(step.loops_completed, 4);
    assert_eq!(step.placement, FramePlacement::WrapFromEnd);
}

#[test]
fn intermission_holds_the_edge() {
    let step = boundary_step(
        Overshoot::PastEnd,
        PlaybackLoopBehavior::Amount(2),
        PlaybackPlayMode::Normal,
        true,
        1,
    );
    assert_eq!(step.loops_completed, 2);
    assert!(step.start_intermission);
    assert_eq!(step.placement, FramePlacement::End);
}

#[test]
fn exhausted_amount_clamps_without_counting() {
    let step = boundary_step(
        Overshoot::PastEnd,
        PlaybackLoopBehavior::Amount(2),
        PlaybackPlayMode::Normal,
        true,
        2,
    );
    assert_eq!(step.loops_completed, 2);
    assert!(!step.start_intermission);
    assert_eq!(step.placement, FramePlacement::End);
}

#[test]
fn bounce_flips_and_stays_on_edge() {
    let step = boundary_step(
        Overshoot::PastEnd,
        PlaybackLoopBehavior::Loop,
        PlaybackPlayMode::Bounce,
        false,
        0,
    );
    assert!(step.flip_direction);
    assert_eq!(step.placement, FramePlacement::End);
    let step = boundary_step(
        Overshoot::BeforeStart,
        PlaybackLoopBehavior::Loop,
        PlaybackPlayMode::Bounce,
        false,
        1,
    );
    assert!(step.flip_direction);
    assert_eq!(step.placement, FramePlacement::Start);
}

#[test]
fn do_not_loop_clamps() {
    let step = boundary_step(
        Overshoot::BeforeStart,
        PlaybackLoopBehavior::DoNotLoop,
        PlaybackPlayMode::Bounce,
        true,
        0,
    );
    assert_eq!(
        step,
        BoundaryStep {
            loops_completed: 0,
            flip_direction: false,
            start_intermission: false,
            placement: FramePlacement::Start,
        }
    );
}

#[test]
fn restart_follows_direction() {
    assert_eq!(restart_placement(PlaybackDirection::Normal), FramePlacement::Start);
    assert_eq!(restart_placement(PlaybackDirection::Reverse), FramePlacement::End);
}

#[test]
fn do_not_loop_steps_like_zero_loops() {
    for overshoot in [Overshoot::Within, Overshoot::PastEnd, Overshoot::BeforeStart] {
        for mode in [PlaybackPlayMode::Normal, PlaybackPlayMode::Bounce] {
            for intermission in [false, true] {
                for loops in [0usize, 3] {
                    assert_eq!(
                        boundary_step(overshoot, PlaybackLoopBehavior::DoNotLoop, mode, intermission, loops),
                        boundary_step(overshoot, PlaybackLoopBehavior::Amount(0), mode, intermission, loops)
                    );
                }
            }
        }
    }
    assert_eq!(PlaybackLoopBehavior::DoNotLoop.loops_needed(), PlaybackLoopBehavior::Amount(0).loops_needed());
}

#[test]
fn steps_never_lose_loops() {
    for overshoot in [Overshoot::Within, Overshoot::PastEnd, Overshoot::BeforeStart] {
        for looping in [PlaybackLoopBehavior::Loop, PlaybackLoopBehavior::Amount(2), PlaybackLoopBehavior::DoNotLoop] {
            for loops in [0usize, 1, 2, 5] {
                let step = boundary_step(overshoot, looping, PlaybackPlayMode::Bounce, false, loops);
                assert!(loops <= step.loops_completed && step.loops_completed <= loops + 1);
                assert!(!step.flip_direction || overshoot != Overshoot::Within);
            }
        }
    }
}
