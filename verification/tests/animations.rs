//! Frames of an animation.

use std::str::FromStr;
use std::time::Duration;

use mochi::animation::{Animation, AnimationStyle};
use mochi::geometry::Rect;

/// The rectangle `t` of the way between the two ends of an animation.
fn between(animation: &Animation, t: f64) -> Rect {
    let (from, to) = (animation.start(), animation.end());
    let mix = |a: i32, b: i32| a + (f64::from(b - a) * t).round() as i32;
    Rect::new(
        mix(from.left, to.left),
        mix(from.top, to.top),
        mix(from.right, to.right),
        mix(from.bottom, to.bottom),
    )
}

/// Where a straight line leads at frame `idx`.
fn linear(animation: &Animation, idx: usize) -> Rect {
    between(animation, idx as f64 / (animation.frame_count() - 1) as f64)
}

/// Where the back curve leads at frame `idx`.
fn in_out_back(animation: &Animation, idx: usize) -> Rect {
    let t = idx as f64 / (animation.frame_count() - 1) as f64;
    let c2 = 1.70158 * 1.525;
    let eased = if t < 0.5 {
        ((2.0 * t).powi(2) * ((c2 + 1.0) * 2.0 * t - c2)) / 2.0
    } else {
        ((2.0 * t - 2.0).powi(2) * ((c2 + 1.0) * (2.0 * t - 2.0) + c2) + 2.0) / 2.0
    };
    between(animation, eased.clamp(0.0, 1.0))
}

const A: Rect = Rect { left: 0, top: 0, right: 100, bottom: 100 };
const B: Rect = Rect { left: 900, top: 500, right: 1900, bottom: 1100 };

#[test]
fn frame_counts_follow_duration_and_fps() {
    assert_eq!(
        Animation::new(A, B, 250, 60, AnimationStyle::Linear).frame_count(),
        16
    );
    assert_eq!(
        Animation::new(A, B, 1000, 60, AnimationStyle::Linear).frame_count(),
        61
    );
    assert_eq!(
        Animation::new(A, B, 16, 60, AnimationStyle::Linear).frame_count(),
        2
    );
    assert_eq!(
        Animation::new(A, B, 0, 0, AnimationStyle::Linear).frame_count(),
        2,
        "a zero duration still has a start and an end"
    );
}

#[test]
fn the_first_and_last_frames_are_exact() {
    for style in AnimationStyle::ALL {
        let animation = Animation::new(A, B, 250, 60, style);
        assert_eq!(animation.frame(0, linear(&animation, 0)), A, "{style:?}");
        assert_eq!(animation.frame(animation.frame_count() - 1, linear(&animation, animation.frame_count() - 1)), B, "{style:?}");
        assert_eq!(animation.frame(9_999, linear(&animation, 9_999)), B, "{style:?} past the end");
    }
}

#[test]
fn frames_walk_from_start_to_end() {
    let animation = Animation::new(A, B, 250, 60, AnimationStyle::Linear);
    let frames = animation.frames(|idx| linear(&animation, idx));
    assert_eq!(frames.len(), animation.frame_count());
    assert_eq!(frames[0], A);
    assert_eq!(frames[frames.len() - 1], B);
    for pair in frames.windows(2) {
        assert!(pair[1].left >= pair[0].left, "linear never goes backwards");
    }
}

#[test]
fn a_linear_animation_is_half_way_in_the_middle() {
    let animation = Animation::new(
        Rect::new(0, 0, 100, 100),
        Rect::new(100, 100, 200, 200),
        1000,
        2,
        AnimationStyle::Linear,
    );
    assert_eq!(animation.frame_count(), 3);
    assert_eq!(animation.frame(1, linear(&animation, 1)), Rect::new(50, 50, 150, 150));
}

#[test]
fn accessors_report_what_was_configured() {
    let animation = Animation::new(A, B, 250, 60, AnimationStyle::EaseOutQuad);
    assert_eq!(animation.start(), A);
    assert_eq!(animation.end(), B);
    assert_eq!(animation.style(), AnimationStyle::EaseOutQuad);
    assert_eq!(animation.duration(), Duration::from_millis(250));
    assert_eq!(animation.frame_interval(), Duration::from_nanos(16_666_666));
}

#[test]
fn an_animation_that_does_not_move_stays_put() {
    let animation = Animation::new(A, A, 250, 60, AnimationStyle::EaseInOutBack);
    let frames = animation.frames(|idx| in_out_back(&animation, idx));
    assert!(frames.iter().all(|r| *r == A));
}

#[test]
fn styles_parse_from_cli_words() {
    assert_eq!(
        AnimationStyle::from_str("ease-out-quad"),
        Ok(AnimationStyle::EaseOutQuad)
    );
    assert_eq!(
        AnimationStyle::from_str("EaseInOutBounce"),
        Ok(AnimationStyle::EaseInOutBounce)
    );
    assert!(AnimationStyle::from_str("wobble").is_err());
    assert_eq!(AnimationStyle::EaseOutQuad.to_string(), "EaseOutQuad");
}

#[test]
fn every_frame_is_the_frame_of_its_index() {
    for (ms, fps, count) in [(1, 1, 2), (250, 60, 16), (1000, 60, 61), (1001, 1, 3), (0, 0, 2)] {
        let animation = Animation::new(A, B, ms, fps, AnimationStyle::EaseInOutBack);
        let frames = animation.frames(|idx| in_out_back(&animation, idx));
        assert_eq!(frames.len(), count, "{ms} ms at {fps}");
        assert_eq!(frames.len(), animation.frame_count());
        assert_eq!(frames.first(), Some(&A));
        assert_eq!(frames.last(), Some(&B));
        for (idx, frame) in frames.iter().enumerate() {
            assert_eq!(animation.frame(idx, in_out_back(&animation, idx)), *frame);
        }
        for idx in count - 1..count + 3 {
            assert_eq!(animation.frame(idx, in_out_back(&animation, idx)), B);
        }
    }
}
