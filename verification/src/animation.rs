//! Animation styles and the frames of a moving rectangle.
//!
//! The daemon asks an [`Animation`] for the rectangle of frame `n` and hands
//! that to `SetWindowPos`; this module never sleeps and never knows what time it
//! is. The easing curves themselves are floating point and belong to the caller:
//! a frame is asked for with the rectangle its curve gives.

use std::time::Duration;

use vstd::prelude::*;

use crate::error::{Error, Result};
use crate::geometry::Rect;
use crate::seqs::{first_idx, first_is, first_is_none};
use crate::text::{lower, owned, same_ignoring_case, squash, squashed};

verus! {

/// The default animation length in milliseconds.
pub const DEFAULT_DURATION_MS: u64 = 250;

/// The default animation frame rate.
pub const DEFAULT_FPS: u32 = 60;

/// A standard easing curve.
///
/// The names are the ones from easings.net, and the ones a config file uses, as
/// in `"style": "EaseOutQuad"`.
#[derive(Debug, Clone, Copy, PartialEq, Eq, Hash, Structural)]
#[non_exhaustive]
pub enum AnimationStyle {
    /// No easing at all.
    Linear,
    /// Sine, slow start.
    EaseInSine,
    /// Sine, slow end.
    EaseOutSine,
    /// Sine, slow at both ends.
    EaseInOutSine,
    /// Quadratic, slow start.
    EaseInQuad,
    /// Quadratic, slow end. The usual choice for window movement.
    EaseOutQuad,
    /// Quadratic, slow at both ends.
    EaseInOutQuad,
    /// Cubic, slow start.
    EaseInCubic,
    /// Cubic, slow end.
    EaseOutCubic,
    /// Cubic, slow at both ends.
    EaseInOutCubic,
    /// Quartic, slow start.
    EaseInQuart,
    /// Quartic, slow end.
    EaseOutQuart,
    /// Quartic, slow at both ends.
    EaseInOutQuart,
    /// Quintic, slow start.
    EaseInQuint,
    /// Quintic, slow end.
    EaseOutQuint,
    /// Quintic, slow at both ends.
    EaseInOutQuint,
    /// Exponential, slow start.
    EaseInExpo,
    /// Exponential, slow end.
    EaseOutExpo,
    /// Exponential, slow at both ends.
    EaseInOutExpo,
    /// Circular, slow start.
    EaseInCirc,
    /// Circular, slow end.
    EaseOutCirc,
    /// Circular, slow at both ends.
    EaseInOutCirc,
    /// Overshoots backwards at the start.
    EaseInBack,
    /// Overshoots forwards at the end.
    EaseOutBack,
    /// Overshoots at both ends.
    EaseInOutBack,
    /// Springs at the start.
    EaseInElastic,
    /// Springs at the end.
    EaseOutElastic,
    /// Springs at both ends.
    EaseInOutElastic,
    /// Bounces at the start.
    EaseInBounce,
    /// Bounces at the end.
    EaseOutBounce,
    /// Bounces at both ends.
    EaseInOutBounce,
}

impl Default for AnimationStyle {
    fn default() -> (r: Self)
        ensures
            r == AnimationStyle::Linear,
    {
        AnimationStyle::Linear
    }
}

/// Holds of the style a text spells: its ASCII letters and digits, in any case.
pub open spec fn is_spelled(text: Seq<char>) -> spec_fn(AnimationStyle) -> bool {
    |style: AnimationStyle| lower(style.name()) == lower(squashed(text))
}

impl AnimationStyle {
    /// Every style, in declaration order.
    pub const ALL: [AnimationStyle; 31] = [
        AnimationStyle::Linear,
        AnimationStyle::EaseInSine,
        AnimationStyle::EaseOutSine,
        AnimationStyle::EaseInOutSine,
        AnimationStyle::EaseInQuad,
        AnimationStyle::EaseOutQuad,
        AnimationStyle::EaseInOutQuad,
        AnimationStyle::EaseInCubic,
        AnimationStyle::EaseOutCubic,
        AnimationStyle::EaseInOutCubic,
        AnimationStyle::EaseInQuart,
        AnimationStyle::EaseOutQuart,
        AnimationStyle::EaseInOutQuart,
        AnimationStyle::EaseInQuint,
        AnimationStyle::EaseOutQuint,
        AnimationStyle::EaseInOutQuint,
        AnimationStyle::EaseInExpo,
        AnimationStyle::EaseOutExpo,
        AnimationStyle::EaseInOutExpo,
        AnimationStyle::EaseInCirc,
        AnimationStyle::EaseOutCirc,
        AnimationStyle::EaseInOutCirc,
        AnimationStyle::EaseInBack,
        AnimationStyle::EaseOutBack,
        AnimationStyle::EaseInOutBack,
        AnimationStyle::EaseInElastic,
        AnimationStyle::EaseOutElastic,
        AnimationStyle::EaseInOutElastic,
        AnimationStyle::EaseInBounce,
        AnimationStyle::EaseOutBounce,
        AnimationStyle::EaseInOutBounce,
    ];

    /// The name of the style.
    pub open spec fn name(self) -> Seq<char> {
        match self {
            AnimationStyle::Linear => "Linear"@,
            AnimationStyle::EaseInSine => "EaseInSine"@,
            AnimationStyle::EaseOutSine => "EaseOutSine"@,
            AnimationStyle::EaseInOutSine => "EaseInOutSine"@,
            AnimationStyle::EaseInQuad => "EaseInQuad"@,
            AnimationStyle::EaseOutQuad => "EaseOutQuad"@,
            AnimationStyle::EaseInOutQuad => "EaseInOutQuad"@,
            AnimationStyle::EaseInCubic => "EaseInCubic"@,
            AnimationStyle::EaseOutCubic => "EaseOutCubic"@,
            AnimationStyle::EaseInOutCubic => "EaseInOutCubic"@,
            AnimationStyle::EaseInQuart => "EaseInQuart"@,
            AnimationStyle::EaseOutQuart => "EaseOutQuart"@,
            AnimationStyle::EaseInOutQuart => "EaseInOutQuart"@,
            AnimationStyle::EaseInQuint => "EaseInQuint"@,
            AnimationStyle::EaseOutQuint => "EaseOutQuint"@,
            AnimationStyle::EaseInOutQuint => "EaseInOutQuint"@,
            AnimationStyle::EaseInExpo => "EaseInExpo"@,
            AnimationStyle::EaseOutExpo => "EaseOutExpo"@,
            AnimationStyle::EaseInOutExpo => "EaseInOutExpo"@,
            AnimationStyle::EaseInCirc => "EaseInCirc"@,
            AnimationStyle::EaseOutCirc => "EaseOutCirc"@,
            AnimationStyle::EaseInOutCirc => "EaseInOutCirc"@,
            AnimationStyle::EaseInBack => "EaseInBack"@,
            AnimationStyle::EaseOutBack => "EaseOutBack"@,
            AnimationStyle::EaseInOutBack => "EaseInOutBack"@,
            AnimationStyle::EaseInElastic => "EaseInElastic"@,
            AnimationStyle::EaseOutElastic => "EaseOutElastic"@,
            AnimationStyle::EaseInOutElastic => "EaseInOutElastic"@,
            AnimationStyle::EaseInBounce => "EaseInBounce"@,
            AnimationStyle::EaseOutBounce => "EaseOutBounce"@,
            AnimationStyle::EaseInOutBounce => "EaseInOutBounce"@,
        }
    }

    /// The name of the style.
    pub fn to_string(&self) -> (r: String)
        ensures
            r@ == self.name(),
    {
        match self {
            AnimationStyle::Linear => owned("Linear"),
            AnimationStyle::EaseInSine => owned("EaseInSine"),
            AnimationStyle::EaseOutSine => owned("EaseOutSine"),
            AnimationStyle::EaseInOutSine => owned("EaseInOutSine"),
            AnimationStyle::EaseInQuad => owned("EaseInQuad"),
            AnimationStyle::EaseOutQuad => owned("EaseOutQuad"),
            AnimationStyle::EaseInOutQuad => owned("EaseInOutQuad"),
            AnimationStyle::EaseInCubic => owned("EaseInCubic"),
            AnimationStyle::EaseOutCubic => owned("EaseOutCubic"),
            AnimationStyle::EaseInOutCubic => owned("EaseInOutCubic"),
            AnimationStyle::EaseInQuart => owned("EaseInQuart"),
            AnimationStyle::EaseOutQuart => owned("EaseOutQuart"),
            AnimationStyle::EaseInOutQuart => owned("EaseInOutQuart"),
            AnimationStyle::EaseInQuint => owned("EaseInQuint"),
            AnimationStyle::EaseOutQuint => owned("EaseOutQuint"),
            AnimationStyle::EaseInOutQuint => owned("EaseInOutQuint"),
            AnimationStyle::EaseInExpo => owned("EaseInExpo"),
            AnimationStyle::EaseOutExpo => owned("EaseOutExpo"),
            AnimationStyle::EaseInOutExpo => owned("EaseInOutExpo"),
            AnimationStyle::EaseInCirc => owned("EaseInCirc"),
            AnimationStyle::EaseOutCirc => owned("EaseOutCirc"),
            AnimationStyle::EaseInOutCirc => owned("EaseInOutCirc"),
            AnimationStyle::EaseInBack => owned("EaseInBack"),
            AnimationStyle::EaseOutBack => owned("EaseOutBack"),
            AnimationStyle::EaseInOutBack => owned("EaseInOutBack"),
            AnimationStyle::EaseInElastic => owned("EaseInElastic"),
            AnimationStyle::EaseOutElastic => owned("EaseOutElastic"),
            AnimationStyle::EaseInOutElastic => owned("EaseInOutElastic"),
            AnimationStyle::EaseInBounce => owned("EaseInBounce"),
            AnimationStyle::EaseOutBounce => owned("EaseOutBounce"),
            AnimationStyle::EaseInOutBounce => owned("EaseInOutBounce"),
        }
    }

    /// The style a text names: the first one it spells.
    pub open spec fn named(text: Seq<char>) -> Option<AnimationStyle> {
        match first_idx(AnimationStyle::ALL@, is_spelled(text)) {
            Some(idx) => Some(AnimationStyle::ALL@[idx]),
            None => None,
        }
    }

    /// Reads a style from its name, in any case and with any punctuation.
    ///
    /// # Errors
    ///
    /// Returns [`Error::Parse`] for a text that names no style.
    pub fn parse(s: &str) -> (r: Result<Self>)
        ensures
            match r {
                Ok(style) => AnimationStyle::named(s@) == Some(style),
                Err(e) => AnimationStyle::named(s@) is None && e.is_parse("animation style"@, s@),
            },
    {
        let word = squash(s);
        let ghost all = AnimationStyle::ALL@;
        let styles = AnimationStyle::ALL;
        for i in 0..styles.len()
            invariant
                styles@ == AnimationStyle::ALL@,
                all == AnimationStyle::ALL@,
                word@ == squashed(s@),
                forall|j: int| 0 <= j < i ==> !is_spelled(s@)(#[trigger] all[j]),
        {
            let name = styles[i].to_string();
            if same_ignoring_case(name.as_str(), word.as_str()) {
                proof {
                    first_is(all, is_spelled(s@), i as int);
                }
                return Ok(styles[i]);
            }
        }
        proof {
            first_is_none(all, is_spelled(s@));
        }
        Err(Error::Parse { kind: "animation style", value: owned(s) })
    }
}

impl std::str::FromStr for AnimationStyle {
    type Err = Error;

    fn from_str(s: &str) -> (r: Result<Self>)
        ensures
            match r {
                Ok(style) => AnimationStyle::named(s@) == Some(style),
                Err(e) => AnimationStyle::named(s@) is None && e.is_parse("animation style"@, s@),
            },
    {
        AnimationStyle::parse(s)
    }
}

/// A time span of that many milliseconds.
pub uninterp spec fn span_of_millis(millis: u64) -> Duration;

/// A time span of that many nanoseconds.
pub uninterp spec fn span_of_nanos(nanos: u64) -> Duration;

/// `Duration::from_millis`. Claimed: the span is fixed by the number, and is the
/// span of a million times as many nanoseconds where that many can be named.
pub assume_specification[ Duration::from_millis ](millis: u64) -> (r: Duration)
    ensures
        r == span_of_millis(millis),
        millis * 1_000_000 <= u64::MAX ==> r == span_of_nanos((millis * 1_000_000) as u64),
;

/// `Duration::from_nanos`. Claimed: the span is fixed by the number.
pub assume_specification[ Duration::from_nanos ](nanos: u64) -> (r: Duration)
    ensures
        r == span_of_nanos(nanos),
;

/// The number of frames of an animation, the start and the end included: one for
/// every started frame interval and one for the end, at least two, and at most
/// as many as an index can count.
pub open spec fn frames_in(duration_ms: int, fps: int) -> int {
    let steps = (duration_ms * fps + 999) / 1000;
    let steps = if steps < 1 {
        1
    } else {
        steps
    };
    if steps + 1 > usize::MAX {
        usize::MAX as int
    } else {
        steps + 1
    }
}

/// A rectangle moving from one place to another over a fixed number of frames.
#[derive(Debug, Clone, Copy, PartialEq)]
pub struct Animation {
    start: Rect,
    end: Rect,
    duration_ms: u64,
    fps: u32,
    style: AnimationStyle,
}

impl Animation {
    /// The rectangle the animation starts from.
    pub closed spec fn from_rect(&self) -> Rect {
        self.start
    }

    /// The rectangle the animation ends at.
    pub closed spec fn to_rect(&self) -> Rect {
        self.end
    }

    /// How long the animation takes, in milliseconds.
    pub closed spec fn millis(&self) -> int {
        self.duration_ms as int
    }

    /// The frames per second.
    pub closed spec fn rate(&self) -> int {
        self.fps as int
    }

    /// The configured style.
    pub closed spec fn curve(&self) -> AnimationStyle {
        self.style
    }

    /// The rectangle of one frame, given the one the easing curve leads to.
    pub open spec fn frame_of(&self, idx: int, eased: Rect) -> Rect {
        if idx >= frames_in(self.millis(), self.rate()) - 1 {
            self.to_rect()
        } else if idx == 0 {
            self.from_rect()
        } else {
            eased
        }
    }

    /// `rect` is the rectangle of frame `idx` for what `ease` gives there.
    pub open spec fn is_frame<F: Fn(usize) -> Rect>(&self, ease: F, idx: int, rect: Rect) -> bool {
        exists|eased: Rect|
            #[trigger] call_ensures(ease, (idx as usize,), eased) && rect == self.frame_of(
                idx,
                eased,
            )
    }

    /// There is always time for a frame, and always a frame.
    #[verifier::type_invariant]
    spec fn moves_in_time(self) -> bool {
        self.duration_ms >= 1 && self.fps >= 1
    }

    /// An animation from `start` to `end`.
    ///
    /// `duration_ms` and `fps` are both clamped to at least one, so there is
    /// always at least one frame and the frame interval is never zero.
    #[must_use]
    pub fn new(start: Rect, end: Rect, duration_ms: u64, fps: u32, style: AnimationStyle) -> (r:
        Self)
        ensures
            r.from_rect() == start,
            r.to_rect() == end,
            r.millis() == if duration_ms < 1 {
                1
            } else {
                duration_ms as int
            },
            r.rate() == if fps < 1 {
                1
            } else {
                fps as int
            },
            r.curve() == style,
    {
        Animation {
            start,
            end,
            duration_ms: if duration_ms < 1 {
                1
            } else {
                duration_ms
            },
            fps: if fps < 1 {
                1
            } else {
                fps
            },
            style,
        }
    }

    /// The rectangle the animation starts from.
    #[must_use]
    pub fn start(&self) -> (r: Rect)
        ensures
            r == self.from_rect(),
    {
        self.start
    }

    /// The rectangle the animation ends at.
    #[must_use]
    pub fn end(&self) -> (r: Rect)
        ensures
            r == self.to_rect(),
    {
        self.end
    }

    /// The configured style.
    #[must_use]
    pub fn style(&self) -> (r: AnimationStyle)
        ensures
            r == self.curve(),
    {
        self.style
    }

    /// How long the whole animation takes.
    #[must_use]
    pub fn duration(&self) -> (r: Duration)
        ensures
            r == span_of_millis(self.millis() as u64),
    {
        Duration::from_millis(self.duration_ms)
    }

    /// How long to wait between two frames.
    #[must_use]
    pub fn frame_interval(&self) -> (r: Duration)
        ensures
            r == span_of_nanos((1_000_000_000int / self.rate()) as u64),
            self.rate() >= 1,
    {
        proof {
            use_type_invariant(self);
        }
        Duration::from_nanos(1_000_000_000 / (self.fps as u64))
    }

    /// The number of frames, including the final one.
    ///
    /// Always at least two: the start and the end.
    #[must_use]
    pub fn frame_count(&self) -> (r: usize)
        ensures
            r == frames_in(self.millis(), self.rate()),
            r >= 2,
    {
        assert(0 <= self.duration_ms * self.fps <= u64::MAX * u32::MAX) by (nonlinear_arith)
            requires
                0 <= self.duration_ms <= u64::MAX,
                0 <= self.fps <= u32::MAX,
        ;
        let product: u128 = self.duration_ms as u128 * self.fps as u128;
        let steps: u128 = (product + 999) / 1000;
        let steps: u128 = if steps < 1 {
            1
        } else {
            steps
        };
        if steps + 1 > usize::MAX as u128 {
            usize::MAX
        } else {
            (steps + 1) as usize
        }
    }

    /// The rectangle of frame `idx`, given the one the easing curve leads to.
    ///
    /// Frame `0` is the start rectangle and the last frame is exactly the end
    /// rectangle, however the easing curve behaves in between. Asking for a
    /// frame past the end returns the end rectangle.
    #[must_use]
    pub fn frame(&self, idx: usize, eased: Rect) -> (r: Rect)
        ensures
            r == self.frame_of(idx as int, eased),
    {
        let last = self.frame_count() - 1;
        if idx >= last {
            return self.end;
        }
        if idx == 0 {
            return self.start;
        }
        eased
    }

    /// Every frame, from the start rectangle to the end rectangle. `ease` gives
    /// the rectangle the easing curve leads to at a frame.
    #[must_use]
    pub fn frames<F: Fn(usize) -> Rect>(&self, ease: F) -> (r: Vec<Rect>)
        requires
            forall|idx: usize| call_requires(ease, (idx,)),
        ensures
            r@.len() == frames_in(self.millis(), self.rate()),
            r@.len() >= 2,
            r@.first() == self.from_rect(),
            r@.last() == self.to_rect(),
            forall|idx: int| 0 <= idx < r@.len() ==> self.is_frame(ease, idx, #[trigger] r@[idx]),
    {
        let count = self.frame_count();
        let mut frames: Vec<Rect> = Vec::new();
        for idx in 0..count
            invariant
                count == frames_in(self.millis(), self.rate()),
                forall|idx: usize| call_requires(ease, (idx,)),
                frames@.len() == idx,
                forall|j: int| 0 <= j < idx ==> self.is_frame(ease, j, #[trigger] frames@[j]),
        {
            let eased = ease(idx);
            let frame = self.frame(idx, eased);
            assert(self.is_frame(ease, idx as int, frame));
            frames.push(frame);
        }
        frames
    }
}

/// An animation has a frame for every started frame interval and one more for the
/// end, as far as an index can count them: the last frame but one is shown before
/// the time is up, and the last one when it is.
pub proof fn the_frames_fill_the_time(animation: Animation)
    requires
        animation.millis() >= 1,
        animation.rate() >= 1,
    ensures
        ({
            let count = frames_in(animation.millis(), animation.rate());
            let time = animation.millis() * animation.rate();
            &&& count >= 2
            &&& 1000 * (count - 2) < time
            &&& time <= 1000 * (usize::MAX - 1) ==> time <= 1000 * (count - 1)
        }),
{
    assert(animation.millis() * animation.rate() >= 1) by (nonlinear_arith)
        requires
            animation.millis() >= 1,
            animation.rate() >= 1,
    ;
}

/// The frames of an animation along a curve, which gives the rectangle of every
/// frame between the first and the last one: as many as are counted, each of them
/// the frame of its index, the first one the start and the last one the end.
pub proof fn the_frames_follow_the_curve<F: Fn(usize) -> Rect>(
    animation: Animation,
    ease: F,
    curve: spec_fn(int) -> Rect,
    frames: Seq<Rect>,
)
    requires
        animation.millis() >= 1,
        animation.rate() >= 1,
        forall|idx: usize, eased: Rect|
            #[trigger] call_ensures(ease, (idx,), eased) ==> eased == curve(idx as int),
        frames.len() == frames_in(animation.millis(), animation.rate()),
        forall|idx: int|
            0 <= idx < frames.len() ==> animation.is_frame(ease, idx, #[trigger] frames[idx]),
    ensures
        frames == Seq::new(
            frames_in(animation.millis(), animation.rate()) as nat,
            |idx: int| animation.frame_of(idx, curve(idx)),
        ),
        frames.first() == animation.from_rect(),
        frames.last() == animation.to_rect(),
{
    assert forall|idx: int| 0 <= idx < frames.len() implies #[trigger] frames[idx]
        == animation.frame_of(idx, curve(idx)) by {
        assert(animation.is_frame(ease, idx, frames[idx]));
    }
}

/// Every animation starts on its first rectangle and ends on its last one, and
/// stays there.
pub proof fn the_first_and_last_frames_are_exact(animation: Animation, idx: int, eased: Rect)
    requires
        animation.millis() >= 1,
        animation.rate() >= 1,
    ensures
        animation.frame_of(0, eased) == animation.from_rect(),
        idx >= frames_in(animation.millis(), animation.rate()) - 1 ==> animation.frame_of(idx, eased)
            == animation.to_rect(),
        frames_in(animation.millis(), animation.rate()) >= 2,
{
}

} // verus!
