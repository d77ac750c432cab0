//! A push button: hover and press state, the animation between its three
//! looks, and what its drawing needs computed.

use crate::buffer::copy_range;
use crate::checkbox::PROGRESS_FULL;
use crate::geometry::{Point, Rect};
use crate::input::FrameInput;
use crate::metrics::GlyphMetrics;
use vstd::prelude::*;
use vstd::string::StringExecFns;

verus! {

/// Progress at which a button looks hovered; at `PROGRESS_FULL` it looks
/// pressed, at nothing it looks at rest.
pub const PROGRESS_HOVER: u32 = 500_000;

/// Progress that a button gains or loses in a microsecond.
pub const BUTTON_SPEED: u64 = 8;

/// A colour: red, green, blue and opacity.
#[derive(Clone, Copy, Debug, PartialEq, Eq, Structural)]
pub struct Color {
    pub r: u8,
    pub g: u8,
    pub b: u8,
    pub a: u8,
}

/// A push button.
#[derive(Debug)]
pub struct Button {
    pub bounds: Rect,
    pub label: String,
    /// The pointer is on the button.
    pub is_hovered: bool,
    /// The left mouse button is down on the button.
    pub is_pressed: bool,
    /// Where the look of the button stands between rest, hover and press,
    /// in millionths.
    pub animation_progress: u32,
    pub enabled: bool,
}

/// A colour channel a share `t` of the way from `from` to `to`, rounded
/// down. `t` counts in millionths and is held at a whole.
pub open spec fn mixed(from: u8, to: u8, t: int) -> int {
    let share = if t < 0 {
        0
    } else if t > PROGRESS_FULL {
        PROGRESS_FULL as int
    } else {
        t
    };
    (from * (PROGRESS_FULL - share) + to * share) / (PROGRESS_FULL as int)
}

/// The colour a share `t` of the way from `from` to `to`.
pub open spec fn blended(from: Color, to: Color, t: int) -> Color {
    Color {
        r: mixed(from.r, to.r, t) as u8,
        g: mixed(from.g, to.g, t) as u8,
        b: mixed(from.b, to.b, t) as u8,
        a: mixed(from.a, to.a, t) as u8,
    }
}

/// The fill of a button at `progress`: from `rest` to `hover` in the first
/// half of the animation, from `hover` to `pressed` in the second.
pub open spec fn shaded(rest: Color, hover: Color, pressed: Color, progress: int) -> Color {
    if progress <= PROGRESS_HOVER {
        blended(rest, hover, progress * 2)
    } else {
        blended(hover, pressed, (progress - PROGRESS_HOVER) * 2)
    }
}

/// A mixed channel lies between its ends.
pub proof fn lemma_mixed_between(from: u8, to: u8, t: int)
    ensures
        from <= to ==> from <= mixed(from, to, t) <= to,
        to <= from ==> to <= mixed(from, to, t) <= from,
        t <= 0 ==> mixed(from, to, t) == from,
        t >= PROGRESS_FULL ==> mixed(from, to, t) == to,
{
    let full = PROGRESS_FULL as int;
    let share = if t < 0 {
        0
    } else if t > PROGRESS_FULL {
        full
    } else {
        t
    };
    let sum = from * (full - share) + to * share;
    assert(from <= to ==> from * full <= sum <= to * full) by (nonlinear_arith)
        requires
            sum == from * (full - share) + to * share,
            0 <= share <= full,
    ;
    assert(to <= from ==> to * full <= sum <= from * full) by (nonlinear_arith)
        requires
            sum == from * (full - share) + to * share,
            0 <= share <= full,
    ;
    assert(from <= to ==> from <= sum / full <= to) by (nonlinear_arith)
        requires
            from <= to ==> from * full <= sum <= to * full,
            full == 1_000_000,
    ;
    assert(to <= from ==> to <= sum / full <= from) by (nonlinear_arith)
        requires
            to <= from ==> to * full <= sum <= from * full,
            full == 1_000_000,
    ;
    if share == 0 {
        assert(sum == from * full) by (nonlinear_arith)
            requires
                sum == from * (full - share) + to * share,
                share == 0,
        ;
        assert((from * full) / full == from) by (nonlinear_arith)
            requires
                full == 1_000_000,
        ;
    }
    if share == full {
        assert(sum == to * full) by (nonlinear_arith)
            requires
                sum == from * (full - share) + to * share,
                share == full,
        ;
        assert((to * full) / full == to) by (nonlinear_arith)
            requires
                full == 1_000_000,
        ;
    }
}

/// A colour channel a share `t` of the way from `from` to `to`.
pub fn mix(from: u8, to: u8, t: u32) -> (channel: u8)
    ensures
        channel == mixed(from, to, t as int),
{
    let share: u64 = if t > PROGRESS_FULL {
        PROGRESS_FULL as u64
    } else {
        t as u64
    };
    proof {
        lemma_mixed_between(from, to, t as int);
    }
    let sum: u64 = from as u64 * (PROGRESS_FULL as u64 - share) + to as u64 * share;
    (sum / PROGRESS_FULL as u64) as u8
}

/// The colour a share `t` of the way from `from` to `to`.
pub fn blend(from: Color, to: Color, t: u32) -> (color: Color)
    ensures
        color == blended(from, to, t as int),
{
    Color {
        r: mix(from.r, to.r, t),
        g: mix(from.g, to.g, t),
        b: mix(from.b, to.b, t),
        a: mix(from.a, to.a, t),
    }
}

/// The label as it is drawn in `limit` pixels: as it is where it fits,
/// otherwise as many of its characters as fit together with three dots, and
/// the dots.
pub open spec fn fitted(metrics: &GlyphMetrics, label: Seq<char>, limit: int) -> Seq<char> {
    let dots = 3 * metrics.advance('.');
    if metrics.text_width(label) <= limit {
        label
    } else if dots <= limit {
        label.subrange(0, metrics.last_fit(label, 0, label.len() as int, limit - dots)) + seq![
            '.',
            '.',
            '.',
        ]
    } else {
        seq!['.', '.', '.']
    }
}

/// The label as it is drawn in `limit` pixels.
pub fn fit_label(metrics: &GlyphMetrics, label: &Vec<char>, limit: u32) -> (drawn: Vec<char>)
    ensures
        drawn@ == fitted(metrics, label@, limit as int),
{
    let len = label.len();
    let whole = metrics.run_end(label, 0, len, limit);
    proof {
        metrics.lemma_fit_within_last(label@, 0, len as int, limit as int, len as int);
    }
    let dots: u64 = 3 * (metrics.advance_of('.') as u64);
    let kept: usize = if whole == len {
        len
    } else if dots <= limit as u64 {
        metrics.run_end(label, 0, len, (limit as u64 - dots) as u32)
    } else {
        0
    };
    let mut drawn = copy_range(label, 0, kept);
    if whole == len {
        assert(drawn@ == label@);
    } else {
        drawn.push('.');
        drawn.push('.');
        drawn.push('.');
        assert(drawn@ == label@.subrange(0, kept as int) + seq!['.', '.', '.']);
        assert(label@.subrange(0, 0) + seq!['.', '.', '.'] == seq!['.', '.', '.']);
    }
    drawn
}

impl Button {
    /// Whether the left mouse button is down on the button in a frame.
    pub open spec fn pressed_in(&self, mouse: Point, input: FrameInput) -> bool {
        self.bounds.contains(mouse) && input.mouse_left.down
    }

    /// The progress that the look of the button moves to.
    pub open spec fn target(&self, mouse: Point, input: FrameInput) -> int {
        if self.pressed_in(mouse, input) {
            PROGRESS_FULL as int
        } else if self.bounds.contains(mouse) {
            PROGRESS_HOVER as int
        } else {
            0
        }
    }

    /// Progress of an enabled button after a frame: nearer to the target by
    /// what the time of the frame allows, and not beyond it.
    pub open spec fn progress_after(&self, mouse: Point, input: FrameInput) -> int {
        let target = self.target(mouse, input);
        let step = input.frame_time * BUTTON_SPEED;
        if self.animation_progress < target {
            if self.animation_progress + step > target {
                target
            } else {
                self.animation_progress + step
            }
        } else if self.animation_progress > target {
            if self.animation_progress - step < target {
                target
            } else {
                self.animation_progress - step
            }
        } else {
            target
        }
    }

    /// An enabled button at rest.
    pub fn new(x: i32, y: i32, width: i32, height: i32, label: &str) -> (b: Button)
        ensures
            b.bounds == (Rect { x, y, width, height }),
            b.label@ == label@,
            !b.is_hovered,
            !b.is_pressed,
            b.animation_progress == 0,
            b.enabled,
    {
        Button {
            bounds: Rect::new(x, y, width, height),
            label: String::from_str(label),
            is_hovered: false,
            is_pressed: false,
            animation_progress: 0,
            enabled: true,
        }
    }

    /// One frame: finds out whether the pointer is on the button and the
    /// mouse button down on it, and moves the animation on. A disabled
    /// button is neither hovered nor pressed, and its animation rests.
    pub fn update(&mut self, mouse: Point, input: &FrameInput)
        ensures
            final(self).is_hovered == (old(self).enabled && old(self).bounds.contains(mouse)),
            final(self).is_pressed == (old(self).enabled && old(self).pressed_in(mouse, *input)),
            final(self).animation_progress == if old(self).enabled {
                old(self).progress_after(mouse, *input)
            } else {
                old(self).animation_progress as int
            },
            final(self).bounds == old(self).bounds,
            final(self).label == old(self).label,
            final(self).enabled == old(self).enabled,
            old(self).animation_progress <= PROGRESS_FULL ==> final(self).animation_progress
                <= PROGRESS_FULL,
    {
        if !self.enabled {
            self.is_hovered = false;
            self.is_pressed = false;
            return ;
        }
        self.is_hovered = self.bounds.check_collision_point_rec(mouse);
        self.is_pressed = self.is_hovered && input.mouse_left.down;
        let target: u64 = if self.is_pressed {
            PROGRESS_FULL as u64
        } else if self.is_hovered {
            PROGRESS_HOVER as u64
        } else {
            0
        };
        let step: u64 = input.frame_time as u64 * BUTTON_SPEED;
        let progress: u64 = self.animation_progress as u64;
        if progress < target {
            if progress + step > target {
                self.animation_progress = target as u32;
            } else {
                self.animation_progress = (progress + step) as u32;
            }
        } else if progress > target {
            if progress < target + step {
                self.animation_progress = target as u32;
            } else {
                self.animation_progress = (progress - step) as u32;
            }
        }
    }

    /// Whether the left mouse button was down on the button in the last
    /// frame.
    pub fn is_pressed(&self) -> (b: bool)
        ensures
            b == self.is_pressed,
    {
        self.is_pressed
    }

    /// Whether the pointer was on the button in the last frame.
    pub fn is_hovered(&self) -> (b: bool)
        ensures
            b == self.is_hovered,
    {
        self.is_hovered
    }

    /// Whether the button reacts to the mouse.
    pub fn is_enabled(&self) -> (b: bool)
        ensures
            b == self.enabled,
    {
        self.enabled
    }

    /// The text on the button.
    pub fn get_label(&self) -> (label: &str)
        ensures
            label@ == self.label@,
    {
        self.label.as_str()
    }

    /// Puts `label` on the button.
    pub fn set_label(&mut self, label: &str)
        ensures
            final(self).label@ == label@,
            final(self).bounds == old(self).bounds,
            final(self).is_hovered == old(self).is_hovered,
            final(self).is_pressed == old(self).is_pressed,
            final(self).animation_progress == old(self).animation_progress,
            final(self).enabled == old(self).enabled,
    {
        self.label = String::from_str(label);
    }

    /// Lets the button react to the mouse, or not.
    pub fn set_enabled(&mut self, enabled: bool)
        ensures
            final(self).enabled == enabled,
            final(self).label == old(self).label,
            final(self).bounds == old(self).bounds,
            final(self).is_hovered == old(self).is_hovered,
            final(self).is_pressed == old(self).is_pressed,
            final(self).animation_progress == old(self).animation_progress,
    {
        self.enabled = enabled;
    }

    /// Whether the button is clicked in this frame: the left mouse button
    /// comes up over an enabled button.
    pub fn is_clicked(&self, input: &FrameInput) -> (clicked: bool)
        ensures
            clicked == (self.enabled && self.is_hovered && input.mouse_left.released),
    {
        self.enabled && self.is_hovered && input.mouse_left.released
    }

    /// The fill of the button at its progress, between the fills for rest,
    /// hover and press.
    pub fn shade(&self, rest: Color, hover: Color, pressed: Color) -> (color: Color)
        ensures
            color == shaded(rest, hover, pressed, self.animation_progress as int),
    {
        if self.animation_progress <= PROGRESS_HOVER {
            blend(rest, hover, self.animation_progress * 2)
        } else {
            let beyond: u64 = (self.animation_progress as u64 - PROGRESS_HOVER as u64) * 2;
            let t: u32 = if beyond > PROGRESS_FULL as u64 {
                PROGRESS_FULL
            } else {
                beyond as u32
            };
            blend(hover, pressed, t)
        }
    }
}

} // verus!
