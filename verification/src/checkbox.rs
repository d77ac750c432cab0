//! A checkbox: a square that a press toggles, with a check mark that grows
//! and shrinks over a quarter of a second.

use crate::geometry::{Point, Rect};
use crate::input::FrameInput;
use vstd::prelude::*;
use vstd::string::StringExecFns;

verus! {

/// Animation progress of a mark that is fully drawn. Progress counts in
/// millionths.
pub const PROGRESS_FULL: u32 = 1_000_000;

/// Progress that the mark of a checkbox gains or loses in a microsecond.
pub const CHECK_SPEED: u64 = 4;

/// A checkbox.
#[derive(Debug)]
pub struct Checkbox {
    pub bounds: Rect,
    pub is_checked: bool,
    pub label: String,
    /// The pointer is on the box.
    pub is_hovered: bool,
    /// How much of the mark is drawn, in millionths.
    pub animation_progress: u32,
    /// The press that toggled the box is still held.
    pub is_clicked: bool,
}

impl Checkbox {
    /// Whether a frame toggles the box: the left button goes down on it.
    pub open spec fn toggled_by(&self, mouse: Point, input: FrameInput) -> bool {
        input.mouse_left.pressed && self.bounds.contains(mouse)
    }

    /// Whether the box is checked after a frame.
    pub open spec fn checked_after(&self, mouse: Point, input: FrameInput) -> bool {
        if self.toggled_by(mouse, input) {
            !self.is_checked
        } else {
            self.is_checked
        }
    }

    /// Progress after a frame. A toggle starts at nothing; then the mark of
    /// a checked box grows to full and that of an unchecked box shrinks to
    /// nothing, in the time of the frame.
    pub open spec fn progress_after(&self, mouse: Point, input: FrameInput) -> int {
        let start: int = if self.toggled_by(mouse, input) {
            0
        } else {
            self.animation_progress as int
        };
        let step = input.frame_time * CHECK_SPEED;
        if self.checked_after(mouse, input) && start < PROGRESS_FULL {
            if start + step > PROGRESS_FULL {
                PROGRESS_FULL as int
            } else {
                start + step
            }
        } else if !self.checked_after(mouse, input) && start > 0 {
            if start < step {
                0
            } else {
                start - step
            }
        } else {
            start
        }
    }

    /// Whether the toggling press is held after a frame.
    pub open spec fn clicked_after(&self, mouse: Point, input: FrameInput) -> bool {
        !input.mouse_left.released && (self.toggled_by(mouse, input) || self.is_clicked)
    }

    /// An unchecked square box of the given size.
    pub fn new(x: i32, y: i32, size: i32, label: &str) -> (c: Checkbox)
        ensures
            c.bounds == (Rect { x, y, width: size, height: size }),
            !c.is_checked,
            c.label@ == label@,
            !c.is_hovered,
            c.animation_progress == 0,
            !c.is_clicked,
    {
        Checkbox {
            bounds: Rect::new(x, y, size, size),
            is_checked: false,
            label: String::from_str(label),
            is_hovered: false,
            animation_progress: 0,
            is_clicked: false,
        }
    }

    /// One frame: finds out whether the pointer is on the box, toggles it on
    /// a press, and moves the animation on.
    pub fn update(&mut self, mouse: Point, input: &FrameInput)
        ensures
            final(self).is_hovered == old(self).bounds.contains(mouse),
            final(self).is_checked == old(self).checked_after(mouse, *input),
            final(self).animation_progress == old(self).progress_after(mouse, *input),
            final(self).is_clicked == old(self).clicked_after(mouse, *input),
            final(self).bounds == old(self).bounds,
            final(self).label == old(self).label,
            old(self).animation_progress <= PROGRESS_FULL ==> final(self).animation_progress
                <= PROGRESS_FULL,
    {
        self.is_hovered = self.bounds.check_collision_point_rec(mouse);
        if input.mouse_left.pressed && self.is_hovered {
            self.is_clicked = true;
            self.is_checked = !self.is_checked;
            self.animation_progress = 0;
        }
        let step: u64 = input.frame_time as u64 * CHECK_SPEED;
        let progress: u64 = self.animation_progress as u64;
        if self.is_checked && self.animation_progress < PROGRESS_FULL {
            if progress + step > PROGRESS_FULL as u64 {
                self.animation_progress = PROGRESS_FULL;
            } else {
                self.animation_progress = (progress + step) as u32;
            }
        } else if !self.is_checked && self.animation_progress > 0 {
            if progress < step {
                self.animation_progress = 0;
            } else {
                self.animation_progress = (progress - step) as u32;
            }
        }
        if input.mouse_left.released {
            self.is_clicked = false;
        }
    }

    /// Checks an unchecked box and unchecks a checked one. The animation
    /// starts from the other end.
    pub fn toggle(&mut self)
        ensures
            final(self).is_checked == !old(self).is_checked,
            final(self).animation_progress == if old(self).is_checked {
                PROGRESS_FULL
            } else {
                0
            },
            final(self).bounds == old(self).bounds,
            final(self).label == old(self).label,
            final(self).is_hovered == old(self).is_hovered,
            final(self).is_clicked == old(self).is_clicked,
    {
        self.is_checked = !self.is_checked;
        self.animation_progress = if self.is_checked {
            0
        } else {
            PROGRESS_FULL
        };
    }
}

} // verus!
