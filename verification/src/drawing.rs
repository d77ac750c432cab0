//! What a frame shows of a text field: the run of text in the viewport, and
//! where cursor, selection highlight and scroll indicator stand. Computing
//! it changes nothing.

use crate::buffer::copy_range;
use crate::geometry::scale;
use crate::model::{FieldView, BLINK_VISIBLE};
use crate::textfield::TextField;
use vstd::prelude::*;

verus! {

/// Least width in pixels of the selection highlight, so that a selection of
/// narrow characters can be seen.
pub const HIGHLIGHT_MIN_WIDTH: u32 = 2;

/// A horizontal stretch: where it starts, in pixels from the left edge it is
/// measured from, and how wide it is.
#[derive(Clone, Copy, Debug, PartialEq, Eq, Structural)]
pub struct Span {
    pub x: u32,
    pub width: u32,
}

/// What to draw of a text field. Horizontal positions of cursor and
/// highlight count from the left edge of the viewport, that of the scroll
/// indicator from the left edge of the bounds.
#[derive(Debug)]
pub struct FieldDrawing {
    /// The placeholder shows in place of the text.
    pub placeholder: bool,
    /// The characters that show.
    pub text: Vec<char>,
    /// Distance from the top edge of the bounds to the top of the line of
    /// text, which is centred in the bounds.
    pub text_top: i32,
    /// Height of the line of text. Cursor and highlight are as high, and
    /// start at `text_top`.
    pub line_height: i32,
    /// Where the cursor stands, where it shows.
    pub cursor: Option<u32>,
    /// The highlight of the part of the selection that shows, at least
    /// `HIGHLIGHT_MIN_WIDTH` wide where the viewport has the room.
    pub highlight: Option<Span>,
    /// The scroll indicator, where some of the text does not show.
    pub thumb: Option<Span>,
}

/// A stretch as a pair of start and width.
pub open spec fn stretch(span: Option<Span>) -> Option<(int, int)> {
    match span {
        Some(s) => Some((s.x as int, s.width as int)),
        None => None,
    }
}

impl FieldView {
    /// Index of the first character that shows. A scroll offset behind the
    /// text shows nothing.
    pub open spec fn shown_from(self) -> int {
        if self.scroll > self.len() {
            self.len()
        } else {
            self.scroll
        }
    }

    /// Index behind the last character that shows.
    pub open spec fn shown_to(self) -> int {
        self.metrics.last_fit(self.buffer, self.shown_from(), self.len(), self.viewport())
    }

    /// The characters that show.
    pub open spec fn shown_text(self) -> Seq<char> {
        self.buffer.subrange(self.shown_from(), self.shown_to())
    }

    /// Distance in pixels from the left edge of the viewport to the boundary
    /// `at`.
    pub open spec fn offset_of(self, at: int) -> int {
        self.metrics.span_width(self.buffer, self.shown_from(), at)
    }

    /// The position nearest to `at` among those that show.
    pub open spec fn clipped(self, at: int) -> int {
        if at < self.shown_from() {
            self.shown_from()
        } else if at > self.shown_to() {
            self.shown_to()
        } else {
            at
        }
    }

    /// The placeholder shows while there is no text.
    pub open spec fn placeholder_shown(self) -> bool {
        self.len() == 0 && self.placeholder.len() > 0
    }

    /// Distance from the top of the bounds to the top of the line, half of
    /// what the bounds are higher than the font, rounded towards zero.
    pub open spec fn text_top(self) -> int {
        let spare = self.bounds.height - self.font_size;
        if spare >= 0 {
            spare / 2
        } else {
            -((-spare) / 2)
        }
    }

    /// The cursor shows in a focused field, in the first part of the blink
    /// cycle, where it stands among the characters that show.
    pub open spec fn cursor_shown(self) -> bool {
        &&& self.focused
        &&& self.blink < BLINK_VISIBLE
        &&& self.shown_from() <= self.cursor <= self.shown_to()
    }

    /// Where the cursor shows.
    pub open spec fn cursor_offset(self) -> Option<int> {
        if self.cursor_shown() {
            Some(self.offset_of(self.cursor))
        } else {
            None
        }
    }

    /// Width of a highlight that starts `x` pixels into the viewport and
    /// covers text `span` pixels wide: the width of the text, but at least
    /// `HIGHLIGHT_MIN_WIDTH`, and not more than is left of the viewport right
    /// of `x`.
    pub open spec fn highlight_width(self, x: int, span: int) -> int {
        let wide = if span < HIGHLIGHT_MIN_WIDTH {
            HIGHLIGHT_MIN_WIDTH as int
        } else {
            span
        };
        if wide > self.viewport() - x {
            self.viewport() - x
        } else {
            wide
        }
    }

    /// Start and width of the highlight: there is one where some of the
    /// selection shows, it starts where the part that shows starts, and it is
    /// as wide as `highlight_width` says of that part.
    pub open spec fn highlight(self) -> Option<(int, int)> {
        let from = self.clipped(self.selection_start());
        let to = self.clipped(self.selection_end());
        if self.has_selection() && from < to {
            Some(
                (
                    self.offset_of(from),
                    self.highlight_width(
                        self.offset_of(from),
                        self.metrics.span_width(self.buffer, from, to),
                    ),
                ),
            )
        } else {
            None
        }
    }

    /// Width of the scroll indicator: the share of the text that shows,
    /// taken of the width of the bounds.
    pub open spec fn thumb_width(self) -> int {
        let shown = self.shown_to() - self.shown_from();
        if self.len() > 0 {
            (shown * self.bounds.width) / self.len()
        } else {
            0
        }
    }

    /// Start of the scroll indicator: the share of the way that the text is
    /// scrolled, taken of the way that the indicator can go.
    pub open spec fn thumb_start(self) -> int {
        let hidden = self.len() - (self.shown_to() - self.shown_from());
        if hidden > 0 {
            let scrolled = if self.shown_from() > hidden {
                hidden
            } else {
                self.shown_from()
            };
            (scrolled * (self.bounds.width - self.thumb_width())) / hidden
        } else {
            0
        }
    }

    /// Start and width of the scroll indicator. It shows where the text is
    /// scrolled or does not all show, in bounds that have a width.
    pub open spec fn thumb(self) -> Option<(int, int)> {
        let shown = self.shown_to() - self.shown_from();
        if self.bounds.width > 0 && (self.scroll > 0 || self.len() > shown) {
            Some((self.thumb_start(), self.thumb_width()))
        } else {
            None
        }
    }
}

impl TextField {
    /// What to draw of the field.
    pub fn draw(&self) -> (drawing: FieldDrawing)
        ensures
            drawing.placeholder == self@.placeholder_shown(),
            drawing.text@ == self@.shown_text(),
            drawing.text_top == self@.text_top(),
            drawing.line_height == self@.font_size,
            (match drawing.cursor {
                Some(x) => Some(x as int),
                None => None,
            }) == self@.cursor_offset(),
            stretch(drawing.highlight) == self@.highlight(),
            stretch(drawing.thumb) == self@.thumb(),
            drawing.cursor matches Some(x) ==> x <= self@.viewport(),
            drawing.highlight matches Some(s) ==> s.x + s.width <= self@.viewport(),
            drawing.thumb matches Some(s) ==> s.x + s.width <= self@.bounds.width,
    {
        let len = self.text.len();
        let limit = self.viewport();
        let from: usize = if self.scroll_offset > len {
            len
        } else {
            self.scroll_offset
        };
        let to = self.metrics.run_end(&self.text, from, len, limit);
        proof {
            self@.metrics.lemma_last_fit(self@.buffer, from as int, len as int, limit as int);
        }
        let text = copy_range(&self.text, from, to);
        let spare: i64 = self.bounds.height as i64 - self.font_size as i64;
        let text_top: i32 = if spare >= 0 {
            (spare / 2) as i32
        } else {
            (-((-spare) / 2)) as i32
        };
        let cursor: Option<u32> = if self.is_active && self.cursor_blink_timer < BLINK_VISIBLE
            && from <= self.cursor_position && self.cursor_position <= to {
            proof {
                self@.metrics.lemma_prefix_monotone(
                    self@.buffer,
                    self.cursor_position as int,
                    to as int,
                );
            }
            Some(self.metrics.span(&self.text, from, self.cursor_position, limit))
        } else {
            None
        };
        let (start, end) = match self.selection_anchor {
            Some(a) => if a < self.cursor_position {
                (a, self.cursor_position)
            } else {
                (self.cursor_position, a)
            },
            None => (self.cursor_position, self.cursor_position),
        };
        let first: usize = if start < from {
            from
        } else if start > to {
            to
        } else {
            start
        };
        let last: usize = if end < from {
            from
        } else if end > to {
            to
        } else {
            end
        };
        let selected = match self.selection_anchor {
            Some(a) => a != self.cursor_position,
            None => false,
        };
        let highlight: Option<Span> = if selected && first < last {
            proof {
                self@.metrics.lemma_prefix_monotone(self@.buffer, from as int, first as int);
                self@.metrics.lemma_prefix_monotone(self@.buffer, first as int, last as int);
                self@.metrics.lemma_prefix_monotone(self@.buffer, last as int, to as int);
            }
            let x = self.metrics.span(&self.text, from, first, limit);
            let span = self.metrics.span(&self.text, first, last, limit);
            let wide = if span < HIGHLIGHT_MIN_WIDTH {
                HIGHLIGHT_MIN_WIDTH
            } else {
                span
            };
            let room = limit - x;
            Some(
                Span {
                    x,
                    width: if wide > room {
                        room
                    } else {
                        wide
                    },
                },
            )
        } else {
            None
        };
        let shown = to - from;
        let thumb: Option<Span> = if self.bounds.width > 0 && (self.scroll_offset > 0 || len
            > shown) {
            let track: u64 = self.bounds.width as u64;
            let width: u64 = if len > 0 {
                scale(shown as u64, len as u64, track)
            } else {
                0
            };
            let hidden = len - shown;
            let x: u64 = if hidden > 0 {
                let scrolled = if from > hidden {
                    hidden
                } else {
                    from
                };
                scale(scrolled as u64, hidden as u64, track - width)
            } else {
                0
            };
            Some(Span { x: x as u32, width: width as u32 })
        } else {
            None
        };
        FieldDrawing {
            placeholder: len == 0 && self.placeholder.as_str().unicode_len() > 0,
            text,
            text_top,
            line_height: self.font_size,
            cursor,
            highlight,
            thumb,
        }
    }
}

} // verus!
