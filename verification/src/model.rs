//! The text field as a mathematical value, and what each editing step makes
//! of it. The executable field in `textfield` is specified against these
//! functions.

use crate::filter::{processed, CharTransform};
use crate::geometry::{Point, Rect};
use crate::input::FrameInput;
use crate::metrics::GlyphMetrics;
use crate::repeat::{deletion_policy, navigation_policy, RepeatTimer};
use crate::words::{word_end, word_start};
use vstd::prelude::*;

verus! {

/// Length of one blink cycle of the cursor, in microseconds.
pub const BLINK_PERIOD: u64 = 1_000_000;

/// Part of the blink cycle, from its start, in which the cursor shows.
pub const BLINK_VISIBLE: u64 = 500_000;

/// Height in pixels of the strip along the bottom edge that scrolls the text
/// when it is pressed and dragged.
pub const SCROLL_STRIP_HEIGHT: i32 = 12;

/// A text field: its text, where the cursor and the selection anchor stand
/// in it, which part of it shows, and everything else a step reads.
#[verifier::ext_equal]
pub struct FieldView {
    pub bounds: Rect,
    pub buffer: Seq<char>,
    pub placeholder: Seq<char>,
    pub max_length: int,
    pub padding: int,
    pub font_size: int,
    pub metrics: GlyphMetrics,
    pub focused: bool,
    pub cursor: int,
    pub blink: int,
    pub scroll: int,
    pub dragging: bool,
    pub pattern: Option<Seq<char>>,
    pub transform: Option<CharTransform>,
    pub anchor: Option<int>,
    pub left_repeat: RepeatTimer,
    pub right_repeat: RepeatTimer,
    pub home_end_repeat: RepeatTimer,
    pub backspace_repeat: RepeatTimer,
    pub delete_repeat: RepeatTimer,
}

/// What a text field is doing, as far as the next frame is concerned.
#[derive(Clone, Copy, Debug, PartialEq, Eq, Structural)]
pub enum Mode {
    /// Without the keyboard focus: the keyboard is not read.
    Unfocused,
    /// With the focus, nothing selected.
    Idle,
    /// With the focus and a selection.
    Selecting,
    /// The scroll strip is being dragged.
    Dragging,
}

impl FieldView {
    /// Number of characters of the text.
    pub open spec fn len(self) -> int {
        self.buffer.len() as int
    }

    /// Width in pixels of the part of the field in which text shows.
    pub open spec fn viewport(self) -> int {
        let inner = self.bounds.width - 2 * self.padding;
        if inner < 0 {
            0
        } else {
            inner
        }
    }

    /// Index behind the last character that shows: the text that shows
    /// starts at `scroll` and goes on for as long as it fits in the viewport.
    pub open spec fn visible_end(self) -> int {
        self.metrics.last_fit(self.buffer, self.scroll, self.len(), self.viewport())
    }

    /// Number of characters that show.
    pub open spec fn visible_count(self) -> int {
        self.visible_end() - self.scroll
    }

    /// Cursor and anchor are positions in the text.
    pub open spec fn indexed(self) -> bool {
        &&& 0 <= self.cursor <= self.len()
        &&& 0 <= self.scroll
        &&& self.anchor matches Some(a) ==> 0 <= a <= self.len()
    }

    /// The invariant of the field: cursor and anchor are positions in the
    /// text, and the cursor lies in the part that shows.
    pub open spec fn wf(self) -> bool {
        &&& self.indexed()
        &&& self.scroll <= self.cursor <= self.scroll + self.visible_count()
    }

    /// Some text is selected.
    pub open spec fn has_selection(self) -> bool {
        self.anchor matches Some(a) && a != self.cursor
    }

    /// What the field is doing. A drag goes on with or without the focus.
    pub open spec fn mode(self) -> Mode {
        if self.dragging {
            Mode::Dragging
        } else if !self.focused {
            Mode::Unfocused
        } else if self.has_selection() {
            Mode::Selecting
        } else {
            Mode::Idle
        }
    }

    /// Where the selection begins: the smaller of anchor and cursor.
    pub open spec fn selection_start(self) -> int {
        match self.anchor {
            Some(a) => if a < self.cursor {
                a
            } else {
                self.cursor
            },
            None => self.cursor,
        }
    }

    /// Where the selection ends: the larger of anchor and cursor.
    pub open spec fn selection_end(self) -> int {
        match self.anchor {
            Some(a) => if a < self.cursor {
                self.cursor
            } else {
                a
            },
            None => self.cursor,
        }
    }

    /// The selected text; empty where nothing is selected.
    pub open spec fn selected_text(self) -> Seq<char> {
        self.buffer.subrange(self.selection_start(), self.selection_end())
    }

    /// Cursor and anchor brought back into the text.
    pub open spec fn clamped(self) -> FieldView {
        FieldView {
            cursor: if self.cursor > self.len() {
                self.len()
            } else {
                self.cursor
            },
            anchor: match self.anchor {
                Some(a) => Some(
                    if a > self.len() {
                        self.len()
                    } else {
                        a
                    },
                ),
                None => None,
            },
            ..self
        }
    }

    /// The scroll offset that shows the cursor: the cursor itself where it
    /// stands left of the offset, the offset where the text from there to the
    /// cursor fits in the viewport, and otherwise the smallest offset from
    /// which it does.
    pub open spec fn scroll_target(self) -> int {
        if self.cursor < self.scroll {
            self.cursor
        } else {
            self.metrics.first_fit(self.buffer, self.scroll, self.cursor, self.viewport())
        }
    }

    /// The field scrolled so that the cursor shows.
    pub open spec fn rescrolled(self) -> FieldView {
        FieldView { scroll: self.scroll_target(), ..self }
    }

    /// The field made valid, whatever the host left in it.
    pub open spec fn normalized(self) -> FieldView {
        self.clamped().rescrolled()
    }

    /// The blink cycle `dt` microseconds on.
    pub open spec fn blinked(self, dt: u32) -> FieldView {
        FieldView {
            blink: if self.blink + dt >= BLINK_PERIOD {
                0
            } else {
                self.blink + dt
            },
            ..self
        }
    }

    /// Whether `mouse` is on the strip that scrolls the text.
    pub open spec fn on_scroll_strip(self, mouse: Point) -> bool {
        &&& self.bounds.contains(mouse)
        &&& mouse.y >= self.bounds.y + self.bounds.height - SCROLL_STRIP_HEIGHT
    }

    /// The anchor for a move of the cursor: with shift held the selection is
    /// extended from where it started, or starts at the cursor; without it
    /// the selection is given up.
    pub open spec fn anchor_for_move(self, shift: bool) -> Option<int> {
        if shift {
            match self.anchor {
                Some(a) => Some(a),
                None => Some(self.cursor),
            }
        } else {
            None
        }
    }

    /// The field after the left button went down at `mouse`. Inside the
    /// bounds the field takes the focus and the cursor goes to the boundary
    /// between visible characters nearest to the pointer; on the scroll strip
    /// a drag begins as well. Outside, the field gives up focus and
    /// selection.
    pub open spec fn clicked(self, mouse: Point, shift: bool) -> FieldView {
        if self.bounds.contains(mouse) {
            FieldView {
                focused: true,
                cursor: self.metrics.nearest_boundary(
                    self.buffer,
                    self.scroll,
                    self.visible_end(),
                    mouse.x - self.bounds.x - self.padding,
                ),
                anchor: self.anchor_for_move(shift),
                dragging: self.dragging || self.on_scroll_strip(mouse),
                ..self
            }
        } else {
            FieldView { focused: false, anchor: None, ..self }
        }
    }

    /// The largest scroll offset that a drag can reach.
    pub open spec fn max_scroll(self) -> int {
        self.len() - self.visible_count()
    }

    /// The scroll offset for a drag with the pointer at `mouse_x`: the
    /// pointer's share of the field's width, taken of `max_scroll`.
    pub open spec fn drag_target(self, mouse_x: int) -> int {
        let width = self.bounds.width as int;
        let offset = mouse_x - self.bounds.x;
        let along = if offset < 0 {
            0
        } else if offset > width {
            width
        } else {
            offset
        };
        if width <= 0 {
            0
        } else {
            (along * self.max_scroll()) / width
        }
    }

    /// The field scrolled to `scroll`, the cursor kept where it shows and
    /// otherwise moved to the nearer end of what shows.
    pub open spec fn scrolled_to(self, scroll: int) -> FieldView {
        let moved = FieldView { scroll, ..self };
        FieldView {
            cursor: if self.cursor < scroll {
                scroll
            } else if self.cursor > moved.visible_end() {
                moved.visible_end()
            } else {
                self.cursor
            },
            ..moved
        }
    }

    /// The field after the mouse has been dealt with.
    pub open spec fn pointed(self, mouse: Point, input: FrameInput) -> FieldView {
        let pressed = if input.mouse_left.pressed {
            self.clicked(mouse, input.shift)
        } else {
            self
        };
        let dragged = if pressed.dragging && input.mouse_left.down {
            pressed.scrolled_to(pressed.drag_target(mouse.x as int))
        } else {
            pressed
        };
        if input.mouse_left.released {
            FieldView { dragging: false, ..dragged }
        } else {
            dragged
        }
    }

    /// Everything selected.
    pub open spec fn selected_all(self) -> FieldView {
        FieldView { anchor: Some(0), cursor: self.len(), ..self }.rescrolled()
    }

    /// The field without the selected text, the cursor where the selection
    /// began and nothing selected.
    pub open spec fn selection_removed(self) -> FieldView {
        FieldView {
            buffer: self.buffer.subrange(0, self.selection_start()) + self.buffer.subrange(
                self.selection_end(),
                self.len(),
            ),
            cursor: self.selection_start(),
            anchor: None,
            ..self
        }
    }

    /// The field after the selection, if there is one, was cut out.
    pub open spec fn cut(self) -> FieldView {
        if self.has_selection() {
            self.selection_removed().rescrolled()
        } else {
            self
        }
    }

    /// Number of characters that the field still takes.
    pub open spec fn room(self) -> int {
        if self.len() >= self.max_length {
            0
        } else {
            self.max_length - self.len()
        }
    }

    /// The field after `text` was pasted: the selection gives way, as much of
    /// `text` as there is room for goes in at the cursor, and the cursor
    /// stands behind it.
    pub open spec fn pasted(self, text: Seq<char>) -> FieldView {
        let cleared = if self.has_selection() {
            self.selection_removed()
        } else {
            self
        };
        let count = if text.len() <= cleared.room() {
            text.len() as int
        } else {
            cleared.room()
        };
        FieldView {
            buffer: cleared.buffer.subrange(0, cleared.cursor) + text.subrange(0, count)
                + cleared.buffer.subrange(cleared.cursor, cleared.len()),
            cursor: cleared.cursor + count,
            anchor: None,
            ..cleared
        }.rescrolled()
    }

    /// The field after the shortcuts of the frame: select all, cut, paste, in
    /// this order. Copying changes nothing.
    pub open spec fn shortcut(self, input: FrameInput) -> FieldView {
        let all = if input.ctrl && input.key_a {
            self.selected_all()
        } else {
            self
        };
        let cut = if input.ctrl && input.key_x {
            all.cut()
        } else {
            all
        };
        if input.ctrl && input.key_v {
            match input.clipboard_text() {
                Some(text) => cut.pasted(text),
                None => cut,
            }
        } else {
            cut
        }
    }

    /// What the shortcuts of the frame put on the clipboard: the text
    /// selected when copy or cut is pressed, after a select-all of the same
    /// frame.
    pub open spec fn copied(self, input: FrameInput) -> Option<Seq<char>> {
        let all = if input.ctrl && input.key_a {
            self.selected_all()
        } else {
            self
        };
        if input.ctrl && (input.key_c || input.key_x) && all.has_selection() {
            Some(all.selected_text())
        } else {
            None
        }
    }

    /// The cursor moved to `target`.
    pub open spec fn moved_to(self, target: int, shift: bool) -> FieldView {
        FieldView { cursor: target, anchor: self.anchor_for_move(shift), ..self }.rescrolled()
    }

    /// Where the left arrow takes the cursor: a word back with `word`,
    /// otherwise a character back, and nowhere from the start.
    pub open spec fn left_target(self, word: bool) -> int {
        if word {
            word_start(self.buffer, self.cursor)
        } else if self.cursor > 0 {
            self.cursor - 1
        } else {
            0
        }
    }

    /// Where the right arrow takes the cursor: a word on with `word`,
    /// otherwise a character on, and nowhere from the end.
    pub open spec fn right_target(self, word: bool) -> int {
        if word {
            if self.cursor < self.len() {
                word_end(self.buffer, self.cursor)
            } else {
                self.len()
            }
        } else if self.cursor < self.len() {
            self.cursor + 1
        } else {
            self.len()
        }
    }

    /// Whether a move by the home and end keys goes home. The key that went
    /// down in this frame decides, home before end; of keys that are only
    /// held, end before home.
    pub open spec fn goes_home(input: FrameInput) -> bool {
        if input.home.pressed {
            true
        } else if input.end.pressed {
            false
        } else {
            !input.end.down
        }
    }

    /// Whether the left arrow acts in the frame.
    pub open spec fn left_fires(self, input: FrameInput) -> bool {
        self.left_repeat.fires(
            input.left.pressed,
            input.left.down,
            input.frame_time,
            navigation_policy(),
        )
    }

    /// Whether the right arrow acts in the frame.
    pub open spec fn right_fires(self, input: FrameInput) -> bool {
        self.right_repeat.fires(
            input.right.pressed,
            input.right.down,
            input.frame_time,
            navigation_policy(),
        )
    }

    /// Whether home or end acts in the frame. The two keys share a timer.
    pub open spec fn home_end_fires(self, input: FrameInput) -> bool {
        self.home_end_repeat.fires(
            input.home.pressed || input.end.pressed,
            input.home.down || input.end.down,
            input.frame_time,
            navigation_policy(),
        )
    }

    /// The field with the repeat timers of the navigation keys moved on by
    /// the frame.
    pub open spec fn navigation_ticked(self, input: FrameInput) -> FieldView {
        FieldView {
            left_repeat: self.left_repeat.ticked(
                input.left.pressed,
                input.left.down,
                input.frame_time,
                navigation_policy(),
            ),
            right_repeat: self.right_repeat.ticked(
                input.right.pressed,
                input.right.down,
                input.frame_time,
                navigation_policy(),
            ),
            home_end_repeat: self.home_end_repeat.ticked(
                input.home.pressed || input.end.pressed,
                input.home.down || input.end.down,
                input.frame_time,
                navigation_policy(),
            ),
            ..self
        }
    }

    /// The cursor moved as the left arrow moves it.
    pub open spec fn gone_left(self, input: FrameInput) -> FieldView {
        self.moved_to(self.left_target(input.ctrl), input.shift)
    }

    /// The cursor moved as the right arrow moves it.
    pub open spec fn gone_right(self, input: FrameInput) -> FieldView {
        self.moved_to(self.right_target(input.ctrl), input.shift)
    }

    /// The cursor moved as home or end moves it.
    pub open spec fn gone_home_or_end(self, input: FrameInput) -> FieldView {
        if Self::goes_home(input) {
            self.moved_to(0, input.shift)
        } else {
            self.moved_to(self.len(), input.shift)
        }
    }

    /// The field after the navigation keys of the frame: left, right, then
    /// home or end, each when its repeat timer says so.
    pub open spec fn navigated(self, input: FrameInput) -> FieldView {
        let ticked = self.navigation_ticked(input);
        let left = if self.left_fires(input) {
            ticked.gone_left(input)
        } else {
            ticked
        };
        let right = if self.right_fires(input) {
            left.gone_right(input)
        } else {
            left
        };
        if self.home_end_fires(input) {
            right.gone_home_or_end(input)
        } else {
            right
        }
    }

    /// The character before the cursor removed.
    pub open spec fn backspaced(self) -> FieldView {
        if self.cursor > 0 {
            FieldView {
                buffer: self.buffer.remove(self.cursor - 1),
                cursor: self.cursor - 1,
                anchor: None,
                ..self
            }.rescrolled()
        } else {
            self
        }
    }

    /// The character at the cursor removed.
    pub open spec fn deleted(self) -> FieldView {
        if self.cursor < self.len() {
            FieldView { buffer: self.buffer.remove(self.cursor), anchor: None, ..self }.rescrolled()
        } else {
            self
        }
    }

    /// Whether backspace acts in the frame.
    pub open spec fn backspace_fires(self, input: FrameInput) -> bool {
        self.backspace_repeat.fires(
            input.backspace.pressed,
            input.backspace.down,
            input.frame_time,
            deletion_policy(),
        )
    }

    /// Whether delete acts in the frame.
    pub open spec fn delete_fires(self, input: FrameInput) -> bool {
        self.delete_repeat.fires(
            input.delete.pressed,
            input.delete.down,
            input.frame_time,
            deletion_policy(),
        )
    }

    /// The field with the repeat timers of backspace and delete moved on by
    /// the frame.
    pub open spec fn deletion_ticked(self, input: FrameInput) -> FieldView {
        FieldView {
            backspace_repeat: self.backspace_repeat.ticked(
                input.backspace.pressed,
                input.backspace.down,
                input.frame_time,
                deletion_policy(),
            ),
            delete_repeat: self.delete_repeat.ticked(
                input.delete.pressed,
                input.delete.down,
                input.frame_time,
                deletion_policy(),
            ),
            ..self
        }
    }

    /// The field after the deletion keys of the frame. When either key acts
    /// on a selection, the selection goes and nothing else; otherwise
    /// backspace, then delete, each takes one character.
    pub open spec fn erased(self, input: FrameInput) -> FieldView {
        let ticked = self.deletion_ticked(input);
        if ticked.has_selection() && (self.backspace_fires(input) || self.delete_fires(input)) {
            ticked.selection_removed().rescrolled()
        } else {
            let backed = if self.backspace_fires(input) {
                ticked.backspaced()
            } else {
                ticked
            };
            if self.delete_fires(input) {
                backed.deleted()
            } else {
                backed
            }
        }
    }

    /// The field after `c` was typed: where there is room, what the filter
    /// makes of `c` goes in at the cursor and the cursor stands behind it.
    pub open spec fn typed_one(self, c: char) -> FieldView {
        if self.len() < self.max_length {
            FieldView {
                buffer: self.buffer.insert(self.cursor, processed(self.pattern, self.transform, c)),
                cursor: self.cursor + 1,
                ..self
            }.rescrolled()
        } else {
            self
        }
    }

    /// The field after the first `count` characters of `chars` were typed.
    pub open spec fn typed(self, chars: Seq<char>, count: int) -> FieldView
        decreases count,
    {
        if count <= 0 || count > chars.len() {
            self
        } else {
            self.typed(chars, count - 1).typed_one(chars[count - 1])
        }
    }

    /// The field after the keyboard has been dealt with: shortcuts,
    /// navigation, deletion, typing.
    pub open spec fn keyed(self, input: FrameInput) -> FieldView {
        self.shortcut(input).navigated(input).erased(input).typed(
            input.chars@,
            input.chars@.len() as int,
        )
    }

    /// What one frame with the pointer at `mouse` puts on the clipboard.
    pub open spec fn clipboard_after(self, mouse: Point, input: FrameInput) -> Option<Seq<char>> {
        let pointed = self.normalized().blinked(input.frame_time).pointed(mouse, input);
        if pointed.focused {
            pointed.copied(input)
        } else {
            None
        }
    }

    /// The field after the first `count` of `frames`, each with the pointer
    /// where the frame has it.
    pub open spec fn run(self, frames: Seq<FrameInput>, count: int) -> FieldView
        decreases count,
    {
        if count <= 0 || count > frames.len() {
            self
        } else {
            self.run(frames, count - 1).stepped(
                frames[count - 1].mouse_position,
                frames[count - 1],
            )
        }
    }

    /// No key acts in the frame.
    pub open spec fn no_key_fires(self, input: FrameInput) -> bool {
        &&& !self.left_fires(input)
        &&& !self.right_fires(input)
        &&& !self.home_end_fires(input)
        &&& !self.backspace_fires(input)
        &&& !self.delete_fires(input)
    }

    /// A drag that is under way, if any, scrolls to an offset at which the
    /// cursor shows where it stands.
    pub open spec fn drag_keeps_cursor(self, mouse: Point, input: FrameInput) -> bool {
        self.dragging && input.mouse_left.down ==> self.scrolled_to(
            self.drag_target(mouse.x as int),
        ).cursor == self.cursor
    }

    /// The field after one frame with the pointer at `mouse`.
    pub open spec fn stepped(self, mouse: Point, input: FrameInput) -> FieldView {
        let pointed = self.normalized().blinked(input.frame_time).pointed(mouse, input);
        if pointed.focused {
            pointed.keyed(input)
        } else {
            pointed
        }
    }
}


impl FieldView {
    /// The cursor shows exactly when the text between the scroll offset and
    /// the cursor fits in the viewport.
    pub proof fn lemma_cursor_shows(self)
        requires
            0 <= self.scroll <= self.cursor <= self.len(),
        ensures
            self.cursor <= self.scroll + self.visible_count() <==> self.metrics.span_width(
                self.buffer,
                self.scroll,
                self.cursor,
            ) <= self.viewport(),
    {
        self.metrics.lemma_fit_within_last(
            self.buffer,
            self.scroll,
            self.len(),
            self.viewport(),
            self.cursor,
        );
    }

    /// Scrolling to the cursor makes a field whose cursor and anchor are
    /// positions in the text valid.
    pub proof fn lemma_rescrolled_wf(self)
        requires
            self.indexed(),
        ensures
            self.rescrolled().wf(),
            self.wf() ==> self.rescrolled() == self,
    {
        let after = self.rescrolled();
        if self.cursor >= self.scroll {
            self.metrics.lemma_first_fit(self.buffer, self.scroll, self.cursor, self.viewport());
        }
        after.lemma_cursor_shows();
        if self.wf() {
            self.lemma_cursor_shows();
            self.metrics.lemma_first_fit_is(
                self.buffer,
                self.scroll,
                self.cursor,
                self.viewport(),
                self.scroll,
            );
            assert(after =~= self);
        }
    }

    /// Normalizing makes any field valid and leaves a valid field as it is.
    pub proof fn lemma_normalized_wf(self)
        requires
            0 <= self.cursor,
            0 <= self.scroll,
            self.anchor matches Some(a) ==> 0 <= a,
        ensures
            self.normalized().wf(),
            self.wf() ==> self.normalized() == self,
    {
        self.clamped().lemma_rescrolled_wf();
        if self.wf() {
            assert(self.clamped() =~= self);
        }
    }
}

} // verus!
