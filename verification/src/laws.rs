//! What holds of every step of the text field, proved of the model in
//! `model`.

use crate::geometry::Point;
use crate::input::FrameInput;
use crate::model::FieldView;
use crate::repeat::{
    deletion_policy, navigation_policy, RepeatTimer, DELETION_DELAY, DELETION_INTERVAL,
};
use vstd::prelude::*;

verus! {

impl FieldView {
    /// A drag scrolls to an offset in the text.
    pub proof fn lemma_drag_target_in_text(self, mouse_x: int)
        requires
            self.wf(),
        ensures
            0 <= self.drag_target(mouse_x) <= self.max_scroll() <= self.len(),
    {
        self.metrics.lemma_last_fit(self.buffer, self.scroll, self.len(), self.viewport());
        let width = self.bounds.width as int;
        let offset = mouse_x - self.bounds.x;
        let along = if offset < 0 {
            0
        } else if offset > width {
            width
        } else {
            offset
        };
        let most = self.max_scroll();
        if width > 0 {
            assert(0 <= (along * most) / width <= most) by (nonlinear_arith)
                requires
                    0 <= along <= width,
                    0 < width,
                    0 <= most,
            ;
        }
    }

    /// Scrolling to an offset in the text keeps the field valid.
    pub proof fn lemma_scrolled_to_wf(self, scroll: int)
        requires
            self.indexed(),
            0 <= scroll <= self.len(),
        ensures
            self.scrolled_to(scroll).wf(),
    {
        let moved = FieldView { scroll, ..self };
        moved.metrics.lemma_last_fit(moved.buffer, scroll, moved.len(), moved.viewport());
        let after = self.scrolled_to(scroll);
        assert(after.visible_end() == moved.visible_end());
    }

    /// A click keeps the field valid.
    pub proof fn lemma_clicked_wf(self, mouse: Point, shift: bool)
        requires
            self.wf(),
        ensures
            self.clicked(mouse, shift).wf(),
    {
        let after = self.clicked(mouse, shift);
        if self.bounds.contains(mouse) {
            self.metrics.lemma_last_fit(self.buffer, self.scroll, self.len(), self.viewport());
            self.metrics.lemma_nearest_boundary(
                self.buffer,
                self.scroll,
                self.visible_end(),
                mouse.x - self.bounds.x - self.padding,
            );
            assert(after.visible_end() == self.visible_end());
        } else {
            assert(after.visible_end() == self.visible_end());
        }
    }

    /// Dealing with the mouse keeps the field valid.
    pub proof fn lemma_pointed_wf(self, mouse: Point, input: FrameInput)
        requires
            self.wf(),
        ensures
            self.pointed(mouse, input).wf(),
            self.pointed(mouse, input).buffer == self.buffer,
            self.pointed(mouse, input).max_length == self.max_length,
    {
        let pressed = if input.mouse_left.pressed {
            self.clicked(mouse, input.shift)
        } else {
            self
        };
        self.lemma_clicked_wf(mouse, input.shift);
        let dragged = if pressed.dragging && input.mouse_left.down {
            pressed.scrolled_to(pressed.drag_target(mouse.x as int))
        } else {
            pressed
        };
        pressed.lemma_drag_target_in_text(mouse.x as int);
        pressed.lemma_scrolled_to_wf(pressed.drag_target(mouse.x as int));
        let after = self.pointed(mouse, input);
        assert(after.visible_end() == dragged.visible_end());
    }

    /// Taking the selection out leaves cursor and anchor in the text.
    pub proof fn lemma_selection_removed_indexed(self)
        requires
            self.indexed(),
        ensures
            self.selection_removed().indexed(),
            self.selection_removed().len() == self.len() - (self.selection_end()
                - self.selection_start()),
    {
    }

    /// A paste keeps the field valid and within its capacity.
    pub proof fn lemma_pasted_wf(self, text: Seq<char>)
        requires
            self.indexed(),
        ensures
            self.pasted(text).wf(),
            self.pasted(text).max_length == self.max_length,
            self.pasted(text).len() <= self.len() || self.pasted(text).len() <= self.max_length,
    {
        let cleared = if self.has_selection() {
            self.selection_removed()
        } else {
            self
        };
        self.lemma_selection_removed_indexed();
        let count = if text.len() <= cleared.room() {
            text.len() as int
        } else {
            cleared.room()
        };
        let filled = FieldView {
            buffer: cleared.buffer.subrange(0, cleared.cursor) + text.subrange(0, count)
                + cleared.buffer.subrange(cleared.cursor, cleared.len()),
            cursor: cleared.cursor + count,
            anchor: None,
            ..cleared
        };
        filled.lemma_rescrolled_wf();
    }

    /// The shortcuts keep the field valid.
    pub proof fn lemma_shortcut_wf(self, input: FrameInput)
        requires
            self.wf(),
        ensures
            self.shortcut(input).wf(),
            self.shortcut(input).max_length == self.max_length,
            self.shortcut(input).len() <= self.len() || self.shortcut(input).len()
                <= self.max_length,
    {
        let all = if input.ctrl && input.key_a {
            self.selected_all()
        } else {
            self
        };
        FieldView { anchor: Some(0), cursor: self.len(), ..self }.lemma_rescrolled_wf();
        let cut = if input.ctrl && input.key_x {
            all.cut()
        } else {
            all
        };
        all.lemma_selection_removed_indexed();
        all.selection_removed().lemma_rescrolled_wf();
        match input.clipboard_text() {
            Some(text) => {
                cut.lemma_pasted_wf(text);
            },
            None => {},
        }
    }

    /// A move of the cursor to a position in the text keeps the field valid.
    pub proof fn lemma_moved_to_wf(self, target: int, shift: bool)
        requires
            self.indexed(),
            0 <= target <= self.len(),
        ensures
            self.moved_to(target, shift).wf(),
    {
        FieldView {
            cursor: target,
            anchor: self.anchor_for_move(shift),
            ..self
        }.lemma_rescrolled_wf();
    }

    /// The arrows take the cursor to a position in the text.
    pub proof fn lemma_targets_in_text(self, word: bool)
        requires
            self.indexed(),
        ensures
            0 <= self.left_target(word) <= self.cursor,
            self.cursor <= self.right_target(word) <= self.len(),
    {
        crate::words::lemma_word_start(self.buffer, self.cursor);
        crate::words::lemma_word_end(self.buffer, self.cursor);
    }

    /// Moving the repeat timers on changes nothing else.
    pub proof fn lemma_ticked_keeps_field(self, input: FrameInput)
        requires
            self.wf(),
        ensures
            self.navigation_ticked(input).wf(),
            self.navigation_ticked(input).buffer == self.buffer,
            self.navigation_ticked(input).cursor == self.cursor,
            self.navigation_ticked(input).anchor == self.anchor,
            self.navigation_ticked(input).max_length == self.max_length,
            self.deletion_ticked(input).wf(),
            self.deletion_ticked(input).buffer == self.buffer,
            self.deletion_ticked(input).cursor == self.cursor,
            self.deletion_ticked(input).anchor == self.anchor,
            self.deletion_ticked(input).max_length == self.max_length,
    {
        assert(self.navigation_ticked(input).visible_end() == self.visible_end());
        assert(self.deletion_ticked(input).visible_end() == self.visible_end());
    }

    /// Each navigation key keeps the field valid and the text as it is.
    pub proof fn lemma_gone_wf(self, input: FrameInput)
        requires
            self.wf(),
        ensures
            self.gone_left(input).wf(),
            self.gone_left(input).buffer == self.buffer,
            self.gone_left(input).max_length == self.max_length,
            self.gone_right(input).wf(),
            self.gone_right(input).buffer == self.buffer,
            self.gone_right(input).max_length == self.max_length,
            self.gone_home_or_end(input).wf(),
            self.gone_home_or_end(input).buffer == self.buffer,
            self.gone_home_or_end(input).max_length == self.max_length,
    {
        self.lemma_targets_in_text(input.ctrl);
        self.lemma_moved_to_wf(self.left_target(input.ctrl), input.shift);
        self.lemma_moved_to_wf(self.right_target(input.ctrl), input.shift);
        self.lemma_moved_to_wf(0, input.shift);
        self.lemma_moved_to_wf(self.len(), input.shift);
    }

    /// The navigation keys keep the field valid and the text as it is.
    pub proof fn lemma_navigated_wf(self, input: FrameInput)
        requires
            self.wf(),
        ensures
            self.navigated(input).wf(),
            self.navigated(input).buffer == self.buffer,
            self.navigated(input).max_length == self.max_length,
    {
        self.lemma_ticked_keeps_field(input);
        let ticked = self.navigation_ticked(input);
        ticked.lemma_gone_wf(input);
        let left = if self.left_fires(input) {
            ticked.gone_left(input)
        } else {
            ticked
        };
        left.lemma_gone_wf(input);
        let right = if self.right_fires(input) {
            left.gone_right(input)
        } else {
            left
        };
        right.lemma_gone_wf(input);
    }

    /// Navigation keys that do not act leave text, cursor and anchor as they
    /// are.
    pub proof fn lemma_navigated_idle(self, input: FrameInput)
        requires
            self.wf(),
            !self.left_fires(input),
            !self.right_fires(input),
            !self.home_end_fires(input),
        ensures
            self.navigated(input) == self.navigation_ticked(input),
            self.navigated(input).buffer == self.buffer,
            self.navigated(input).cursor == self.cursor,
            self.navigated(input).anchor == self.anchor,
    {
    }

    /// Deletion keys that do not act leave text, cursor and anchor as they
    /// are.
    pub proof fn lemma_erased_idle(self, input: FrameInput)
        requires
            self.wf(),
            !self.backspace_fires(input),
            !self.delete_fires(input),
        ensures
            self.erased(input) == self.deletion_ticked(input),
            self.erased(input).buffer == self.buffer,
            self.erased(input).cursor == self.cursor,
            self.erased(input).anchor == self.anchor,
    {
    }

    /// Backspace and delete keep the field valid and make the text no
    /// longer.
    pub proof fn lemma_erased_wf(self, input: FrameInput)
        requires
            self.wf(),
        ensures
            self.erased(input).wf(),
            self.erased(input).len() <= self.len(),
            self.erased(input).max_length == self.max_length,
    {
        self.lemma_ticked_keeps_field(input);
        let ticked = self.deletion_ticked(input);
        ticked.lemma_selection_removed_indexed();
        ticked.selection_removed().lemma_rescrolled_wf();
        ticked.lemma_backspaced_wf();
        ticked.backspaced().lemma_deleted_wf();
        ticked.lemma_deleted_wf();
    }

    /// Backspace keeps the field valid.
    pub proof fn lemma_backspaced_wf(self)
        requires
            self.wf(),
        ensures
            self.backspaced().wf(),
            self.backspaced().len() <= self.len(),
    {
        if self.cursor > 0 {
            FieldView {
                buffer: self.buffer.remove(self.cursor - 1),
                cursor: self.cursor - 1,
                anchor: None,
                ..self
            }.lemma_rescrolled_wf();
        }
    }

    /// Delete keeps the field valid.
    pub proof fn lemma_deleted_wf(self)
        requires
            self.wf(),
        ensures
            self.deleted().wf(),
            self.deleted().len() <= self.len(),
    {
        if self.cursor < self.len() {
            FieldView {
                buffer: self.buffer.remove(self.cursor),
                anchor: None,
                ..self
            }.lemma_rescrolled_wf();
        }
    }

    /// Typing keeps the field valid; it makes the text no shorter and, where
    /// it was within its capacity, leaves it there.
    pub proof fn lemma_typed_wf(self, chars: Seq<char>, count: int)
        requires
            self.wf(),
        ensures
            self.typed(chars, count).wf(),
            self.len() <= self.typed(chars, count).len(),
            self.typed(chars, count).len() <= self.len() || self.typed(chars, count).len()
                <= self.max_length,
            self.typed(chars, count).max_length == self.max_length,
        decreases count,
    {
        if 0 < count <= chars.len() {
            self.lemma_typed_wf(chars, count - 1);
            let before = self.typed(chars, count - 1);
            if before.len() < before.max_length {
                FieldView {
                    buffer: before.buffer.insert(
                        before.cursor,
                        crate::filter::processed(
                            before.pattern,
                            before.transform,
                            chars[count - 1],
                        ),
                    ),
                    cursor: before.cursor + 1,
                    ..before
                }.lemma_rescrolled_wf();
            }
        }
    }

    /// Dealing with the keyboard keeps the field valid.
    pub proof fn lemma_keyed_wf(self, input: FrameInput)
        requires
            self.wf(),
        ensures
            self.keyed(input).wf(),
            self.keyed(input).max_length == self.max_length,
            self.keyed(input).len() <= self.len() || self.keyed(input).len() <= self.max_length,
    {
        self.lemma_shortcut_wf(input);
        self.shortcut(input).lemma_navigated_wf(input);
        self.shortcut(input).navigated(input).lemma_erased_wf(input);
        self.shortcut(input).navigated(input).erased(input).lemma_typed_wf(
            input.chars@,
            input.chars@.len() as int,
        );
    }

    /// After a step, whatever the field was before it and whatever the frame
    /// holds, the cursor is a position in the text and lies in the part of the
    /// text that shows.
    pub proof fn lemma_step_valid(self, mouse: Point, input: FrameInput)
        requires
            0 <= self.cursor,
            0 <= self.scroll,
            self.anchor matches Some(a) ==> 0 <= a,
        ensures
            self.stepped(mouse, input).wf(),
            0 <= self.stepped(mouse, input).cursor <= self.stepped(mouse, input).len(),
            self.stepped(mouse, input).scroll <= self.stepped(mouse, input).cursor
                <= self.stepped(mouse, input).scroll + self.stepped(mouse, input).visible_count(),
            0 <= self.stepped(mouse, input).scroll <= self.stepped(mouse, input).len()
                - self.stepped(mouse, input).visible_count(),
    {
        self.lemma_normalized_wf();
        let blinked = self.normalized().blinked(input.frame_time);
        assert(blinked.visible_end() == self.normalized().visible_end());
        blinked.lemma_pointed_wf(mouse, input);
        blinked.pointed(mouse, input).lemma_keyed_wf(input);
        let after = self.stepped(mouse, input);
        after.metrics.lemma_last_fit(after.buffer, after.scroll, after.len(), after.viewport());
    }
}


impl FieldView {
    /// After every frame of a sequence of frames, whatever the field was
    /// before the first, the cursor is a position in the text and lies in
    /// the part of the text that shows.
    pub proof fn lemma_run_valid(self, frames: Seq<FrameInput>, count: int)
        requires
            0 <= self.cursor,
            0 <= self.scroll,
            self.anchor matches Some(a) ==> 0 <= a,
            0 < count <= frames.len(),
        ensures
            self.run(frames, count).wf(),
            0 <= self.run(frames, count).cursor <= self.run(frames, count).len(),
            self.run(frames, count).scroll <= self.run(frames, count).cursor <= self.run(
                frames,
                count,
            ).scroll + self.run(frames, count).visible_count(),
        decreases count,
    {
        if count > 1 {
            self.lemma_run_valid(frames, count - 1);
        }
        self.run(frames, count - 1).lemma_step_valid(
            frames[count - 1].mouse_position,
            frames[count - 1],
        );
    }

    /// Dealing with a mouse whose button neither went down nor came up, and
    /// whose drag, if one is under way, does not push the cursor, leaves text,
    /// cursor and anchor as they are.
    pub proof fn lemma_pointed_idle(self, mouse: Point, input: FrameInput)
        requires
            self.wf(),
            !input.mouse_left.pressed,
            !input.mouse_left.released,
            self.drag_keeps_cursor(mouse, input),
        ensures
            self.pointed(mouse, input).buffer == self.buffer,
            self.pointed(mouse, input).cursor == self.cursor,
            self.pointed(mouse, input).anchor == self.anchor,
            self.pointed(mouse, input).left_repeat == self.left_repeat,
            self.pointed(mouse, input).right_repeat == self.right_repeat,
            self.pointed(mouse, input).home_end_repeat == self.home_end_repeat,
            self.pointed(mouse, input).backspace_repeat == self.backspace_repeat,
            self.pointed(mouse, input).delete_repeat == self.delete_repeat,
    {
    }

    /// A frame in which no time passes and nothing happens at an instant (no
    /// key or button goes down or comes up, nothing is typed), while no held
    /// key is beyond its repeat delay, leaves text, cursor and selection
    /// anchor of a valid field as they are. A drag of the scroll strip that is
    /// under way must not push the cursor: it moves the cursor with the
    /// window, whatever the keys do.
    pub proof fn lemma_idle_step(self, mouse: Point, input: FrameInput)
        requires
            self.wf(),
            input.no_edges(),
            input.frame_time == 0,
            self.no_key_fires(input),
            self.drag_keeps_cursor(mouse, input),
        ensures
            self.stepped(mouse, input).buffer == self.buffer,
            self.stepped(mouse, input).cursor == self.cursor,
            self.stepped(mouse, input).anchor == self.anchor,
    {
        self.lemma_normalized_wf();
        let blinked = self.blinked(0);
        assert(blinked.visible_end() == self.visible_end());
        assert(blinked.drag_target(mouse.x as int) == self.drag_target(mouse.x as int));
        assert(blinked.scrolled_to(blinked.drag_target(mouse.x as int)).cursor
            == self.scrolled_to(self.drag_target(mouse.x as int)).cursor);
        blinked.lemma_pointed_idle(mouse, input);
        blinked.lemma_pointed_wf(mouse, input);
        let pointed = blinked.pointed(mouse, input);
        if pointed.focused {
            assert(pointed.shortcut(input) == pointed);
            pointed.lemma_navigated_idle(input);
            pointed.lemma_navigated_wf(input);
            let moved = pointed.navigated(input);
            assert(moved.backspace_repeat == self.backspace_repeat);
            assert(moved.delete_repeat == self.delete_repeat);
            moved.lemma_erased_idle(input);
        }
    }

    /// Typing into a field that is full changes nothing.
    pub proof fn lemma_typed_when_full(self, chars: Seq<char>, count: int)
        requires
            self.len() >= self.max_length,
        ensures
            self.typed(chars, count) == self,
        decreases count,
    {
        if 0 < count <= chars.len() {
            self.lemma_typed_when_full(chars, count - 1);
        }
    }

    /// A paste into a full field in which nothing is selected changes
    /// nothing but the selection anchor, which it clears.
    pub proof fn lemma_pasted_when_full(self, text: Seq<char>)
        requires
            self.wf(),
            self.len() >= self.max_length,
            !self.has_selection(),
        ensures
            self.pasted(text) == (FieldView { anchor: None, ..self }),
    {
        let same = FieldView {
            buffer: self.buffer.subrange(0, self.cursor) + text.subrange(0, 0)
                + self.buffer.subrange(self.cursor, self.len()),
            cursor: self.cursor + 0,
            anchor: None,
            ..self
        };
        assert(same.buffer =~= self.buffer);
        assert(same == (FieldView { anchor: None, ..self }));
        assert(same.visible_end() == self.visible_end());
        same.lemma_rescrolled_wf();
    }

    /// A frame in which characters are typed into a full field, while no
    /// shortcut is used and backspace and delete are up, leaves the text as
    /// it is.
    pub proof fn lemma_full_field_keeps_text(self, mouse: Point, input: FrameInput)
        requires
            self.wf(),
            self.len() >= self.max_length,
            !input.ctrl,
            !input.backspace.pressed && !input.backspace.down,
            !input.delete.pressed && !input.delete.down,
        ensures
            self.stepped(mouse, input).buffer == self.buffer,
    {
        self.lemma_normalized_wf();
        let blinked = self.blinked(input.frame_time);
        assert(blinked.visible_end() == self.visible_end());
        blinked.lemma_pointed_wf(mouse, input);
        let pointed = blinked.pointed(mouse, input);
        if pointed.focused {
            assert(pointed.shortcut(input) == pointed);
            pointed.lemma_navigated_wf(input);
            let moved = pointed.navigated(input);
            moved.lemma_erased_idle(input);
            moved.lemma_ticked_keeps_field(input);
            let erased = moved.erased(input);
            erased.lemma_typed_when_full(input.chars@, input.chars@.len() as int);
        }
    }

    /// Typing at the end of a field without a filter, with room for all that
    /// is typed, appends what is typed and leaves the cursor at the end.
    pub proof fn lemma_typed_appends(self, chars: Seq<char>, count: int)
        requires
            self.indexed(),
            self.cursor == self.len(),
            self.pattern is None,
            self.transform is None,
            0 <= count <= chars.len(),
            self.len() + count <= self.max_length,
        ensures
            self.typed(chars, count).buffer == self.buffer + chars.subrange(0, count),
            self.typed(chars, count).cursor == self.len() + count,
        decreases count,
    {
        if count > 0 {
            self.lemma_typed_appends(chars, count - 1);
            let before = self.typed(chars, count - 1);
            assert(before.max_length == self.max_length && before.pattern is None
                && before.transform is None) by {
                self.lemma_typed_keeps_setup(chars, count - 1);
            }
            assert(before.buffer.insert(before.cursor, chars[count - 1]) =~= self.buffer
                + chars.subrange(0, count));
        } else {
            assert(self.buffer =~= self.buffer + chars.subrange(0, 0));
        }
    }

    /// A frame in which one character is typed, and nothing else is done,
    /// into a focused field without a filter that has room and whose cursor
    /// stands at the end, appends the character and leaves the field as fit
    /// for the next such frame.
    pub proof fn lemma_typing_step(self, mouse: Point, input: FrameInput, c: char)
        requires
            self.wf(),
            self.focused,
            self.cursor == self.len(),
            self.len() < self.max_length,
            self.pattern is None,
            self.transform is None,
            input.types(c),
        ensures
            self.stepped(mouse, input).buffer == self.buffer.push(c),
            self.stepped(mouse, input).cursor == self.len() + 1,
            self.stepped(mouse, input).wf(),
            self.stepped(mouse, input).focused,
            self.stepped(mouse, input).max_length == self.max_length,
            self.stepped(mouse, input).pattern is None,
            self.stepped(mouse, input).transform is None,
    {
        self.lemma_normalized_wf();
        self.lemma_step_valid(mouse, input);
        let blinked = self.blinked(input.frame_time);
        assert(blinked.visible_end() == self.visible_end());
        let pointed = blinked.pointed(mouse, input);
        assert(pointed == blinked);
        assert(pointed.shortcut(input) == pointed);
        pointed.lemma_navigated_idle(input);
        pointed.lemma_navigated_wf(input);
        let moved = pointed.navigated(input);
        moved.lemma_erased_idle(input);
        moved.lemma_erased_wf(input);
        let erased = moved.erased(input);
        assert(erased.typed(input.chars@, 0) == erased);
        assert(erased.typed(input.chars@, 1) == erased.typed_one(c));
        assert(erased.buffer.insert(erased.cursor, c) =~= self.buffer.push(c));
    }

    /// Typing `chars` one character a frame into a focused field without a
    /// filter, whose cursor stands at the end and which has room for them,
    /// appends them and leaves the cursor at the end.
    pub proof fn lemma_typing_frames(self, frames: Seq<FrameInput>, chars: Seq<char>, count: int)
        requires
            self.wf(),
            self.focused,
            self.cursor == self.len(),
            self.pattern is None,
            self.transform is None,
            frames.len() == chars.len(),
            forall|i: int| 0 <= i < frames.len() ==> (#[trigger] frames[i]).types(chars[i]),
            0 <= count <= chars.len(),
            self.len() + count <= self.max_length,
        ensures
            self.run(frames, count).buffer == self.buffer + chars.subrange(0, count),
            self.run(frames, count).cursor == self.len() + count,
            self.run(frames, count).wf(),
            self.run(frames, count).focused,
            self.run(frames, count).max_length == self.max_length,
            self.run(frames, count).pattern is None,
            self.run(frames, count).transform is None,
        decreases count,
    {
        if count > 0 {
            self.lemma_typing_frames(frames, chars, count - 1);
            let before = self.run(frames, count - 1);
            let frame = frames[count - 1];
            before.lemma_typing_step(frame.mouse_position, frame, chars[count - 1]);
            assert(before.buffer.push(chars[count - 1]) =~= self.buffer + chars.subrange(0, count));
        } else {
            assert(self.buffer =~= self.buffer + chars.subrange(0, 0));
        }
    }

    /// A frame in which nothing is done but with backspace, in a focused
    /// field without a selection anchor, moves the timer of backspace on and,
    /// where backspace acts and a character stands before the cursor, takes
    /// that character; it changes nothing else of text, cursor and anchor.
    pub proof fn lemma_backspace_frame(self, mouse: Point, input: FrameInput)
        requires
            self.wf(),
            self.focused,
            self.anchor is None,
            input.only_backspace(),
        ensures
            self.stepped(mouse, input).wf(),
            self.stepped(mouse, input).focused,
            self.stepped(mouse, input).anchor is None,
            self.stepped(mouse, input).backspace_repeat == self.backspace_repeat.ticked(
                input.backspace.pressed,
                input.backspace.down,
                input.frame_time,
                deletion_policy(),
            ),
            self.backspace_fires(input) && self.cursor > 0 ==> self.stepped(mouse, input).buffer
                == self.buffer.remove(self.cursor - 1) && self.stepped(mouse, input).cursor
                == self.cursor - 1,
            !(self.backspace_fires(input) && self.cursor > 0) ==> self.stepped(mouse, input).buffer
                == self.buffer && self.stepped(mouse, input).cursor == self.cursor,
    {
        self.lemma_normalized_wf();
        self.lemma_step_valid(mouse, input);
        let blinked = self.blinked(input.frame_time);
        assert(blinked.visible_end() == self.visible_end());
        let pointed = blinked.pointed(mouse, input);
        assert(pointed == blinked);
        assert(pointed.shortcut(input) == pointed);
        pointed.lemma_navigated_idle(input);
        pointed.lemma_navigated_wf(input);
        let moved = pointed.navigated(input);
        assert(moved.backspace_repeat == self.backspace_repeat);
        moved.lemma_ticked_keeps_field(input);
        let ticked = moved.deletion_ticked(input);
        assert(!ticked.has_selection());
        assert(!moved.delete_fires(input));
        assert(moved.backspace_fires(input) == self.backspace_fires(input));
        let erased = moved.erased(input);
        assert(erased == if moved.backspace_fires(input) {
            ticked.backspaced()
        } else {
            ticked
        });
        assert(erased.typed(input.chars@, 0) == erased);
    }

    /// The field after a frame of a sequence is the field after the frames
    /// before it, stepped by that frame.
    pub proof fn lemma_run_step(self, frames: Seq<FrameInput>, count: int)
        requires
            0 < count <= frames.len(),
        ensures
            self.run(frames, count) == self.run(frames, count - 1).stepped(
                frames[count - 1].mouse_position,
                frames[count - 1],
            ),
    {
    }

    /// `after` is this field with the `removed` characters before the cursor
    /// gone, the cursor behind what is left of them, no selection anchor, and
    /// the focus.
    pub open spec fn taken_back(self, after: FieldView, removed: int) -> bool {
        &&& 0 <= removed <= self.cursor <= self.len()
        &&& after.buffer == self.buffer.subrange(0, self.cursor - removed) + self.buffer.subrange(
            self.cursor,
            self.len(),
        )
        &&& after.cursor == self.cursor - removed
        &&& after.anchor is None
        &&& after.wf()
        &&& after.focused
    }

    /// A frame in which nothing is done but with backspace takes one more
    /// character from before the cursor where backspace acts and a character
    /// is left there, and none otherwise.
    pub proof fn lemma_taken_back_step(
        self,
        before: FieldView,
        removed: int,
        mouse: Point,
        input: FrameInput,
    )
        requires
            self.taken_back(before, removed),
            input.only_backspace(),
        ensures
            self.taken_back(
                before.stepped(mouse, input),
                if before.backspace_fires(input) && removed < self.cursor {
                    removed + 1
                } else {
                    removed
                },
            ),
            before.stepped(mouse, input).backspace_repeat == before.backspace_repeat.ticked(
                input.backspace.pressed,
                input.backspace.down,
                input.frame_time,
                deletion_policy(),
            ),
    {
        before.lemma_backspace_frame(mouse, input);
        if before.backspace_fires(input) && removed < self.cursor {
            assert(before.buffer.remove(before.cursor - 1) =~= self.buffer.subrange(
                0,
                self.cursor - removed - 1,
            ) + self.buffer.subrange(self.cursor, self.len()));
        }
    }

    /// Backspace pressed in one frame and held through `held` more frames of
    /// `dt` microseconds each, with nothing else done, in a focused field
    /// without a selection anchor: one character goes for the press and one
    /// for every frame in which the held key repeats, from before the cursor
    /// and as long as there are characters there.
    pub proof fn lemma_held_backspace(self, frames: Seq<FrameInput>, held: nat, dt: u32)
        requires
            self.wf(),
            self.focused,
            self.anchor is None,
            frames.len() > held,
            frames[0].presses_backspace(),
            forall|i: int|
                1 <= i <= held ==> (#[trigger] frames[i]).holds_backspace() && frames[i].frame_time
                    == dt,
        ensures
            ({
                let armed = RepeatTimer { elapsed: 0, active: true };
                let wanted = 1 + armed.repeats(held, dt, deletion_policy()) as int;
                let removed = if wanted > self.cursor {
                    self.cursor
                } else {
                    wanted
                };
                let after = self.run(frames, held as int + 1);
                &&& self.taken_back(after, removed)
                &&& after.backspace_repeat == armed.held(held, dt, deletion_policy())
            }),
        decreases held,
    {
        let armed = RepeatTimer { elapsed: 0, active: true };
        let policy = deletion_policy();
        if held == 0 {
            assert(self.run(frames, 0) == self);
            assert(self.buffer =~= self.buffer.subrange(0, self.cursor) + self.buffer.subrange(
                self.cursor,
                self.len(),
            ));
            self.lemma_taken_back_step(self, 0, frames[0].mouse_position, frames[0]);
            self.lemma_run_step(frames, 1);
        } else {
            let earlier = (held - 1) as nat;
            self.lemma_held_backspace(frames, earlier, dt);
            let before = self.run(frames, held as int);
            let frame = frames[held as int];
            let gone = self.cursor - before.cursor;
            assert(frame.holds_backspace() && frame.frame_time == dt);
            let timer = armed.held(earlier, dt, policy);
            assert(before.backspace_fires(frame) == timer.fires(false, true, dt, policy));
            assert(armed.held(held, dt, policy) == timer.ticked(false, true, dt, policy));
            assert(armed.repeats(held, dt, policy) == armed.repeats(earlier, dt, policy) + if timer.fires(
                false,
                true,
                dt,
                policy,
            ) {
                1nat
            } else {
                0nat
            });
            self.lemma_taken_back_step(before, gone, frame.mouse_position, frame);
            self.lemma_run_step(frames, held as int + 1);
        }
    }

    /// Backspace pressed and then held through `held` frames, each as long as
    /// the repeat interval, takes one character for the press and one for
    /// every whole interval for which the key was held beyond the repeat
    /// delay, as long as characters stand before the cursor.
    pub proof fn lemma_held_backspace_steady(self, frames: Seq<FrameInput>, held: nat)
        requires
            self.wf(),
            self.focused,
            self.anchor is None,
            frames.len() > held,
            frames[0].presses_backspace(),
            forall|i: int|
                1 <= i <= held ==> (#[trigger] frames[i]).holds_backspace() && frames[i].frame_time
                    == DELETION_INTERVAL,
        ensures
            ({
                let time = held * DELETION_INTERVAL;
                let wanted = if time > DELETION_DELAY {
                    1 + (time - DELETION_DELAY) / (DELETION_INTERVAL as int)
                } else {
                    1
                };
                let removed = if wanted > self.cursor {
                    self.cursor
                } else {
                    wanted
                };
                let after = self.run(frames, held as int + 1);
                &&& after.buffer == self.buffer.subrange(0, self.cursor - removed)
                    + self.buffer.subrange(self.cursor, self.len())
                &&& after.cursor == self.cursor - removed
                &&& after.anchor is None
                &&& self.taken_back(after, removed)
            }),
    {
        let waits = (DELETION_DELAY / DELETION_INTERVAL) as nat;
        self.lemma_held_backspace(frames, held, DELETION_INTERVAL as u32);
        RepeatTimer::lemma_steady_repeat(held, waits, deletion_policy());
    }

    /// Typing changes neither the capacity nor the filter.
    pub proof fn lemma_typed_keeps_setup(self, chars: Seq<char>, count: int)
        ensures
            self.typed(chars, count).max_length == self.max_length,
            self.typed(chars, count).pattern == self.pattern,
            self.typed(chars, count).transform == self.transform,
        decreases count,
    {
        if 0 < count <= chars.len() {
            self.lemma_typed_keeps_setup(chars, count - 1);
        }
    }

    /// A step leaves a text that is within the capacity of the field within
    /// it.
    pub proof fn lemma_step_within_capacity(self, mouse: Point, input: FrameInput)
        requires
            0 <= self.cursor,
            0 <= self.scroll,
            self.anchor matches Some(a) ==> 0 <= a,
            self.len() <= self.max_length,
        ensures
            self.stepped(mouse, input).len() <= self.max_length,
            self.stepped(mouse, input).max_length == self.max_length,
    {
        self.lemma_normalized_wf();
        let blinked = self.normalized().blinked(input.frame_time);
        assert(blinked.visible_end() == self.normalized().visible_end());
        blinked.lemma_pointed_wf(mouse, input);
        blinked.pointed(mouse, input).lemma_keyed_wf(input);
    }
}

} // verus!
