//! The single-line text field: its state and the step that one frame of
//! input makes of it.

use crate::buffer::{copy_range, insert_range, remove_range};
use crate::filter::{admits, apply_filter, pattern_text, CharTransform};
use crate::geometry::{scale, Point, Rect};
use crate::input::FrameInput;
use crate::metrics::GlyphMetrics;
use crate::model::{FieldView, Mode, BLINK_PERIOD, SCROLL_STRIP_HEIGHT};
use crate::repeat::{deletion, navigation, RepeatTimer};
use crate::words::{find_word_end, find_word_start};
use vstd::prelude::*;
use vstd::string::StringExecFns;

verus! {

/// Advance assumed for every character until the host supplies metrics.
pub const DEFAULT_ADVANCE: u32 = 10;

/// Padding between the bounds and the text until the host sets another.
pub const DEFAULT_PADDING: u32 = 5;

/// Font size until the host sets another.
pub const DEFAULT_FONT_SIZE: i32 = 20;

/// A single-line text field.
///
/// The fields are public: a host may reset them between frames. Whatever it
/// leaves there, `update` first brings cursor, anchor and scroll offset back
/// into the text.
#[derive(Debug)]
pub struct TextField {
    pub bounds: Rect,
    /// The text, one element per character.
    pub text: Vec<char>,
    pub placeholder: String,
    /// Largest number of characters that typing and pasting fill the text
    /// to.
    pub max_length: usize,
    /// Distance in pixels between the left and right edges of the bounds and
    /// the text.
    pub padding: u32,
    pub font_size: i32,
    pub metrics: GlyphMetrics,
    /// The field has the keyboard focus.
    pub is_active: bool,
    /// Number of characters before the cursor.
    pub cursor_position: usize,
    /// Position in the blink cycle, in microseconds.
    pub cursor_blink_timer: u64,
    /// Index of the first character that shows.
    pub scroll_offset: usize,
    /// The scroll strip is being dragged.
    pub is_scrolling: bool,
    /// Regular expression that a typed character must match to be
    /// transformed.
    pub allowed_pattern: Option<String>,
    pub character_callback: Option<CharTransform>,
    /// Where the selection started; the cursor is its other end.
    pub selection_anchor: Option<usize>,
    pub left_repeat: RepeatTimer,
    pub right_repeat: RepeatTimer,
    pub home_end_repeat: RepeatTimer,
    pub backspace_repeat: RepeatTimer,
    pub delete_repeat: RepeatTimer,
}

impl View for TextField {
    type V = FieldView;

    open spec fn view(&self) -> FieldView {
        FieldView {
            bounds: self.bounds,
            buffer: self.text@,
            placeholder: self.placeholder@,
            max_length: self.max_length as int,
            padding: self.padding as int,
            font_size: self.font_size as int,
            metrics: self.metrics,
            focused: self.is_active,
            cursor: self.cursor_position as int,
            blink: self.cursor_blink_timer as int,
            scroll: self.scroll_offset as int,
            dragging: self.is_scrolling,
            pattern: pattern_text(self.allowed_pattern),
            transform: self.character_callback,
            anchor: match self.selection_anchor {
                Some(a) => Some(a as int),
                None => None,
            },
            left_repeat: self.left_repeat,
            right_repeat: self.right_repeat,
            home_end_repeat: self.home_end_repeat,
            backspace_repeat: self.backspace_repeat,
            delete_repeat: self.delete_repeat,
        }
    }
}

impl TextField {
    /// An empty field without focus, with the given bounds, that takes up to
    /// `max_length` characters.
    pub fn new(x: i32, y: i32, width: i32, height: i32, max_length: usize) -> (field: TextField)
        ensures
            field@.bounds == (Rect { x, y, width, height }),
            field@.buffer.len() == 0,
            field@.placeholder.len() == 0,
            field@.max_length == max_length,
            field@.padding == DEFAULT_PADDING,
            field@.font_size == DEFAULT_FONT_SIZE,
            field@.metrics.fallback == DEFAULT_ADVANCE,
            field@.metrics.advances@.len() == 0,
            !field@.focused,
            !field@.dragging,
            field@.cursor == 0,
            field@.scroll == 0,
            field@.blink == 0,
            field@.anchor is None,
            field@.pattern is None,
            field@.transform is None,
            field@.left_repeat == (RepeatTimer { elapsed: 0, active: false }),
            field@.right_repeat == field@.left_repeat,
            field@.home_end_repeat == field@.left_repeat,
            field@.backspace_repeat == field@.left_repeat,
            field@.delete_repeat == field@.left_repeat,
            field@.wf(),
    {
        let field = TextField {
            bounds: Rect::new(x, y, width, height),
            text: Vec::new(),
            placeholder: String::new(),
            max_length,
            padding: DEFAULT_PADDING,
            font_size: DEFAULT_FONT_SIZE,
            metrics: GlyphMetrics::fixed(DEFAULT_ADVANCE),
            is_active: false,
            cursor_position: 0,
            cursor_blink_timer: 0,
            scroll_offset: 0,
            is_scrolling: false,
            allowed_pattern: None,
            character_callback: None,
            selection_anchor: None,
            left_repeat: RepeatTimer::new(),
            right_repeat: RepeatTimer::new(),
            home_end_repeat: RepeatTimer::new(),
            backspace_repeat: RepeatTimer::new(),
            delete_repeat: RepeatTimer::new(),
        };
        proof {
            let v = field@;
            v.metrics.lemma_last_fit(v.buffer, 0, 0, v.viewport());
        }
        field
    }

    /// The field with `placeholder` as the text to show while it is empty.
    pub fn with_placeholder(self, placeholder: &str) -> (field: TextField)
        ensures
            field@ == (FieldView { placeholder: placeholder@, ..self@ }),
    {
        let mut field = self;
        field.placeholder = String::from_str(placeholder);
        field
    }

    /// The field with the glyph advances of the host's font.
    pub fn with_metrics(self, metrics: GlyphMetrics) -> (field: TextField)
        ensures
            field@ == (FieldView { metrics, ..self@ }),
    {
        let mut field = self;
        field.metrics = metrics;
        field
    }

    /// The field with the given font size and padding.
    pub fn with_layout(self, font_size: i32, padding: u32) -> (field: TextField)
        ensures
            field@ == (FieldView { font_size: font_size as int, padding: padding as int, ..self@ }),
    {
        let mut field = self;
        field.font_size = font_size;
        field.padding = padding;
        field
    }

    /// The field with `pattern`, a regular expression, deciding which typed
    /// characters the transform applies to.
    pub fn only_allow(self, pattern: &str) -> (field: TextField)
        ensures
            field@ == (FieldView { pattern: Some(pattern@), ..self@ }),
    {
        let mut field = self;
        field.allowed_pattern = Some(String::from_str(pattern));
        field
    }

    /// The field with `transform` applied to typed characters.
    pub fn change_character(self, transform: CharTransform) -> (field: TextField)
        ensures
            field@ == (FieldView { transform: Some(transform), ..self@ }),
    {
        let mut field = self;
        field.character_callback = Some(transform);
        field
    }

    /// What the field is doing.
    pub fn mode(&self) -> (mode: Mode)
        ensures
            mode == self@.mode(),
    {
        if self.is_scrolling {
            Mode::Dragging
        } else if !self.is_active {
            Mode::Unfocused
        } else if self.has_selection() {
            Mode::Selecting
        } else {
            Mode::Idle
        }
    }

    /// Width in pixels of the part of the field in which text shows.
    pub fn viewport(&self) -> (width: u32)
        ensures
            width == self@.viewport(),
    {
        let inner: i64 = self.bounds.width as i64 - 2 * (self.padding as i64);
        if inner < 0 {
            0
        } else {
            inner as u32
        }
    }

    /// Number of characters that show.
    pub fn get_max_visible_chars(&self) -> (count: usize)
        ensures
            count == self@.visible_count(),
    {
        if self.scroll_offset >= self.text.len() {
            0
        } else {
            let end = self.metrics.run_end(
                &self.text,
                self.scroll_offset,
                self.text.len(),
                self.viewport(),
            );
            end - self.scroll_offset
        }
    }

    /// Brings cursor and anchor back into the text and scrolls so that the
    /// cursor shows.
    pub fn update_scroll_offset(&mut self)
        ensures
            final(self)@ == old(self)@.normalized(),
            final(self)@.wf(),
    {
        let len = self.text.len();
        if self.cursor_position > len {
            self.cursor_position = len;
        }
        match self.selection_anchor {
            Some(a) => {
                if a > len {
                    self.selection_anchor = Some(len);
                }
            },
            None => {},
        }
        if self.cursor_position < self.scroll_offset {
            self.scroll_offset = self.cursor_position;
        } else {
            self.scroll_offset = self.metrics.run_start(
                &self.text,
                self.scroll_offset,
                self.cursor_position,
                self.viewport(),
            );
        }
        proof {
            old(self)@.lemma_normalized_wf();
        }
    }
}


impl TextField {
    /// Scrolls so that the cursor shows.
    fn rescroll(&mut self)
        requires
            old(self)@.indexed(),
        ensures
            final(self)@ == old(self)@.rescrolled(),
            final(self)@.wf(),
    {
        proof {
            assert(self@.clamped() =~= self@);
        }
        self.update_scroll_offset();
    }

    /// Moves the blink cycle on by `dt` microseconds.
    fn blink(&mut self, dt: u32)
        ensures
            final(self)@ == old(self)@.blinked(dt),
    {
        let total: u64 = self.cursor_blink_timer.saturating_add(dt as u64);
        if total >= BLINK_PERIOD {
            self.cursor_blink_timer = 0;
        } else {
            self.cursor_blink_timer = total;
        }
    }

    /// Index behind the last character that shows.
    fn visible_end(&self) -> (end: usize)
        requires
            self@.scroll <= self@.len(),
        ensures
            end == self@.visible_end(),
            self@.scroll <= end <= self@.len(),
            self@.metrics.span_width(self@.buffer, self@.scroll, end as int) <= self@.viewport(),
    {
        proof {
            let v = self@;
            v.metrics.lemma_last_fit(v.buffer, v.scroll, v.len(), v.viewport());
        }
        self.metrics.run_end(&self.text, self.scroll_offset, self.text.len(), self.viewport())
    }

    /// The anchor for a move of the cursor.
    fn anchor_for_move(&self, shift: bool) -> (anchor: Option<usize>)
        requires
            self@.indexed(),
        ensures
            (match anchor {
                Some(a) => Some(a as int),
                None => None,
            }) == self@.anchor_for_move(shift),
            anchor matches Some(a) ==> a <= self@.len(),
    {
        if shift {
            match self.selection_anchor {
                Some(a) => Some(a),
                None => Some(self.cursor_position),
            }
        } else {
            None
        }
    }

    /// Deals with the left button going down at `mouse`.
    fn click(&mut self, mouse: Point, shift: bool)
        requires
            old(self)@.wf(),
        ensures
            final(self)@ == old(self)@.clicked(mouse, shift),
            final(self)@.wf(),
    {
        if self.bounds.check_collision_point_rec(mouse) {
            let end = self.visible_end();
            let x: i64 = mouse.x as i64 - self.bounds.x as i64 - self.padding as i64;
            let target = self.metrics.nearest(
                &self.text,
                self.scroll_offset,
                end,
                x,
                self.viewport(),
            );
            let on_strip = mouse.y as i64 >= self.bounds.y as i64 + self.bounds.height as i64
                - SCROLL_STRIP_HEIGHT as i64;
            self.selection_anchor = self.anchor_for_move(shift);
            self.is_active = true;
            self.cursor_position = target;
            if on_strip {
                self.is_scrolling = true;
            }
        } else {
            self.is_active = false;
            self.selection_anchor = None;
        }
    }

    /// Deals with a drag of the scroll strip with the pointer at `mouse_x`.
    fn drag(&mut self, mouse_x: i32)
        requires
            old(self)@.wf(),
        ensures
            final(self)@ == old(self)@.scrolled_to(old(self)@.drag_target(mouse_x as int)),
            final(self)@.wf(),
    {
        let visible = self.visible_end() - self.scroll_offset;
        let max_scroll = self.text.len() - visible;
        let width = self.bounds.width;
        let target: usize = if width <= 0 {
            0
        } else {
            let offset: i64 = mouse_x as i64 - self.bounds.x as i64;
            let along: u32 = if offset < 0 {
                0
            } else if offset > width as i64 {
                width as u32
            } else {
                offset as u32
            };
            scale(along as u64, width as u64, max_scroll as u64) as usize
        };
        self.scroll_offset = target;
        let end = self.visible_end();
        if self.cursor_position < target {
            self.cursor_position = target;
        } else if self.cursor_position > end {
            self.cursor_position = end;
        }
    }

    /// Deals with the mouse.
    fn handle_mouse(&mut self, mouse: Point, input: &FrameInput)
        requires
            old(self)@.wf(),
        ensures
            final(self)@ == old(self)@.pointed(mouse, *input),
            final(self)@.wf(),
    {
        if input.mouse_left.pressed {
            self.click(mouse, input.shift);
        }
        if self.is_scrolling && input.mouse_left.down {
            self.drag(mouse.x);
        }
        if input.mouse_left.released {
            self.is_scrolling = false;
        }
    }
}


impl TextField {
    /// Whether some text is selected.
    fn has_selection(&self) -> (b: bool)
        ensures
            b == self@.has_selection(),
    {
        match self.selection_anchor {
            Some(a) => a != self.cursor_position,
            None => false,
        }
    }

    /// Start and end of the selection.
    fn selection_range(&self) -> (range: (usize, usize))
        requires
            self@.indexed(),
        ensures
            range.0 == self@.selection_start(),
            range.1 == self@.selection_end(),
            range.0 <= range.1 <= self@.len(),
    {
        match self.selection_anchor {
            Some(a) => if a < self.cursor_position {
                (a, self.cursor_position)
            } else {
                (self.cursor_position, a)
            },
            None => (self.cursor_position, self.cursor_position),
        }
    }

    /// The selected text.
    fn selected_text(&self) -> (text: Vec<char>)
        requires
            self@.indexed(),
        ensures
            text@ == self@.selected_text(),
    {
        let (start, end) = self.selection_range();
        copy_range(&self.text, start, end)
    }

    /// Takes the selected text out and puts the cursor where it was.
    fn remove_selection(&mut self)
        requires
            old(self)@.indexed(),
        ensures
            final(self)@ == old(self)@.selection_removed(),
            final(self)@.indexed(),
    {
        let (start, end) = self.selection_range();
        remove_range(&mut self.text, start, end);
        self.cursor_position = start;
        self.selection_anchor = None;
    }

    /// Selects the whole text.
    fn select_all(&mut self)
        requires
            old(self)@.wf(),
        ensures
            final(self)@ == old(self)@.selected_all(),
            final(self)@.wf(),
    {
        self.selection_anchor = Some(0);
        self.cursor_position = self.text.len();
        self.rescroll();
    }

    /// Takes the selected text out, if there is any.
    fn cut(&mut self)
        requires
            old(self)@.wf(),
        ensures
            final(self)@ == old(self)@.cut(),
            final(self)@.wf(),
    {
        if self.has_selection() {
            self.remove_selection();
            self.rescroll();
        }
    }

    /// Puts `text` in at the cursor, in place of the selection if there is
    /// one, as far as there is room.
    fn paste(&mut self, text: &Vec<char>)
        requires
            old(self)@.wf(),
        ensures
            final(self)@ == old(self)@.pasted(text@),
            final(self)@.wf(),
    {
        if self.has_selection() {
            self.remove_selection();
        }
        let len = self.text.len();
        let room: usize = if len >= self.max_length {
            0
        } else {
            self.max_length - len
        };
        let count: usize = if text.len() <= room {
            text.len()
        } else {
            room
        };
        let start = self.cursor_position;
        insert_range(&mut self.text, start, text, count);
        self.cursor_position = start + count;
        self.selection_anchor = None;
        self.rescroll();
    }

    /// Deals with the shortcuts and returns what they put on the clipboard.
    fn handle_shortcuts(&mut self, input: &FrameInput) -> (copied: Option<Vec<char>>)
        requires
            old(self)@.wf(),
        ensures
            final(self)@ == old(self)@.shortcut(*input),
            final(self)@.wf(),
            (match copied {
                Some(text) => Some(text@),
                None => None,
            }) == old(self)@.copied(*input),
    {
        if input.ctrl && input.key_a {
            self.select_all();
        }
        let copied: Option<Vec<char>> = if input.ctrl && (input.key_c || input.key_x)
            && self.has_selection() {
            Some(self.selected_text())
        } else {
            None
        };
        if input.ctrl && input.key_x {
            self.cut();
        }
        if input.ctrl && input.key_v {
            match &input.clipboard {
                Some(text) => {
                    self.paste(text);
                },
                None => {},
            }
        }
        copied
    }
}


impl TextField {
    /// Moves the cursor to `target`, extending the selection with shift held
    /// and giving it up without.
    fn move_to(&mut self, target: usize, shift: bool)
        requires
            old(self)@.wf(),
            target <= old(self)@.len(),
        ensures
            final(self)@ == old(self)@.moved_to(target as int, shift),
            final(self)@.wf(),
    {
        self.selection_anchor = self.anchor_for_move(shift);
        self.cursor_position = target;
        self.rescroll();
    }

    /// Where the left arrow takes the cursor, by a word or by a character.
    fn left_target(&self, word: bool) -> (target: usize)
        requires
            self@.wf(),
        ensures
            target == self@.left_target(word),
            target <= self@.len(),
    {
        if word {
            find_word_start(&self.text, self.cursor_position)
        } else if self.cursor_position > 0 {
            self.cursor_position - 1
        } else {
            0
        }
    }

    /// Where the right arrow takes the cursor, by a word or by a character.
    fn right_target(&self, word: bool) -> (target: usize)
        requires
            self@.wf(),
        ensures
            target == self@.right_target(word),
            target <= self@.len(),
    {
        if word {
            if self.cursor_position < self.text.len() {
                find_word_end(&self.text, self.cursor_position)
            } else {
                self.text.len()
            }
        } else if self.cursor_position < self.text.len() {
            self.cursor_position + 1
        } else {
            self.text.len()
        }
    }

    /// Moves the repeat timers of the navigation keys on by the frame and
    /// says which of left, right, and home or end act.
    fn tick_navigation(&mut self, input: &FrameInput) -> (fires: (bool, bool, bool))
        ensures
            final(self)@ == old(self)@.navigation_ticked(*input),
            fires.0 == old(self)@.left_fires(*input),
            fires.1 == old(self)@.right_fires(*input),
            fires.2 == old(self)@.home_end_fires(*input),
    {
        let dt = input.frame_time;
        let left = self.left_repeat.tick(input.left.pressed, input.left.down, dt, navigation());
        let right = self.right_repeat.tick(input.right.pressed, input.right.down, dt, navigation());
        let home_end = self.home_end_repeat.tick(
            input.home.pressed || input.end.pressed,
            input.home.down || input.end.down,
            dt,
            navigation(),
        );
        (left, right, home_end)
    }

    /// Moves the cursor as the left arrow moves it.
    fn go_left(&mut self, input: &FrameInput)
        requires
            old(self)@.wf(),
        ensures
            final(self)@ == old(self)@.gone_left(*input),
            final(self)@.wf(),
    {
        let target = self.left_target(input.ctrl);
        self.move_to(target, input.shift);
    }

    /// Moves the cursor as the right arrow moves it.
    fn go_right(&mut self, input: &FrameInput)
        requires
            old(self)@.wf(),
        ensures
            final(self)@ == old(self)@.gone_right(*input),
            final(self)@.wf(),
    {
        let target = self.right_target(input.ctrl);
        self.move_to(target, input.shift);
    }

    /// Moves the cursor as home or end moves it.
    fn go_home_or_end(&mut self, input: &FrameInput)
        requires
            old(self)@.wf(),
        ensures
            final(self)@ == old(self)@.gone_home_or_end(*input),
            final(self)@.wf(),
    {
        let home = if input.home.pressed {
            true
        } else if input.end.pressed {
            false
        } else {
            !input.end.down
        };
        if home {
            self.move_to(0, input.shift);
        } else {
            let len = self.text.len();
            self.move_to(len, input.shift);
        }
    }

    /// Deals with the navigation keys.
    fn handle_navigation(&mut self, input: &FrameInput)
        requires
            old(self)@.wf(),
        ensures
            final(self)@ == old(self)@.navigated(*input),
            final(self)@.wf(),
    {
        proof {
            assert(self@.navigation_ticked(*input).visible_end() == self@.visible_end());
        }
        let (left, right, home_end) = self.tick_navigation(input);
        if left {
            self.go_left(input);
        }
        if right {
            self.go_right(input);
        }
        if home_end {
            self.go_home_or_end(input);
        }
    }

    /// Removes the character before the cursor.
    fn backspace(&mut self)
        requires
            old(self)@.wf(),
        ensures
            final(self)@ == old(self)@.backspaced(),
            final(self)@.wf(),
    {
        if self.cursor_position > 0 {
            self.text.remove(self.cursor_position - 1);
            self.cursor_position = self.cursor_position - 1;
            self.selection_anchor = None;
            self.rescroll();
        }
    }

    /// Removes the character at the cursor.
    fn delete_forward(&mut self)
        requires
            old(self)@.wf(),
        ensures
            final(self)@ == old(self)@.deleted(),
            final(self)@.wf(),
    {
        if self.cursor_position < self.text.len() {
            self.text.remove(self.cursor_position);
            self.selection_anchor = None;
            self.rescroll();
        }
    }

    /// Moves the repeat timers of backspace and delete on by the frame and
    /// says which of the two act.
    fn tick_deletion(&mut self, input: &FrameInput) -> (fires: (bool, bool))
        ensures
            final(self)@ == old(self)@.deletion_ticked(*input),
            fires.0 == old(self)@.backspace_fires(*input),
            fires.1 == old(self)@.delete_fires(*input),
    {
        let dt = input.frame_time;
        let back = self.backspace_repeat.tick(
            input.backspace.pressed,
            input.backspace.down,
            dt,
            deletion(),
        );
        let forward = self.delete_repeat.tick(
            input.delete.pressed,
            input.delete.down,
            dt,
            deletion(),
        );
        (back, forward)
    }

    /// Deals with backspace and delete.
    fn handle_deletion(&mut self, input: &FrameInput)
        requires
            old(self)@.wf(),
        ensures
            final(self)@ == old(self)@.erased(*input),
            final(self)@.wf(),
    {
        proof {
            assert(self@.deletion_ticked(*input).visible_end() == self@.visible_end());
        }
        let (back, forward) = self.tick_deletion(input);
        if self.has_selection() && (back || forward) {
            self.remove_selection();
            self.rescroll();
        } else {
            if back {
                self.backspace();
            }
            if forward {
                self.delete_forward();
            }
        }
    }

    /// The character that enters the text when `c` is typed.
    pub fn process_character(&self, c: char) -> (stored: char)
        ensures
            stored == crate::filter::processed(self@.pattern, self@.transform, c),
    {
        let is_admitted = admits(&self.allowed_pattern, c);
        apply_filter(c, is_admitted, self.character_callback)
    }

    /// Types `c`.
    fn insert_char(&mut self, c: char)
        requires
            old(self)@.wf(),
        ensures
            final(self)@ == old(self)@.typed_one(c),
            final(self)@.wf(),
    {
        if self.text.len() < self.max_length {
            let stored = self.process_character(c);
            self.text.insert(self.cursor_position, stored);
            self.cursor_position = self.cursor_position + 1;
            self.rescroll();
        }
    }

    /// Types `chars`, one after the other.
    fn insert_chars(&mut self, chars: &Vec<char>)
        requires
            old(self)@.wf(),
        ensures
            final(self)@ == old(self)@.typed(chars@, chars@.len() as int),
            final(self)@.wf(),
    {
        let mut done: usize = 0;
        while done < chars.len()
            invariant
                done <= chars@.len(),
                self@ == old(self)@.typed(chars@, done as int),
                self@.wf(),
            decreases chars@.len() - done,
        {
            self.insert_char(chars[done]);
            done = done + 1;
        }
    }

    /// Deals with the keyboard and returns what the shortcuts put on the
    /// clipboard.
    fn handle_keys(&mut self, input: &FrameInput) -> (copied: Option<Vec<char>>)
        requires
            old(self)@.wf(),
        ensures
            final(self)@ == old(self)@.keyed(*input),
            final(self)@.wf(),
            (match copied {
                Some(text) => Some(text@),
                None => None,
            }) == old(self)@.copied(*input),
    {
        let copied = self.handle_shortcuts(input);
        self.handle_navigation(input);
        self.handle_deletion(input);
        self.insert_chars(&input.chars);
        copied
    }

    /// One frame: brings the state back into the text, moves the blink cycle
    /// on, deals with the mouse and, with the focus, with the keyboard.
    ///
    /// Returns the text that copy or cut puts on the clipboard in this
    /// frame, for the host to put there.
    pub fn update(&mut self, mouse: Point, input: &FrameInput) -> (copied: Option<Vec<char>>)
        ensures
            final(self)@ == old(self)@.stepped(mouse, *input),
            (match copied {
                Some(text) => Some(text@),
                None => None,
            }) == old(self)@.clipboard_after(mouse, *input),
            final(self)@.wf(),
            final(self).cursor_position <= final(self).text@.len(),
            final(self).scroll_offset <= final(self).cursor_position <= final(self).scroll_offset
                + final(self)@.visible_count(),
            final(self).scroll_offset + final(self)@.visible_count() <= final(self).text@.len(),
            old(self)@.len() <= old(self)@.max_length ==> final(self)@.len() <= final(self)@.max_length,
    {
        proof {
            if self@.len() <= self@.max_length {
                self@.lemma_step_within_capacity(mouse, *input);
            }
            self@.lemma_step_valid(mouse, *input);
        }
        self.update_scroll_offset();
        self.blink(input.frame_time);
        self.handle_mouse(mouse, input);
        if self.is_active {
            self.handle_keys(input)
        } else {
            None
        }
    }

    /// One frame, with the pointer where `input` has it.
    pub fn handle_input(&mut self, input: &FrameInput) -> (copied: Option<Vec<char>>)
        ensures
            final(self)@ == old(self)@.stepped(input.mouse_position, *input),
            (match copied {
                Some(text) => Some(text@),
                None => None,
            }) == old(self)@.clipboard_after(input.mouse_position, *input),
            final(self)@.wf(),
    {
        self.update(input.mouse_position, input)
    }

    /// Empties the field.
    pub fn clear(&mut self)
        ensures
            final(self)@ == (FieldView {
                buffer: Seq::empty(),
                cursor: 0,
                scroll: 0,
                anchor: None,
                ..old(self)@
            }),
            final(self)@.wf(),
    {
        self.text.clear();
        self.cursor_position = 0;
        self.scroll_offset = 0;
        self.selection_anchor = None;
        proof {
            let v = self@;
            v.metrics.lemma_last_fit(v.buffer, 0, 0, v.viewport());
        }
    }

    /// Gives the field the focus and puts the cursor behind the text.
    pub fn activate(&mut self)
        ensures
            final(self)@ == (FieldView {
                focused: true,
                cursor: old(self)@.len(),
                ..old(self)@
            }).normalized(),
            final(self)@.wf(),
    {
        self.is_active = true;
        self.cursor_position = self.text.len();
        self.update_scroll_offset();
    }

    /// Takes the focus from the field; the selection goes with it.
    pub fn deactivate(&mut self)
        ensures
            final(self)@ == (FieldView { focused: false, anchor: None, ..old(self)@ }),
    {
        self.is_active = false;
        self.selection_anchor = None;
    }
}

} // verus!
