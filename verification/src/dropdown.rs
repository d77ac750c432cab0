//! A dropdown list: a box that opens a column of rows below it, of which
//! one can be picked.

use crate::geometry::{Point, Rect};
use crate::input::FrameInput;
use vstd::prelude::*;
use vstd::string::StringExecFns;

verus! {

/// Number of rows that an open dropdown shows until the host sets another.
pub const DEFAULT_VISIBLE_ITEMS: usize = 5;

/// A dropdown list.
///
/// Where the first item is a label for "nothing" (see
/// `with_deselect_option`), picking it clears the selection, and
/// `selected_index` counts the items behind it.
#[derive(Debug)]
pub struct Dropdown {
    pub bounds: Rect,
    pub items: Vec<String>,
    pub selected_index: Option<usize>,
    pub is_open: bool,
    /// Index among all items of the row under the pointer.
    pub hover_index: Option<usize>,
    /// Largest number of rows that show at once.
    pub max_visible_items: usize,
    /// Index of the item in the first row. The wheel keeps it in the range in
    /// which every row has an item; a host that sets it, or takes items out,
    /// may leave it beyond, and rows without an item then show nothing.
    pub scroll_offset: usize,
}

/// One row of an open dropdown, as it is drawn.
#[derive(Clone, Copy, Debug, PartialEq, Eq, Structural)]
pub struct RowDrawing {
    /// Index of the item that the row shows.
    pub item: usize,
    /// The pointer is on the row.
    pub hovered: bool,
}

/// What to draw of the list of a dropdown.
#[derive(Debug)]
pub struct DropdownDrawing {
    /// The rows, from the top.
    pub rows: Vec<RowDrawing>,
    /// Items are hidden above the first row.
    pub more_above: bool,
    /// Items are hidden below the last row.
    pub more_below: bool,
}

/// Whether `label` is one of the labels that stand for "nothing".
pub open spec fn is_deselect_label(label: Seq<char>) -> bool {
    label == "None"@ || label == "Deselect"@ || label == "Clear"@
}

/// The distance from a box to one of its rows is far within the range of
/// the widest integers.
proof fn lemma_rows_in_range(height: int, rows: int)
    requires
        -0x8000_0000 <= height <= 0x8000_0000,
        0 <= rows <= 0x1_0000_0000_0000_0001,
    ensures
        -0x8000_0000 * 0x1_0000_0000_0000_0001 <= height * rows <= 0x8000_0000
            * 0x1_0000_0000_0000_0001,
{
    assert(-0x8000_0000 * 0x1_0000_0000_0000_0001 <= height * rows <= 0x8000_0000
        * 0x1_0000_0000_0000_0001) by (nonlinear_arith)
        requires
            -0x8000_0000 <= height <= 0x8000_0000,
            0 <= rows <= 0x1_0000_0000_0000_0001,
    ;
}

impl Dropdown {
    /// Number of rows of the open list.
    pub open spec fn rows(&self) -> int {
        if self.items@.len() <= self.max_visible_items {
            self.items@.len() as int
        } else {
            self.max_visible_items as int
        }
    }

    /// The largest scroll offset: the one that shows the last item in the
    /// last row.
    pub open spec fn max_scroll(&self) -> int {
        self.items@.len() - self.rows()
    }

    /// The scroll offset leaves every row an item to show.
    pub open spec fn scroll_in_range(&self) -> bool {
        self.scroll_offset <= self.max_scroll()
    }

    /// Index of the item in row `row` of a list scrolled to `scroll`: the
    /// row counted on from the scroll offset. A sum beyond the largest index
    /// that can be written is held at that index, which no item has.
    pub open spec fn item_in_row(scroll: int, row: int) -> usize {
        if row + scroll > usize::MAX {
            usize::MAX
        } else {
            (row + scroll) as usize
        }
    }

    /// Whether the first item stands for "nothing".
    pub open spec fn deselectable(&self) -> bool {
        self.items@.len() > 0 && is_deselect_label(self.items@[0]@)
    }

    /// Whether `mouse` is on row `row` of the open list. The rows have the
    /// size of the box and follow below it.
    pub open spec fn on_row(&self, row: int, mouse: Point) -> bool {
        &&& self.bounds.x <= mouse.x < self.bounds.x + self.bounds.width
        &&& self.bounds.y + self.bounds.height * (row + 1) <= mouse.y < self.bounds.y
            + self.bounds.height * (row + 2)
    }

    /// The row under `mouse`, if there is one.
    pub open spec fn row_at(&self, mouse: Point) -> Option<int> {
        if exists|row: int| 0 <= row < self.rows() && self.on_row(row, mouse) {
            Some(choose|row: int| 0 <= row < self.rows() && self.on_row(row, mouse))
        } else {
            None
        }
    }

    /// What picking row `row` selects: the item in that row, by the scroll
    /// offset as it stands. Behind a label for "nothing" the items count
    /// from the second, and the label itself selects nothing.
    pub open spec fn picked(&self, row: int) -> Option<usize> {
        let item = Self::item_in_row(self.scroll_offset as int, row);
        if self.deselectable() {
            if item == 0 {
                None
            } else {
                Some((item - 1) as usize)
            }
        } else {
            Some(item)
        }
    }

    /// Whether the list is open after the mouse has been dealt with: a press
    /// on the box toggles it, a press elsewhere closes it.
    pub open spec fn open_after_mouse(&self, mouse: Point, input: FrameInput) -> bool {
        if input.mouse_left.pressed {
            if self.bounds.contains(mouse) {
                !self.is_open
            } else {
                false
            }
        } else {
            self.is_open
        }
    }

    /// The selection after the mouse has been dealt with: a press on a row
    /// of the open list picks it.
    pub open spec fn selected_after_mouse(&self, mouse: Point, input: FrameInput) -> Option<usize> {
        if input.mouse_left.pressed && !self.bounds.contains(mouse) && self.is_open {
            match self.row_at(mouse) {
                Some(row) => self.picked(row),
                None => self.selected_index,
            }
        } else {
            self.selected_index
        }
    }

    /// Whether the list is open after the frame: escape closes it.
    pub open spec fn open_after(&self, mouse: Point, input: FrameInput) -> bool {
        self.open_after_mouse(mouse, input) && !input.escape
    }

    /// The selection after the frame: escape on the open list clears it.
    pub open spec fn selected_after(&self, mouse: Point, input: FrameInput) -> Option<usize> {
        if self.open_after_mouse(mouse, input) && input.escape {
            None
        } else {
            self.selected_after_mouse(mouse, input)
        }
    }

    /// The scroll offset after the frame. The wheel moves an open list that
    /// does not show all items by one item a notch, and the result is held
    /// within the range in which every row has an item. Without the wheel
    /// the offset stays as it is.
    pub open spec fn scroll_after(&self, mouse: Point, input: FrameInput) -> int {
        if self.open_after(mouse, input) && self.items@.len() > self.max_visible_items
            && input.wheel_move != 0 {
            let wanted = self.scroll_offset - input.wheel_move;
            let most = self.items@.len() - self.max_visible_items;
            if wanted < 0 {
                0
            } else if wanted > most {
                most
            } else {
                wanted
            }
        } else {
            self.scroll_offset as int
        }
    }

    /// The item under the pointer after the frame: the item in the row
    /// under the pointer, by the scroll offset after the frame.
    pub open spec fn hover_after(&self, mouse: Point, input: FrameInput) -> Option<usize> {
        if self.open_after(mouse, input) {
            match self.row_at(mouse) {
                Some(row) => Some(Self::item_in_row(self.scroll_after(mouse, input), row)),
                None => None,
            }
        } else {
            None
        }
    }

    /// Number of rows of the open list that have an item to show.
    pub open spec fn rows_filled(&self) -> int {
        if self.scroll_offset >= self.items@.len() {
            0
        } else if self.items@.len() - self.scroll_offset < self.rows() {
            self.items@.len() - self.scroll_offset
        } else {
            self.rows()
        }
    }

    /// What the rows of the open list show, from the top: row `i` shows the
    /// item `i` on from the scroll offset, as long as there is such an item,
    /// and is hovered where that item is the hovered one.
    pub open spec fn rows_shown(&self) -> Seq<RowDrawing> {
        Seq::new(
            self.rows_filled() as nat,
            |i: int|
                RowDrawing {
                    item: (i + self.scroll_offset) as usize,
                    hovered: self.hover_index == Some((i + self.scroll_offset) as usize),
                },
        )
    }

    /// The rows lie one below the other: a point is on one of them at most.
    pub proof fn lemma_rows_apart(&self, mouse: Point, a: int, b: int)
        requires
            self.on_row(a, mouse),
            self.on_row(b, mouse),
        ensures
            a == b,
    {
        let h = self.bounds.height as int;
        if a < b {
            assert(h * (a + 2) <= h * (b + 1)) by (nonlinear_arith)
                requires
                    a + 2 <= b + 1,
                    h * (a + 1) < h * (a + 2),
            ;
        } else if b < a {
            assert(h * (b + 2) <= h * (a + 1)) by (nonlinear_arith)
                requires
                    b + 2 <= a + 1,
                    h * (b + 1) < h * (b + 2),
            ;
        }
    }
}

impl Dropdown {
    /// A closed dropdown with the given bounds and items and nothing
    /// selected.
    pub fn new(x: i32, y: i32, width: i32, height: i32, items: Vec<String>) -> (d: Dropdown)
        ensures
            d.bounds == (Rect { x, y, width, height }),
            d.items == items,
            d.selected_index is None,
            !d.is_open,
            d.hover_index is None,
            d.max_visible_items == DEFAULT_VISIBLE_ITEMS,
            d.scroll_offset == 0,
    {
        Dropdown {
            bounds: Rect::new(x, y, width, height),
            items,
            selected_index: None,
            is_open: false,
            hover_index: None,
            max_visible_items: DEFAULT_VISIBLE_ITEMS,
            scroll_offset: 0,
        }
    }

    /// A closed dropdown with one item for each of `options`, which is what
    /// the option displays as.
    pub fn from_enum<T: core::fmt::Display>(
        x: i32,
        y: i32,
        width: i32,
        height: i32,
        options: &[T],
    ) -> (d: Dropdown)
        ensures
            d.bounds == (Rect { x, y, width, height }),
            d.items@.len() == options@.len(),
            forall|i: int|
                0 <= i < options@.len() ==> vstd::string::to_string_from_display_ensures::<T>(
                    &options@[i],
                    #[trigger] d.items@[i],
                ),
            d.selected_index is None,
            !d.is_open,
            d.hover_index is None,
            d.max_visible_items == DEFAULT_VISIBLE_ITEMS,
            d.scroll_offset == 0,
    {
        let mut items: Vec<String> = Vec::new();
        let mut at: usize = 0;
        while at < options.len()
            invariant
                at <= options@.len(),
                items@.len() == at,
                forall|i: int|
                    0 <= i < at ==> vstd::string::to_string_from_display_ensures::<T>(
                        &options@[i],
                        #[trigger] items@[i],
                    ),
            decreases options@.len() - at,
        {
            items.push(options[at].to_string());
            at = at + 1;
        }
        Dropdown::new(x, y, width, height, items)
    }

    /// The dropdown with `label` put before its items, to stand for
    /// "nothing" where it is one of `None`, `Deselect` and `Clear`.
    pub fn with_deselect_option(self, label: &str) -> (d: Dropdown)
        ensures
            d.items@.len() == self.items@.len() + 1,
            d.items@[0]@ == label@,
            forall|i: int| 0 <= i < self.items@.len() ==> d.items@[i + 1] == self.items@[i],
            d.bounds == self.bounds,
            d.selected_index == self.selected_index,
            d.is_open == self.is_open,
            d.hover_index == self.hover_index,
            d.max_visible_items == self.max_visible_items,
            d.scroll_offset == self.scroll_offset,
    {
        let mut d = self;
        d.items.insert(0, String::from_str(label));
        d
    }

    /// Whether the first item stands for "nothing".
    pub fn has_deselect_option(&self) -> (b: bool)
        ensures
            b == self.deselectable(),
    {
        if self.items.len() == 0 {
            false
        } else {
            let first = &self.items[0];
            *first == String::from_str("None") || *first == String::from_str("Deselect") || *first
                == String::from_str("Clear")
        }
    }

    /// Number of rows of the open list.
    pub fn visible_rows(&self) -> (rows: usize)
        ensures
            rows == self.rows(),
    {
        if self.items.len() <= self.max_visible_items {
            self.items.len()
        } else {
            self.max_visible_items
        }
    }

    /// The row under `mouse`, if there is one.
    pub fn row_under(&self, mouse: Point) -> (row: Option<usize>)
        ensures
            (match row {
                Some(r) => Some(r as int),
                None => None,
            }) == self.row_at(mouse),
            row matches Some(r) ==> r < self.rows() && self.on_row(r as int, mouse),
    {
        let rows = self.visible_rows();
        let mx: i128 = mouse.x as i128;
        let my: i128 = mouse.y as i128;
        let left: i128 = self.bounds.x as i128;
        let top: i128 = self.bounds.y as i128;
        let width: i128 = self.bounds.width as i128;
        let height: i128 = self.bounds.height as i128;
        let mut row: usize = 0;
        while row < rows
            invariant
                row <= rows,
                rows == self.rows(),
                mx == mouse.x,
                my == mouse.y,
                left == self.bounds.x,
                top == self.bounds.y,
                width == self.bounds.width,
                height == self.bounds.height,
                forall|r: int| 0 <= r < row ==> !self.on_row(r, mouse),
            decreases rows - row,
        {
            proof {
                lemma_rows_in_range(height as int, row + 1);
                lemma_rows_in_range(height as int, row + 2);
            }
            let row_top: i128 = top + height * (row as i128 + 1);
            let row_bottom: i128 = top + height * (row as i128 + 2);
            if left <= mx && mx < left + width && row_top <= my && my < row_bottom {
                proof {
                    assert(self.on_row(row as int, mouse));
                    let chosen = choose|r: int| 0 <= r < self.rows() && self.on_row(r, mouse);
                    self.lemma_rows_apart(mouse, row as int, chosen);
                }
                return Some(row);
            }
            row = row + 1;
        }
        None
    }

    /// Index of the item in row `row` of a list scrolled to `scroll`.
    pub fn item_index(scroll: usize, row: usize) -> (item: usize)
        ensures
            item == Self::item_in_row(scroll as int, row as int),
    {
        row.saturating_add(scroll)
    }

    /// One frame: deals with a press on the box or on a row, with escape,
    /// with the wheel, and finds the row under the pointer.
    ///
    /// The scroll offset is taken as it stands. Where it leaves every row an
    /// item before the frame, it does so after it, and what is then hovered
    /// or newly selected is an item of the list.
    pub fn update(&mut self, mouse: Point, input: &FrameInput)
        ensures
            final(self).is_open == old(self).open_after(mouse, *input),
            final(self).selected_index == old(self).selected_after(mouse, *input),
            final(self).scroll_offset == old(self).scroll_after(mouse, *input),
            final(self).hover_index == old(self).hover_after(mouse, *input),
            final(self).items == old(self).items,
            final(self).bounds == old(self).bounds,
            final(self).max_visible_items == old(self).max_visible_items,
            old(self).scroll_in_range() ==> final(self).scroll_in_range(),
            old(self).scroll_in_range() ==> (final(self).hover_index matches Some(hovered)
                ==> hovered < final(self).items@.len()),
            old(self).scroll_in_range() ==> (final(self).selected_index == old(self).selected_index
                || final(self).selected_index is None || final(self).selected_item() is Some),
    {
        let row = self.row_under(mouse);
        let deselectable = self.has_deselect_option();
        self.hover_index = None;
        if input.mouse_left.pressed {
            if self.bounds.check_collision_point_rec(mouse) {
                self.is_open = !self.is_open;
            } else if self.is_open {
                match row {
                    Some(r) => {
                        let item = Self::item_index(self.scroll_offset, r);
                        if deselectable {
                            if item == 0 {
                                self.selected_index = None;
                            } else {
                                self.selected_index = Some(item - 1);
                            }
                        } else {
                            self.selected_index = Some(item);
                        }
                    },
                    None => {},
                }
                self.is_open = false;
            }
        }
        if self.is_open && input.escape {
            self.selected_index = None;
            self.is_open = false;
        }
        if self.is_open && self.items.len() > self.max_visible_items && input.wheel_move != 0 {
            let most: i128 = (self.items.len() - self.max_visible_items) as i128;
            let wanted: i128 = self.scroll_offset as i128 - input.wheel_move as i128;
            self.scroll_offset = if wanted < 0 {
                0
            } else if wanted > most {
                most as usize
            } else {
                wanted as usize
            };
        }
        if self.is_open {
            match row {
                Some(r) => {
                    self.hover_index = Some(Self::item_index(self.scroll_offset, r));
                },
                None => {},
            }
        }
    }

    /// What to draw of the list below the box: the rows that have an item,
    /// and whether items are hidden above the first row and below the last.
    /// A closed list has nothing to draw.
    pub fn draw(&self) -> (drawing: DropdownDrawing)
        ensures
            !self.is_open ==> drawing.rows@.len() == 0 && !drawing.more_above
                && !drawing.more_below,
            self.is_open ==> drawing.rows@ == self.rows_shown(),
            drawing.more_above == (self.is_open && self.items@.len() > self.max_visible_items
                && self.scroll_offset > 0),
            drawing.more_below == (self.is_open && self.items@.len() > self.max_visible_items
                && self.scroll_offset < self.items@.len() - self.max_visible_items),
    {
        let mut rows: Vec<RowDrawing> = Vec::new();
        if !self.is_open {
            return DropdownDrawing { rows, more_above: false, more_below: false };
        }
        let len = self.items.len();
        let filled: usize = if self.scroll_offset >= len {
            0
        } else if len - self.scroll_offset < self.visible_rows() {
            len - self.scroll_offset
        } else {
            self.visible_rows()
        };
        let mut row: usize = 0;
        while row < filled
            invariant
                row <= filled,
                filled == self.rows_filled(),
                len == self.items@.len(),
                filled > 0 ==> filled + self.scroll_offset <= len,
                rows@.len() == row,
                forall|i: int| 0 <= i < row ==> rows@[i] == self.rows_shown()[i],
            decreases filled - row,
        {
            let item = row + self.scroll_offset;
            let hovered = match self.hover_index {
                Some(h) => h == item,
                None => false,
            };
            rows.push(RowDrawing { item, hovered });
            row = row + 1;
        }
        assert(rows@ =~= self.rows_shown());
        let longer = len > self.max_visible_items;
        DropdownDrawing {
            rows,
            more_above: longer && self.scroll_offset > 0,
            more_below: longer && self.scroll_offset < len - self.max_visible_items,
        }
    }

    /// The selected item, if one is selected and there is such an item.
    pub fn get_selected_item(&self) -> (item: Option<&String>)
        ensures
            item == self.selected_item(),
    {
        match self.selected_index {
            Some(index) => {
                if self.has_deselect_option() {
                    if index < self.items.len() - 1 {
                        Some(&self.items[index + 1])
                    } else {
                        None
                    }
                } else if index < self.items.len() {
                    Some(&self.items[index])
                } else {
                    None
                }
            },
            None => None,
        }
    }

    /// The selected item: the item that `selected_index` counts to, behind
    /// the label for "nothing" where there is one.
    pub open spec fn selected_item(&self) -> Option<&String> {
        match self.selected_index {
            Some(index) => {
                let at = if self.deselectable() {
                    index + 1
                } else {
                    index as int
                };
                if at < self.items@.len() {
                    Some(&self.items@[at])
                } else {
                    None
                }
            },
            None => None,
        }
    }

    /// Puts `item` behind the others.
    pub fn add_item(&mut self, item: String)
        ensures
            final(self).items@ == old(self).items@.push(item),
            final(self).selected_index == old(self).selected_index,
            final(self).is_open == old(self).is_open,
            final(self).hover_index == old(self).hover_index,
            final(self).scroll_offset == old(self).scroll_offset,
            final(self).bounds == old(self).bounds,
            final(self).max_visible_items == old(self).max_visible_items,
    {
        self.items.push(item);
    }

    /// The selection after the item at `index` went: none where that item
    /// was selected, the same item as before where one behind it was.
    pub open spec fn selected_without(&self, index: usize) -> Option<usize> {
        match self.selected_index {
            Some(selected) => if selected == index {
                None
            } else if selected > index {
                Some((selected - 1) as usize)
            } else {
                Some(selected)
            },
            None => None,
        }
    }

    /// Takes out the item at `index`, if there is one.
    pub fn remove_item(&mut self, index: usize)
        ensures
            index < old(self).items@.len() ==> final(self).items@ == old(self).items@.remove(
                index as int,
            ),
            index < old(self).items@.len() ==> final(self).selected_index == old(
                self,
            ).selected_without(index),
            index >= old(self).items@.len() ==> final(self).items@ == old(self).items@,
            index >= old(self).items@.len() ==> final(self).selected_index == old(
                self,
            ).selected_index,
            final(self).is_open == old(self).is_open,
            final(self).hover_index == old(self).hover_index,
            final(self).scroll_offset == old(self).scroll_offset,
            final(self).bounds == old(self).bounds,
            final(self).max_visible_items == old(self).max_visible_items,
    {
        if index < self.items.len() {
            self.items.remove(index);
            match self.selected_index {
                Some(selected) => {
                    if selected == index {
                        self.selected_index = None;
                    } else if selected > index {
                        self.selected_index = Some(selected - 1);
                    }
                },
                None => {},
            }
        }
    }

    /// Takes out all items.
    pub fn clear_items(&mut self)
        ensures
            final(self).items@.len() == 0,
            final(self).selected_index is None,
            final(self).scroll_offset == 0,
            final(self).is_open == old(self).is_open,
            final(self).hover_index == old(self).hover_index,
            final(self).bounds == old(self).bounds,
            final(self).max_visible_items == old(self).max_visible_items,
    {
        self.items.clear();
        self.selected_index = None;
        self.scroll_offset = 0;
    }

    /// Selects nothing.
    pub fn clear_selection(&mut self)
        ensures
            *final(self) == (Dropdown { selected_index: None, ..*old(self) }),
    {
        self.selected_index = None;
    }

    /// Opens the list.
    pub fn open(&mut self)
        ensures
            *final(self) == (Dropdown { is_open: true, ..*old(self) }),
    {
        self.is_open = true;
    }

    /// Closes the list.
    pub fn close(&mut self)
        ensures
            *final(self) == (Dropdown { is_open: false, ..*old(self) }),
    {
        self.is_open = false;
    }

    /// Opens a closed list and closes an open one.
    pub fn toggle(&mut self)
        ensures
            *final(self) == (Dropdown { is_open: !old(self).is_open, ..*old(self) }),
    {
        self.is_open = !self.is_open;
    }
}

} // verus!
