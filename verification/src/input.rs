//! A single-line text field: its content, cursor, scroll offset and
//! selection, and the edits that keys make to them.
//!
//! Positions count characters. A selection is a pair of its leftmost
//! position and its length.

use crate::event::{KeyCode, KeyEvent};
use crate::geometry::{Margin, Rect};
use crate::text::{chars_of, string_of};
use vstd::prelude::*;

verus! {

/// The state of a text field.
#[derive(Debug)]
pub struct InputState {
    content: Vec<char>,
    /// Position of the cursor in the text.
    cursor: usize,
    /// First position of the text that is shown.
    offset: usize,
    /// The selected stretch: its leftmost position and its length.
    selection: Option<(usize, usize)>,
}

/// [`InputState`] as plain values.
pub struct InputView {
    pub content: Seq<char>,
    pub cursor: usize,
    pub offset: usize,
    pub selection: Option<(usize, usize)>,
}

/// The distance between two positions.
pub open spec fn distance(a: int, b: int) -> int {
    if a < b {
        b - a
    } else {
        a - b
    }
}

/// The smaller of two positions.
pub open spec fn smaller(a: usize, b: usize) -> usize {
    if a < b {
        a
    } else {
        b
    }
}

/// The larger of two positions.
pub open spec fn larger(a: usize, b: usize) -> usize {
    if a > b {
        a
    } else {
        b
    }
}

/// The upper-case form of an ASCII letter; any other character unchanged.
pub open spec fn ascii_upper(c: char) -> char {
    if 'a' <= c && c <= 'z' {
        ((c as u8) - 32) as char
    } else {
        c
    }
}

/// See [`ascii_upper`].
pub fn to_ascii_upper(c: char) -> (out: char)
    ensures
        out == ascii_upper(c),
{
    if 'a' <= c && c <= 'z' {
        ((c as u8) - 32) as char
    } else {
        c
    }
}

impl InputView {
    /// The cursor stands within the text, and a selection lies within the
    /// text with the cursor at one of its ends.
    pub open spec fn wf(self) -> bool {
        &&& self.cursor <= self.content.len()
        &&& match self.selection {
            Some((start, len)) => start + len <= self.content.len() && (self.cursor == start
                || self.cursor == start + len),
            None => true,
        }
    }

    /// The empty field.
    pub open spec fn cleared() -> InputView {
        InputView { content: Seq::empty(), cursor: 0, offset: 0, selection: None }
    }

    /// The field holding `text`, the cursor at its end, nothing selected.
    pub open spec fn holding(text: Seq<char>) -> InputView {
        InputView { content: text, cursor: text.len() as usize, offset: 0, selection: None }
    }

    /// The text with `len` characters from `start` on replaced by `with`.
    pub open spec fn spliced(self, start: int, len: int, with: Seq<char>) -> Seq<char> {
        self.content.subrange(0, start) + with + self.content.subrange(
            start + len,
            self.content.len() as int,
        )
    }

    /// The field after `c` was typed: it replaces the selection if there is
    /// one and is inserted at the cursor otherwise; the cursor follows it.
    pub open spec fn pushed(self, c: char) -> InputView {
        match self.selection {
            Some((start, len)) => InputView {
                content: self.spliced(start as int, len as int, seq![c]),
                cursor: (start + 1) as usize,
                selection: None,
                ..self
            },
            None => InputView {
                content: self.content.insert(self.cursor as int, c),
                cursor: (self.cursor + 1) as usize,
                ..self
            },
        }
    }

    /// The field after backspace: the selection is deleted if there is one.
    /// Otherwise cursor and scroll offset move one to the left, stopping at
    /// zero, and the character then under the cursor is deleted.
    pub open spec fn backspaced(self) -> InputView {
        match self.selection {
            Some((start, len)) => InputView {
                content: self.spliced(start as int, len as int, Seq::empty()),
                cursor: start,
                selection: None,
                ..self
            },
            None => {
                let cursor = if self.cursor > 0 {
                    (self.cursor - 1) as usize
                } else {
                    0
                };
                let offset = if self.offset > 0 {
                    (self.offset - 1) as usize
                } else {
                    0
                };
                InputView {
                    content: if cursor < self.content.len() {
                        self.content.remove(cursor as int)
                    } else {
                        self.content
                    },
                    cursor,
                    offset,
                    ..self
                }
            },
        }
    }

    /// The selection after the cursor went from `from` to where it is now.
    /// Without `select` there is none. A cursor that did not move leaves it
    /// as it is. Otherwise the selection spans the farther of its old ends
    /// and the cursor; it begins at the cursor instead of the old start only
    /// when the cursor, coming from the start, moves right into it.
    pub open spec fn reselected(self, select: bool, from: usize) -> Option<(usize, usize)> {
        if !select {
            None
        } else if from == self.cursor {
            self.selection
        } else {
            let (start, len) = match self.selection {
                Some(s) => s,
                None => (from, 0usize),
            };
            let end = start + len;
            let shrinks_from_left = from <= start && self.cursor < end && self.cursor > from;
            let new_start = if shrinks_from_left {
                larger(self.cursor, start)
            } else {
                smaller(self.cursor, start)
            };
            let new_len = if distance(start as int, self.cursor as int) > distance(
                end,
                self.cursor as int,
            ) {
                distance(start as int, self.cursor as int)
            } else {
                distance(end, self.cursor as int)
            };
            if new_len != 0 {
                Some((new_start, new_len as usize))
            } else {
                None
            }
        }
    }

    /// The field after the cursor was sent to `target`, which is held at the
    /// end of the text.
    pub open spec fn moved(self, select: bool, target: usize) -> InputView {
        let cursor = if target < self.content.len() {
            target
        } else {
            self.content.len() as usize
        };
        let at = InputView { cursor, ..self };
        InputView { selection: at.reselected(select, self.cursor), ..at }
    }

    /// The position one to the left of the cursor, or zero.
    pub open spec fn left(self) -> usize {
        if self.cursor > 0 {
            (self.cursor - 1) as usize
        } else {
            0
        }
    }

    /// The position one to the right of the cursor, held at the largest `usize`.
    pub open spec fn right(self) -> usize {
        if self.cursor < usize::MAX {
            (self.cursor + 1) as usize
        } else {
            usize::MAX
        }
    }

    /// The field with everything selected and the cursor at the start.
    pub open spec fn selected_all(self) -> InputView {
        InputView { cursor: 0, selection: Some((0usize, self.content.len() as usize)), ..self }
    }

    /// A move that goes one step, to the start, or to the end of the text or
    /// beyond. Such moves keep a well-formed field well-formed.
    pub open spec fn is_step(self, target: usize) -> bool {
        ||| target == 0
        ||| target >= self.content.len()
        ||| distance(target as int, self.cursor as int) <= 1
    }

    /// The field after `key`, and whether the key was taken.
    pub open spec fn keyed(self, key: KeyEvent) -> (InputView, bool) {
        let shift = key.modifiers.shift;
        match key.code {
            KeyCode::Char(c) => if c == 'a' && key.modifiers.control {
                (self.selected_all(), true)
            } else if shift {
                (self.pushed(ascii_upper(c)), true)
            } else {
                (self.pushed(c), true)
            },
            KeyCode::Backspace => (self.backspaced(), true),
            KeyCode::Left => (self.moved(shift, self.left()), true),
            KeyCode::Right => (self.moved(shift, self.right()), true),
            KeyCode::Home => (self.moved(shift, 0), true),
            KeyCode::End => (self.moved(shift, self.content.len() as usize), true),
            _ => (self, false),
        }
    }
}

/// A step, a jump to the start and a jump to the end keep the field
/// well-formed, with or without selecting.
pub proof fn lemma_steps_keep_well_formed(field: InputView, select: bool, target: usize)
    requires
        field.wf(),
        field.is_step(target),
    ensures
        field.moved(select, target).wf(),
{
}

/// Every edit that a key makes keeps the field well-formed.
pub proof fn lemma_keys_keep_well_formed(field: InputView, key: KeyEvent)
    requires
        field.wf(),
        field.content.len() < usize::MAX,
    ensures
        field.keyed(key).0.wf(),
{
    lemma_steps_keep_well_formed(field, key.modifiers.shift, field.left());
    lemma_steps_keep_well_formed(field, key.modifiers.shift, field.right());
    lemma_steps_keep_well_formed(field, key.modifiers.shift, 0);
    lemma_steps_keep_well_formed(field, key.modifiers.shift, field.content.len() as usize);
}

/// Replaces `len` items of `content` from `start` on by the items of `with`.
fn splice(content: &mut Vec<char>, start: usize, len: usize, with: Option<char>)
    requires
        start + len <= old(content)@.len(),
    ensures
        final(content)@ == old(content)@.subrange(0, start as int) + (match with {
            Some(c) => seq![c],
            None => Seq::empty(),
        }) + old(content)@.subrange(start + len, old(content)@.len() as int),
{
    let ghost before = content@;
    let mut k: usize = 0;
    while k < len
        invariant
            k <= len,
            start + len <= before.len(),
            content@ == before.subrange(0, start as int) + before.subrange(
                start + k,
                before.len() as int,
            ),
        decreases len - k,
    {
        content.remove(start);
        k += 1;
    }
    match with {
        Some(c) => {
            content.insert(start, c);
        },
        None => {},
    }
}

impl View for InputState {
    type V = InputView;

    closed spec fn view(&self) -> InputView {
        InputView {
            content: self.content@,
            cursor: self.cursor,
            offset: self.offset,
            selection: self.selection,
        }
    }
}

impl InputState {
    /// An empty field.
    pub fn new() -> (out: InputState)
        ensures
            out@ == InputView::cleared(),
            out@.wf(),
    {
        InputState { content: Vec::new(), cursor: 0, offset: 0, selection: None }
    }

    /// The text, as a list of characters.
    pub fn chars(&self) -> (out: &Vec<char>)
        ensures
            out@ == self@.content,
    {
        &self.content
    }

    /// The text.
    pub fn content(&self) -> (out: String)
        ensures
            out@ == self@.content,
    {
        string_of(&self.content)
    }

    pub fn cursor(&self) -> (out: usize)
        ensures
            out == self@.cursor,
    {
        self.cursor
    }

    pub fn offset(&self) -> (out: usize)
        ensures
            out == self@.offset,
    {
        self.offset
    }

    pub fn selection(&self) -> (out: Option<(usize, usize)>)
        ensures
            out == self@.selection,
    {
        self.selection
    }

    /// Whether the field is well-formed; see [`InputView::wf`].
    pub fn is_well_formed(&self) -> (out: bool)
        ensures
            out == self@.wf(),
    {
        if self.cursor > self.content.len() {
            return false;
        }
        match self.selection {
            Some((start, len)) => {
                len <= self.content.len() && start <= self.content.len() - len && (self.cursor
                    == start || self.cursor == start + len)
            },
            None => true,
        }
    }

    /// Empties the field.
    pub fn clear(&mut self)
        ensures
            final(self)@ == InputView::cleared(),
            final(self)@.wf(),
    {
        self.content.clear();
        self.cursor = 0;
        self.offset = 0;
        self.selection = None;
    }

    /// Replaces the text; the cursor goes to its end and nothing is selected.
    pub fn change_all(&mut self, text: &str)
        ensures
            final(self)@ == InputView::holding(text@),
            final(self)@.wf(),
    {
        self.content = chars_of(text);
        self.cursor = self.content.len();
        self.offset = 0;
        self.selection = None;
    }

    /// Applies a key to the field. Returns whether the key was one that the
    /// field reacts to.
    pub fn handle_key(&mut self, key: KeyEvent) -> (out: bool)
        requires
            old(self)@.wf(),
        ensures
            (final(self)@, out) == old(self)@.keyed(key),
            final(self)@.wf(),
    {
        proof {
            lemma_steps_keep_well_formed(self@, key.modifiers.shift, self@.left());
            lemma_steps_keep_well_formed(self@, key.modifiers.shift, self@.right());
        }
        let shift_pressed = key.modifiers.shift;
        let ctrl_pressed = key.modifiers.control;
        match key.code {
            KeyCode::Char(c) => {
                if c == 'a' && ctrl_pressed {
                    self.select_all();
                } else if shift_pressed {
                    self.push(to_ascii_upper(c));
                } else {
                    self.push(c);
                }
                true
            },
            KeyCode::Backspace => {
                self.backspace();
                true
            },
            KeyCode::Left => {
                self.move_left(shift_pressed);
                true
            },
            KeyCode::Right => {
                self.move_right(shift_pressed);
                true
            },
            KeyCode::Home => {
                self.move_home(shift_pressed);
                true
            },
            KeyCode::End => {
                self.move_end(shift_pressed);
                true
            },
            _ => false,
        }
    }

    /// Types `c`.
    pub fn push(&mut self, c: char)
        requires
            old(self)@.wf(),
        ensures
            final(self)@ == old(self)@.pushed(c),
            final(self)@.wf(),
    {
        match self.selection {
            Some((start, len)) => {
                splice(&mut self.content, start, len, Some(c));
                let filled = self.content.len();
                assert(start < filled);
                self.cursor = start + 1;
            },
            None => {
                self.content.insert(self.cursor, c);
                let filled = self.content.len();
                assert(self.cursor < filled);
                self.cursor += 1;
            },
        }
        self.selection = None;
    }

    /// Deletes the selection, or the character before the cursor.
    pub fn backspace(&mut self)
        requires
            old(self)@.wf(),
        ensures
            final(self)@ == old(self)@.backspaced(),
            final(self)@.wf(),
    {
        match self.selection {
            Some((start, len)) => {
                splice(&mut self.content, start, len, None);
                self.cursor = start;
                self.selection = None;
            },
            None => {
                self.cursor = self.cursor.saturating_sub(1);
                self.offset = self.offset.saturating_sub(1);
                if self.cursor < self.content.len() {
                    self.content.remove(self.cursor);
                }
            },
        }
    }

    fn update_selection(&mut self, select: bool, orig_cursor: usize)
        requires
            old(self)@.selection matches Some((start, len)) ==> start + len <= usize::MAX,
        ensures
            final(self)@ == (InputView {
                selection: old(self)@.reselected(select, orig_cursor),
                ..old(self)@
            }),
    {
        if !select {
            self.selection = None;
            return ;
        }
        // The cursor stands where it stood: the selection stays.

        if orig_cursor == self.cursor {
            return ;
        }
        let (start, len) = match self.selection {
            Some(s) => s,
            None => (orig_cursor, 0),
        };
        self.selection = None;
        let end = start + len;

        let was_on_right_side = orig_cursor > start;
        let is_moving_right = self.cursor > orig_cursor;
        let shrinks_from_left = !was_on_right_side && self.cursor < end && is_moving_right;

        let new_start = if shrinks_from_left {
            if self.cursor > start {
                self.cursor
            } else {
                start
            }
        } else {
            if self.cursor < start {
                self.cursor
            } else {
                start
            }
        };
        let to_start = if start < self.cursor {
            self.cursor - start
        } else {
            start - self.cursor
        };
        let to_end = if end < self.cursor {
            self.cursor - end
        } else {
            end - self.cursor
        };
        let len = if to_start > to_end {
            to_start
        } else {
            to_end
        };
        if len != 0 {
            self.selection = Some((new_start, len));
        }
    }

    /// Sends the cursor to `cursor`, or to the end of the text if that is
    /// nearer. With `select` the selection follows; without, it is dropped.
    pub fn move_to(&mut self, select: bool, cursor: usize)
        requires
            old(self)@.wf(),
        ensures
            final(self)@ == old(self)@.moved(select, cursor),
            final(self)@.cursor <= final(self)@.content.len(),
            old(self)@.is_step(cursor) ==> final(self)@.wf(),
    {
        proof {
            if self@.is_step(cursor) {
                lemma_steps_keep_well_formed(self@, select, cursor);
            }
        }
        let orig_cursor = self.cursor;
        self.cursor = if cursor < self.content.len() {
            cursor
        } else {
            self.content.len()
        };
        self.update_selection(select, orig_cursor);
    }

    pub fn move_left(&mut self, select: bool)
        requires
            old(self)@.wf(),
        ensures
            final(self)@ == old(self)@.moved(select, old(self)@.left()),
            final(self)@.wf(),
    {
        self.move_to(select, self.cursor.saturating_sub(1));
    }

    pub fn move_right(&mut self, select: bool)
        requires
            old(self)@.wf(),
        ensures
            final(self)@ == old(self)@.moved(select, old(self)@.right()),
            final(self)@.wf(),
    {
        self.move_to(select, self.cursor.saturating_add(1));
    }

    pub fn move_home(&mut self, select: bool)
        requires
            old(self)@.wf(),
        ensures
            final(self)@ == old(self)@.moved(select, 0),
            final(self)@.wf(),
    {
        self.move_to(select, 0);
    }

    pub fn move_end(&mut self, select: bool)
        requires
            old(self)@.wf(),
        ensures
            final(self)@ == old(self)@.moved(select, old(self)@.content.len() as usize),
            final(self)@.wf(),
    {
        self.move_to(select, self.content.len());
    }

    /// Selects the whole text and puts the cursor at its start.
    pub fn select_all(&mut self)
        ensures
            final(self)@ == old(self)@.selected_all(),
            final(self)@.wf(),
    {
        self.cursor = 0;
        self.selection = Some((0, self.content.len()));
    }
}

impl Default for InputState {
    fn default() -> (out: InputState)
        ensures
            out@ == InputView::cleared(),
    {
        InputState::new()
    }
}

/// The text field as it is drawn: a border of one cell around one row of text.
#[derive(Clone, Copy, Debug, Default)]
pub struct Input;

/// Where the parts of a text field go.
#[derive(Clone, Copy, Debug, PartialEq, Eq)]
pub struct InputLayout {
    /// The cells inside the border.
    pub area: Rect,
    /// The stretch of the text that is shown, as its first position and the
    /// one after its last; `None` when the window reaches beyond the text,
    /// in which case nothing is drawn.
    pub visible: Option<(usize, usize)>,
    /// The selected cells on the first row of `area`: the first column and
    /// how many there are.
    pub highlight: Option<(u16, u16)>,
}

impl InputView {
    /// The scroll offset that brings the cursor into a window of `width`
    /// cells: a cursor at or beyond the right edge pulls the window along
    /// until it stands just past the window; a cursor left of the window
    /// becomes its first cell.
    pub open spec fn scrolled(self, width: u16) -> usize {
        if self.cursor < self.offset {
            self.cursor
        } else if self.cursor - self.offset >= width {
            (self.cursor - width) as usize
        } else {
            self.offset
        }
    }

    /// The stretch of text shown in a window of `width` cells at the
    /// current offset.
    pub open spec fn visible(self, width: u16) -> Option<(usize, usize)> {
        let shown = if width < self.content.len() {
            width as int
        } else {
            self.content.len() as int
        };
        if self.offset + shown <= self.content.len() {
            Some((self.offset, (self.offset + shown) as usize))
        } else {
            None
        }
    }

    /// The selected part of the window, in cells from its left edge: where
    /// it begins and where it ends.
    pub open spec fn selected_cells(self, width: u16) -> (int, int) {
        match self.selection {
            Some((start, len)) => {
                let from = if start - self.offset < 0 {
                    0
                } else {
                    start - self.offset
                };
                let to = if start + len - self.offset < 0 {
                    0
                } else {
                    start + len - self.offset
                };
                (
                    if from < width {
                        from
                    } else {
                        width as int
                    },
                    if to < width {
                        to
                    } else {
                        width as int
                    },
                )
            },
            None => (0, 0),
        }
    }

    /// The layout of the field inside `inner`, at the current offset.
    pub open spec fn laid_out(self, inner: Rect) -> InputLayout {
        let visible = self.visible(inner.width);
        let (from, to) = self.selected_cells(inner.width);
        InputLayout {
            area: inner,
            visible,
            highlight: if visible is Some && from < to {
                Some(((inner.x + from) as u16, (to - from) as u16))
            } else {
                None
            },
        }
    }
}

impl Input {
    /// Lays the field out in `area`, scrolling it first so that the cursor
    /// is in view.
    pub fn layout(area: Rect, state: &mut InputState) -> (out: InputLayout)
        requires
            old(state)@.wf(),
            area.x + area.width <= u16::MAX,
        ensures
            final(state)@ == (InputView {
                offset: old(state)@.scrolled(area.inner_spec(Margin { horizontal: 1, vertical: 1 }).width),
                ..old(state)@
            }),
            out == final(state)@.laid_out(area.inner_spec(Margin { horizontal: 1, vertical: 1 })),
    {
        let inner = area.inner(Margin::both(1));
        let width = inner.width as usize;

        if state.cursor < state.offset {
            state.offset = state.cursor;
        } else if state.cursor - state.offset >= width {
            state.offset = state.cursor - width;
        }
        let shown = if width < state.content.len() {
            width
        } else {
            state.content.len()
        };
        let visible = if shown <= state.content.len() && state.offset <= state.content.len()
            - shown {
            Some((state.offset, state.offset + shown))
        } else {
            None
        };
        let mut highlight: Option<(u16, u16)> = None;
        if visible.is_some() {
            match state.selection {
                Some((start, len)) => {
                    let to = (start + len).saturating_sub(state.offset);
                    let to = if to < width {
                        to
                    } else {
                        width
                    };
                    let from = start.saturating_sub(state.offset);
                    let from = if from < width {
                        from
                    } else {
                        width
                    };
                    if from < to {
                        highlight = Some((inner.x + from as u16, (to - from) as u16));
                    }
                },
                None => {},
            }
        }
        InputLayout { area: inner, visible, highlight }
    }
}

impl InputState {
    /// The cell at which the terminal's cursor is to be shown for a field
    /// drawn in `area`: as many cells right of the text's first cell as the
    /// cursor is from the scroll offset, counted modulo 65536 and held at the
    /// last column.
    pub fn sync_cursor(&self, area: Rect) -> (out: crate::geometry::Position)
        ensures
            out == cursor_cell(self@, area.inner_spec(Margin { horizontal: 1, vertical: 1 })),
    {
        let inner = area.inner(Margin::both(1));
        let gap = if self.cursor < self.offset {
            self.offset - self.cursor
        } else {
            self.cursor - self.offset
        };
        let shift: u16 = (gap % 65536) as u16;
        crate::geometry::Position { x: inner.x.saturating_add(shift), y: inner.y }
    }
}

/// See [`InputState::sync_cursor`].
pub open spec fn cursor_cell(field: InputView, inner: Rect) -> crate::geometry::Position {
    let gap = distance(field.cursor as int, field.offset as int);
    crate::geometry::Position {
        x: crate::geometry::sat_add(inner.x as int, gap % 65536) as u16,
        y: inner.y,
    }
}

} // verus!
