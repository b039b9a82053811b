//! Unbuffered terminal display mode.
//!
//! Characters are drawn as 8x8 cells from the top left to the bottom right
//! of the character grid, with no framebuffer of their own: every glyph
//! goes straight to the device. The cursor automaton keeps the logical
//! (column, row) cell position consistent with the controller's own
//! auto-incrementing write pointer, wrapping lines and screens itself.

use vstd::prelude::*;

use crate::command::AddrMode;
use crate::command::Command;
use crate::command::spec_init_sequence;
use crate::displayrotation::DisplayRotation;
use crate::displaysize::DisplaySize;
use crate::displaysize::lemma_size_facts;
use crate::error::Error;
use crate::interface::DisplayInterface;
use crate::properties::DisplayProperties;
use vstd::arithmetic::div_mod::lemma_mod_self_0;
use vstd::arithmetic::div_mod::lemma_small_mod;

verus! {

/// A bitmap-display character: either an 8x8 bitmap or a control marker.
#[derive(Clone, Copy)]
pub enum BitmapCharacter {
    /// An 8x8 bitmap, one byte per column of the cell.
    Bitmapped([u8; 8]),
    /// A newline, which moves the cursor to the start of the next line.
    Newline,
    /// A carriage return, which moves the cursor to the start of the
    /// current line.
    CarriageReturn,
}

/// Conversion from an input character type to a displayable 8x8 bitmap or
/// control marker. The spec functions fix which inputs act as control
/// characters and which 8 bytes every other input is drawn as; the pixel
/// patterns themselves are the implementor's choice of font.
pub trait CharacterBitmap<T>: Sized {
    /// Whether the input acts as a newline.
    spec fn is_newline(input: T) -> bool;

    /// Whether the input acts as a carriage return.
    spec fn is_carriage_return(input: T) -> bool;

    /// The 8-byte cell bitmap a non-control input is drawn as.
    spec fn glyph_of(input: T) -> [u8; 8];

    /// Turn the input into a displayable 8x8 bitmap or control marker.
    fn to_bitmap(input: T) -> (r: BitmapCharacter)
        ensures
            (r is Newline) == Self::is_newline(input),
            (r is CarriageReturn) == Self::is_carriage_return(input),
            r matches BitmapCharacter::Bitmapped(b) ==> b == Self::glyph_of(input),
    ;
}

/// Carries the row that the cursor has wrapped around to.
pub struct CursorWrapEvent(pub u8);

/// Logical text position on the character grid.
#[derive(Clone, Copy, PartialEq, Eq, Structural, Debug)]
pub struct Cursor {
    /// Current cell column.
    pub col: u8,
    /// Current cell row.
    pub row: u8,
    /// Grid width in cells.
    pub width: u8,
    /// Grid height in cells.
    pub height: u8,
}

impl Cursor {
    /// Current cell column.
    pub open spec fn col(self) -> u8 {
        self.col
    }

    /// Current cell row.
    pub open spec fn row(self) -> u8 {
        self.row
    }

    /// Grid width in cells.
    pub open spec fn width(self) -> u8 {
        self.width
    }

    /// Grid height in cells.
    pub open spec fn height(self) -> u8 {
        self.height
    }

    /// The position always lies on the (nonempty) grid.
    pub open spec fn wf(self) -> bool {
        0 < self.width() && 0 < self.height() && self.col() < self.width() && self.row()
            < self.height()
    }

    /// The row after `self.row()`, wrapping past the last row to row 0.
    pub open spec fn next_row(self) -> u8 {
        if self.row() + 1 < self.height() {
            (self.row() + 1) as u8
        } else {
            0
        }
    }

    /// A cursor at the top left of the cell grid of a panel
    /// `width_pixels` by `height_pixels`, at 8 pixels per cell.
    pub fn new(width_pixels: u8, height_pixels: u8) -> (r: Cursor)
        requires
            8 <= width_pixels,
            8 <= height_pixels,
        ensures
            r.wf(),
            r.col() == 0,
            r.row() == 0,
            r.width() == width_pixels / 8,
            r.height() == height_pixels / 8,
    {
        let width = width_pixels / 8;
        let height = height_pixels / 8;
        Cursor { col: 0, row: 0, width, height }
    }

    /// Advance the logical cursor by one character cell. Stepping past the
    /// last column wraps to column 0 of the next row, and past the last row
    /// back to row 0; a wrap is reported with the new row.
    pub fn advance(&mut self) -> (r: Option<CursorWrapEvent>)
        requires
            old(self).wf(),
        ensures
            final(self).wf(),
            final(self).width() == old(self).width(),
            final(self).height() == old(self).height(),
            old(self).col() + 1 < old(self).width() ==> {
                &&& final(self).col() == old(self).col() + 1
                &&& final(self).row() == old(self).row()
                &&& r is None
            },
            old(self).col() + 1 == old(self).width() ==> {
                &&& final(self).col() == 0
                &&& final(self).row() == old(self).next_row()
                &&& r matches Some(ev) && ev.0 == old(self).next_row()
            },
    {
        proof {
            if old(self).col() + 1 < old(self).width() {
                lemma_small_mod((old(self).col() + 1) as nat, old(self).width() as nat);
            } else {
                lemma_mod_self_0(old(self).width() as int);
            }
            if old(self).row() + 1 < old(self).height() {
                lemma_small_mod((old(self).row() + 1) as nat, old(self).height() as nat);
            } else {
                lemma_mod_self_0(old(self).height() as int);
            }
        }
        self.col = (self.col + 1) % self.width;
        if self.col == 0 {
            self.row = (self.row + 1) % self.height;
            Some(CursorWrapEvent(self.row))
        } else {
            None
        }
    }

    /// Move the logical cursor, capping each coordinate at the last valid
    /// cell.
    pub fn set_position(&mut self, col: u8, row: u8)
        requires
            old(self).wf(),
        ensures
            final(self).wf(),
            final(self).width() == old(self).width(),
            final(self).height() == old(self).height(),
            final(self).col() == if col < old(self).width() {
                col
            } else {
                (old(self).width() - 1) as u8
            },
            final(self).row() == if row < old(self).height() {
                row
            } else {
                (old(self).height() - 1) as u8
            },
    {
        self.col = if col < self.width {
            col
        } else {
            self.width - 1
        };
        self.row = if row < self.height {
            row
        } else {
            self.height - 1
        };
    }

    /// The cursor position on screen, in (column, row) order.
    pub fn get_position(&self) -> (r: (u8, u8))
        ensures
            r.0 == self.col(),
            r.1 == self.row(),
    {
        (self.col, self.row)
    }

    /// The grid dimensions in cells, as (width, height).
    pub fn get_dimensions(&self) -> (r: (u8, u8))
        ensures
            r.0 == self.width(),
            r.1 == self.height(),
    {
        (self.width, self.height)
    }

    /// How many cells fit on the current line before it wraps.
    pub fn get_remaining_columns_in_line(&self) -> (r: u8)
        requires
            self.wf(),
        ensures
            r == self.width() - self.col(),
    {
        self.width - self.col
    }
}

/// `n` blank character cells as a data block: `8 * n` zero bytes.
pub open spec fn blank_cells(n: int) -> Seq<u8> {
    Seq::new((8 * n) as nat, |i: int| 0u8)
}

/// Terminal mode handler.
pub struct TerminalMode<DI> {
    properties: DisplayProperties<DI>,
    cursor: Option<Cursor>,
}

impl<DI> TerminalMode<DI> where DI: DisplayInterface {
    /// The underlying addressing handle.
    pub closed spec fn props(self) -> DisplayProperties<DI> {
        self.properties
    }

    /// The cursor, present only after a position reset has entered text
    /// mode.
    pub closed spec fn cursor(self) -> Option<Cursor> {
        self.cursor
    }

    /// The active panel geometry.
    pub open spec fn size(self) -> DisplaySize {
        self.props().size()
    }

    /// The addressing mode the driver last set.
    pub open spec fn mode(self) -> AddrMode {
        self.props().mode()
    }

    /// The rotation the driver last set.
    pub open spec fn rotation(self) -> DisplayRotation {
        self.props().rotation()
    }

    /// Command bytes sent to the device so far.
    pub open spec fn cmds(self) -> Seq<u8> {
        self.props().cmds()
    }

    /// Data bytes sent to the device so far.
    pub open spec fn data(self) -> Seq<u8> {
        self.props().data()
    }

    /// Character grid width in cells.
    pub open spec fn grid_width(self) -> int {
        self.size().width() / 8
    }

    /// Character grid height in cells.
    pub open spec fn grid_height(self) -> int {
        self.size().height() / 8
    }

    /// When a cursor exists it lies on the character grid that the active
    /// geometry spans.
    pub open spec fn wf(self) -> bool {
        self.cursor() matches Some(c) ==> c.wf() && c.width() == self.grid_width() && c.height()
            == self.grid_height()
    }

    /// Wrap an addressing handle into terminal mode; no cursor exists until
    /// the position is first reset.
    pub fn new(properties: DisplayProperties<DI>) -> (r: TerminalMode<DI>)
        ensures
            r.wf(),
            r.props() == properties,
            r.cursor() is None,
    {
        TerminalMode { properties, cursor: None }
    }

    /// Give the addressing handle back, discarding the cursor.
    pub fn release(self) -> (r: DisplayProperties<DI>)
        ensures
            r == self.props(),
    {
        self.properties
    }

    /// Write out data to the display. In terminal mode every character
    /// already went straight to the device, so there is nothing to do.
    pub fn flush(&mut self) -> (r: Result<(), Error>)
        ensures
            r is Ok,
            *final(self) == *old(self),
    {
        Ok(())
    }

    /// The cell the next character will be written to, as (column, row).
    pub fn get_position(&self) -> (r: Result<(u8, u8), Error>)
        ensures
            self.cursor() matches Some(c) ==> r == Ok::<(u8, u8), Error>((c.col(), c.row())),
            self.cursor() is None ==> r == Err::<(u8, u8), Error>(Error::CursorNotInitialized),
    {
        match &self.cursor {
            Some(c) => Ok(c.get_position()),
            None => Err(Error::CursorNotInitialized),
        }
    }

    /// Set the display rotation. The cursor needs no adjustment: the
    /// supported rotations only mirror the panel.
    pub fn set_rotation(&mut self, rotation: DisplayRotation) -> (r: Result<(), Error>)
        requires
            old(self).wf(),
        ensures
            final(self).wf(),
            final(self).size() == old(self).size(),
            final(self).mode() == old(self).mode(),
            final(self).cursor() == old(self).cursor(),
            r is Ok ==> final(self).cmds() == old(self).cmds() + Command::SegmentRemap(
                rotation.segment_remap(),
            ).spec_encode() + Command::ReverseComDir(rotation.reverse_com_dir()).spec_encode(),
            r is Ok ==> final(self).data() == old(self).data(),
            r is Ok ==> final(self).rotation() == rotation,
            r is Err ==> r == Err::<(), Error>(Error::TransportFailure),
            r is Err ==> final(self).rotation() == old(self).rotation(),
    {
        self.properties.set_rotation(rotation)
    }

    /// Zero the device's row and column pointers and start a fresh cursor
    /// at the top left.
    fn reset_pos(&mut self) -> (r: Result<(), Error>)
        requires
            old(self).wf(),
        ensures
            final(self).wf(),
            final(self).size() == old(self).size(),
            final(self).rotation() == old(self).rotation(),
            final(self).mode() == old(self).mode(),
            r is Ok ==> final(self).cmds() == old(self).cmds() + Command::ColStart(
                0,
            ).spec_encode() + Command::PageStart(0).spec_encode(),
            r is Ok ==> final(self).data() == old(self).data(),
            r is Ok ==> (final(self).cursor() matches Some(c) && c.col() == 0 && c.row() == 0
                && c.width() == old(self).grid_width() && c.height() == old(self).grid_height()),
            r is Err ==> r == Err::<(), Error>(Error::TransportFailure),
            r is Err ==> final(self).cursor() == old(self).cursor(),
    {
        self.properties.set_column(0)?;
        self.properties.set_row(0)?;
        proof {
            lemma_size_facts(self.properties.size());
        }
        let (display_width, display_height) = self.properties.get_dimensions();
        self.cursor = Some(Cursor::new(display_width, display_height));
        Ok(())
    }

    /// Advance the cursor by one cell; when the line wraps, point the
    /// device's row pointer at the new row, since page addressing wraps
    /// columns but never rows.
    fn advance_cursor(&mut self) -> (r: Result<(), Error>)
        requires
            old(self).wf(),
        ensures
            final(self).wf(),
            final(self).size() == old(self).size(),
            final(self).rotation() == old(self).rotation(),
            final(self).mode() == old(self).mode(),
            r is Ok ==> final(self).data() == old(self).data(),
            old(self).cursor() is None ==> r == Err::<(), Error>(Error::CursorNotInitialized)
                && *final(self) == *old(self),
            old(self).cursor() matches Some(cur) ==> {
                &&& (cur.col() + 1 < cur.width() ==> {
                    &&& r is Ok
                    &&& final(self).cmds() == old(self).cmds()
                    &&& (final(self).cursor() matches Some(c2) && c2.col() == cur.col() + 1
                        && c2.row() == cur.row() && c2.width() == cur.width() && c2.height()
                        == cur.height())
                })
                &&& (cur.col() + 1 == cur.width() ==> {
                    &&& (r is Ok ==> final(self).cmds() == old(self).cmds() + Command::PageStart(
                        cur.next_row(),
                    ).spec_encode())
                    &&& (r is Err ==> r == Err::<(), Error>(Error::TransportFailure))
                    &&& (final(self).cursor() matches Some(c2) && c2.col() == 0 && c2.row()
                        == cur.next_row() && c2.width() == cur.width() && c2.height()
                        == cur.height())
                })
            },
    {
        match self.cursor {
            None => Err(Error::CursorNotInitialized),
            Some(stored) => {
                proof {
                    lemma_size_facts(self.properties.size());
                }
                let mut cur = stored;
                let wrap = cur.advance();
                self.cursor = Some(cur);
                match wrap {
                    Some(ev) => {
                        let new_row = ev.0;
                        self.properties.set_row(new_row * 8)?;
                        Ok(())
                    }
                    None => Ok(()),
                }
            }
        }
    }

    /// Print one character. A glyph is drawn at the cursor cell and the
    /// cursor advances, wrapping lines and screens; a newline pads the rest
    /// of the line with blank cells so the cursor lands at column 0 of the
    /// next row; a carriage return moves the cursor back to column 0 of the
    /// current row. Without a cursor the call is rejected before anything
    /// reaches the device.
    pub fn print_char<T>(&mut self, c: T) -> (r: Result<(), Error>) where
        TerminalMode<DI>: CharacterBitmap<T>,

        requires
            old(self).wf(),
        ensures
            final(self).wf(),
            final(self).size() == old(self).size(),
            final(self).rotation() == old(self).rotation(),
            final(self).mode() == old(self).mode(),
            old(self).cursor() is None ==> r == Err::<(), Error>(Error::CursorNotInitialized)
                && *final(self) == *old(self),
            old(self).cursor() is Some && r is Err ==> r == Err::<(), Error>(
                Error::TransportFailure,
            ),
            old(self).cursor() matches Some(cur) ==> {
                &&& (r is Ok && Self::is_newline(c) ==> {
                    &&& final(self).data() == old(self).data() + blank_cells(
                        cur.width() - cur.col(),
                    )
                    &&& final(self).cmds() == old(self).cmds() + Command::PageStart(
                        cur.next_row(),
                    ).spec_encode()
                    &&& (final(self).cursor() matches Some(c2) && c2.col() == 0 && c2.row()
                        == cur.next_row() && c2.width() == cur.width() && c2.height()
                        == cur.height())
                })
                &&& (r is Ok && Self::is_carriage_return(c) ==> {
                    &&& final(self).data() == old(self).data()
                    &&& final(self).cmds() == old(self).cmds() + Command::ColStart(
                        0,
                    ).spec_encode()
                    &&& (final(self).cursor() matches Some(c2) && c2.col() == 0 && c2.row()
                        == cur.row() && c2.width() == cur.width() && c2.height() == cur.height())
                })
                &&& (r is Ok && !Self::is_newline(c) && !Self::is_carriage_return(c) ==> {
                    &&& final(self).data() == old(self).data() + Self::glyph_of(c)@
                    &&& (cur.col() + 1 < cur.width() ==> final(self).cmds() == old(self).cmds()
                        && (final(self).cursor() matches Some(c2) && c2.col() == cur.col() + 1
                        && c2.row() == cur.row() && c2.width() == cur.width() && c2.height()
                        == cur.height()))
                    &&& (cur.col() + 1 == cur.width() ==> final(self).cmds() == old(self).cmds()
                        + Command::PageStart(cur.next_row()).spec_encode() && (final(self).cursor()
                        matches Some(c2) && c2.col() == 0 && c2.row() == cur.next_row()
                        && c2.width() == cur.width() && c2.height() == cur.height()))
                })
            },
    {
        if self.cursor.is_none() {
            return Err(Error::CursorNotInitialized);
        }
        match Self::to_bitmap(c) {
            BitmapCharacter::Bitmapped(bitmap) => {
                self.properties.draw(bitmap.as_slice())?;
                self.advance_cursor()?;
                Ok(())
            }
            BitmapCharacter::Newline => {
                let ghost data0 = self.data();
                let ghost cur0 = self.cursor()->0;
                let num_spaces = match &self.cursor {
                    Some(cur) => cur.get_remaining_columns_in_line(),
                    None => 0,
                };
                let mut i: u8 = 0;
                while i < num_spaces
                    invariant
                        old(self).cursor() == Some(cur0),
                        self.wf(),
                        self.size() == old(self).size(),
                        self.rotation() == old(self).rotation(),
                        self.mode() == old(self).mode(),
                        num_spaces == cur0.width() - cur0.col(),
                        0 <= i <= num_spaces,
                        self.data() == data0 + blank_cells(i as int),
                        i < num_spaces ==> self.cmds() == old(self).cmds() && (self.cursor()
                            matches Some(ci) && ci.col() == cur0.col() + i && ci.row()
                            == cur0.row() && ci.width() == cur0.width() && ci.height()
                            == cur0.height()),
                        i == num_spaces ==> self.cmds() == old(self).cmds() + Command::PageStart(
                            cur0.next_row(),
                        ).spec_encode() && (self.cursor() matches Some(ci) && ci.col() == 0
                            && ci.row() == cur0.next_row() && ci.width() == cur0.width()
                            && ci.height() == cur0.height()),
                    decreases num_spaces - i,
                {
                    let blank: [u8; 8] = [0u8; 8];
                    proof {
                        assert(data0 + blank_cells(i as int) + blank@ =~= data0 + blank_cells(
                            i + 1,
                        ));
                    }
                    self.properties.draw(blank.as_slice())?;
                    self.advance_cursor()?;
                    i += 1;
                }
                Ok(())
            }
            BitmapCharacter::CarriageReturn => {
                self.properties.set_column(0)?;
                match &mut self.cursor {
                    Some(cur) => {
                        let (_, cur_line) = cur.get_position();
                        cur.set_position(0, cur_line);
                    }
                    None => {}
                }
                Ok(())
            }
        }
    }

    /// The cursor after printing `c` from `cur`, with every write
    /// succeeding.
    pub open spec fn spec_print_cursor(cur: Cursor, c: char) -> Cursor {
        if Self::is_carriage_return(c) {
            (Cursor { col: 0, row: cur.row, width: cur.width, height: cur.height })
        } else if Self::is_newline(c) || cur.col + 1 >= cur.width {
            (Cursor { col: 0, row: cur.next_row(), width: cur.width, height: cur.height })
        } else {
            (Cursor {
                col: (cur.col + 1) as u8,
                row: cur.row,
                width: cur.width,
                height: cur.height,
            })
        }
    }

    /// The data bytes that printing `c` from `cur` appends, with every
    /// write succeeding.
    pub open spec fn spec_print_data(cur: Cursor, c: char) -> Seq<u8> {
        if Self::is_carriage_return(c) {
            Seq::empty()
        } else if Self::is_newline(c) {
            blank_cells(cur.width - cur.col)
        } else {
            Self::glyph_of(c)@
        }
    }

    /// The command bytes that printing `c` from `cur` appends, with every
    /// write succeeding: the column pointer for a carriage return, the page
    /// pointer of the new row when the cursor wraps, nothing otherwise.
    pub open spec fn spec_print_cmds(cur: Cursor, c: char) -> Seq<u8> {
        if Self::is_carriage_return(c) {
            Command::ColStart(0).spec_encode()
        } else if Self::is_newline(c) || cur.col + 1 >= cur.width {
            Command::PageStart(cur.next_row()).spec_encode()
        } else {
            Seq::empty()
        }
    }

    /// The cursor after printing every character of `s` from `cur`, with
    /// every write succeeding.
    pub open spec fn spec_print_seq_cursor(cur: Cursor, s: Seq<char>) -> Cursor
        decreases s.len(),
    {
        if s.len() <= 0 {
            cur
        } else {
            Self::spec_print_seq_cursor(Self::spec_print_cursor(cur, s[0]), s.skip(1))
        }
    }

    /// The data bytes that printing every character of `s` from `cur`
    /// appends, with every write succeeding.
    pub open spec fn spec_print_seq_data(cur: Cursor, s: Seq<char>) -> Seq<u8>
        decreases s.len(),
    {
        if s.len() <= 0 {
            Seq::empty()
        } else {
            Self::spec_print_data(cur, s[0]) + Self::spec_print_seq_data(
                Self::spec_print_cursor(cur, s[0]),
                s.skip(1),
            )
        }
    }

    /// The command bytes that printing every character of `s` from `cur`
    /// appends, with every write succeeding.
    pub open spec fn spec_print_seq_cmds(cur: Cursor, s: Seq<char>) -> Seq<u8>
        decreases s.len(),
    {
        if s.len() <= 0 {
            Seq::empty()
        } else {
            Self::spec_print_cmds(cur, s[0]) + Self::spec_print_seq_cmds(
                Self::spec_print_cursor(cur, s[0]),
                s.skip(1),
            )
        }
    }

    /// Law: printing `a + b` is printing `a`, then printing `b` from the
    /// cursor that `a` left behind; the appended data and command streams
    /// concatenate accordingly. So printing a string character by
    /// character, or in two halves, or whole, all have the same effect.
    pub proof fn lemma_print_seq_concat(cur: Cursor, a: Seq<char>, b: Seq<char>)
        ensures
            Self::spec_print_seq_cursor(cur, a + b) == Self::spec_print_seq_cursor(
                Self::spec_print_seq_cursor(cur, a),
                b,
            ),
            Self::spec_print_seq_data(cur, a + b) == Self::spec_print_seq_data(cur, a)
                + Self::spec_print_seq_data(Self::spec_print_seq_cursor(cur, a), b),
            Self::spec_print_seq_cmds(cur, a + b) == Self::spec_print_seq_cmds(cur, a)
                + Self::spec_print_seq_cmds(Self::spec_print_seq_cursor(cur, a), b),
        decreases a.len(),
    {
        if a.len() == 0 {
            assert(a + b =~= b);
            assert(Seq::<u8>::empty() + Self::spec_print_seq_data(cur, b)
                =~= Self::spec_print_seq_data(cur, b));
            assert(Seq::<u8>::empty() + Self::spec_print_seq_cmds(cur, b)
                =~= Self::spec_print_seq_cmds(cur, b));
        } else {
            let cur1 = Self::spec_print_cursor(cur, a[0]);
            assert((a + b)[0] == a[0]);
            assert((a + b).skip(1) =~= a.skip(1) + b);
            Self::lemma_print_seq_concat(cur1, a.skip(1), b);
            let tail_cur = Self::spec_print_seq_cursor(cur1, a.skip(1));
            assert(Self::spec_print_data(cur, a[0]) + (Self::spec_print_seq_data(cur1, a.skip(1))
                + Self::spec_print_seq_data(tail_cur, b)) =~= (Self::spec_print_data(cur, a[0])
                + Self::spec_print_seq_data(cur1, a.skip(1))) + Self::spec_print_seq_data(
                tail_cur,
                b,
            ));
            assert(Self::spec_print_cmds(cur, a[0]) + (Self::spec_print_seq_cmds(cur1, a.skip(1))
                + Self::spec_print_seq_cmds(tail_cur, b)) =~= (Self::spec_print_cmds(cur, a[0])
                + Self::spec_print_seq_cmds(cur1, a.skip(1))) + Self::spec_print_seq_cmds(
                tail_cur,
                b,
            ));
        }
    }

    /// Print every character of `s` in order, stopping at the first
    /// failure, which is returned exactly as `print_char` reports it. On
    /// success the streams grow by each character's effect in turn and the
    /// cursor steps accordingly.
    pub fn write_str(&mut self, s: &str) -> (r: Result<(), Error>)
        requires
            old(self).wf(),
        ensures
            final(self).wf(),
            final(self).size() == old(self).size(),
            final(self).rotation() == old(self).rotation(),
            final(self).mode() == old(self).mode(),
            old(self).cursor() is None && s@.len() == 0 ==> r is Ok && *final(self) == *old(self),
            old(self).cursor() is None && s@.len() > 0 ==> r == Err::<(), Error>(
                Error::CursorNotInitialized,
            ) && *final(self) == *old(self),
            old(self).cursor() is Some && r is Err ==> r == Err::<(), Error>(
                Error::TransportFailure,
            ),
            old(self).cursor() matches Some(cur) ==> r is Ok ==> {
                &&& final(self).data() == old(self).data() + Self::spec_print_seq_data(cur, s@)
                &&& final(self).cmds() == old(self).cmds() + Self::spec_print_seq_cmds(cur, s@)
                &&& final(self).cursor() == Some(Self::spec_print_seq_cursor(cur, s@))
            },
    {
        let len = s.unicode_len();
        if len == 0 {
            proof {
                assert(self.data() + Seq::<u8>::empty() =~= self.data());
                assert(self.cmds() + Seq::<u8>::empty() =~= self.cmds());
            }
            return Ok(());
        }
        if self.cursor.is_none() {
            return Err(Error::CursorNotInitialized);
        }
        let ghost cur0 = self.cursor()->0;
        let ghost data0 = self.data();
        let ghost cmds0 = self.cmds();
        let mut i: usize = 0;
        while i < len
            invariant
                old(self).cursor() == Some(cur0),
                data0 == old(self).data(),
                cmds0 == old(self).cmds(),
                self.wf(),
                self.size() == old(self).size(),
                self.rotation() == old(self).rotation(),
                self.mode() == old(self).mode(),
                0 <= i <= len,
                len == s@.len(),
                self.cursor() == Some(Self::spec_print_seq_cursor(cur0, s@.take(i as int))),
                self.data() == data0 + Self::spec_print_seq_data(cur0, s@.take(i as int)),
                self.cmds() == cmds0 + Self::spec_print_seq_cmds(cur0, s@.take(i as int)),
            decreases len - i,
        {
            let ghost cur_i = Self::spec_print_seq_cursor(cur0, s@.take(i as int));
            let c = s.get_char(i);
            self.print_char(c)?;
            proof {
                let one = seq![c];
                assert(s@.take(i + 1) =~= s@.take(i as int) + one);
                Self::lemma_print_seq_concat(cur0, s@.take(i as int), one);
                assert(one.skip(1) =~= Seq::<char>::empty());
                let next = Self::spec_print_cursor(cur_i, c);
                assert(Self::spec_print_seq_data(next, Seq::<char>::empty()) == Seq::<u8>::empty());
                assert(Self::spec_print_seq_cmds(next, Seq::<char>::empty()) == Seq::<u8>::empty());
                assert(Self::spec_print_seq_cursor(next, Seq::<char>::empty()) == next);
                assert(one[0] == c);
                assert(Self::spec_print_seq_data(cur_i, one) =~= Self::spec_print_data(
                    cur_i,
                    c,
                ));
                assert(Self::spec_print_seq_cmds(cur_i, one) =~= Self::spec_print_cmds(
                    cur_i,
                    c,
                ));
                assert(Self::spec_print_seq_cursor(cur_i, one) == next);
                assert(data0 + Self::spec_print_seq_data(cur0, s@.take(i as int))
                    + Self::spec_print_data(cur_i, c) =~= data0 + (Self::spec_print_seq_data(
                    cur0,
                    s@.take(i as int),
                ) + Self::spec_print_data(cur_i, c)));
                assert(cmds0 + Self::spec_print_seq_cmds(cur0, s@.take(i as int))
                    + Self::spec_print_cmds(cur_i, c) =~= cmds0 + (Self::spec_print_seq_cmds(
                    cur0,
                    s@.take(i as int),
                ) + Self::spec_print_cmds(cur_i, c)));
            }
            i += 1;
        }
        proof {
            assert(s@.take(len as int) =~= s@);
        }
        Ok(())
    }

    /// Blank the whole screen and reset the cursor to the top left.
    /// Blanking runs under horizontal addressing, where the chip wraps
    /// through rows by itself; character writing needs page addressing, so
    /// the mode is switched back afterwards.
    pub fn clear(&mut self) -> (r: Result<(), Error>)
        requires
            old(self).wf(),
        ensures
            final(self).wf(),
            final(self).size() == old(self).size(),
            final(self).rotation() == old(self).rotation(),
            r is Ok ==> final(self).cmds() == old(self).cmds() + Command::AddressMode(
                AddrMode::Horizontal,
            ).spec_encode() + Command::ColumnAddress(
                0,
                (old(self).size().width() - 1) as u8,
            ).spec_encode() + Command::PageAddress(
                0,
                ((old(self).size().height() - 1) / 8) as u8,
            ).spec_encode() + Command::AddressMode(AddrMode::Page).spec_encode()
                + Command::ColStart(0).spec_encode() + Command::PageStart(0).spec_encode(),
            r is Ok ==> final(self).data() == old(self).data() + blank_cells(
                old(self).grid_width() * old(self).grid_height(),
            ),
            r is Ok ==> final(self).mode() == AddrMode::Page,
            r is Ok ==> (final(self).cursor() matches Some(c) && c.col() == 0 && c.row() == 0
                && c.width() == old(self).grid_width() && c.height() == old(self).grid_height()),
            r is Err ==> r == Err::<(), Error>(Error::TransportFailure),
            r is Err ==> final(self).cursor() == old(self).cursor(),
    {
        proof {
            lemma_size_facts(self.properties.size());
        }
        let display_size = self.properties.get_size();
        let numchars: u8 = match display_size {
            DisplaySize::Display128x64 => 128,
            DisplaySize::Display128x32 => 64,
            DisplaySize::Display96x16 => 24,
        };
        proof {
            match display_size {
                DisplaySize::Display128x64 => {
                    assert(self.grid_width() == 16 && self.grid_height() == 8);
                    assert(numchars == self.grid_width() * self.grid_height());
                }
                DisplaySize::Display128x32 => {
                    assert(self.grid_width() == 16 && self.grid_height() == 4);
                    assert(numchars == self.grid_width() * self.grid_height());
                }
                DisplaySize::Display96x16 => {
                    assert(self.grid_width() == 12 && self.grid_height() == 2);
                    assert(numchars == self.grid_width() * self.grid_height());
                }
            }
        }
        self.properties.change_mode(AddrMode::Horizontal)?;
        let (display_width, display_height) = self.properties.get_dimensions();
        self.properties.set_draw_area((0, 0), (display_width, display_height))?;
        let ghost cmds0 = self.cmds();
        let ghost data0 = self.data();
        let mut i: u8 = 0;
        while i < numchars
            invariant
                self.wf(),
                self.size() == old(self).size(),
                self.rotation() == old(self).rotation(),
                self.mode() == AddrMode::Horizontal,
                self.cursor() == old(self).cursor(),
                0 <= i <= numchars,
                self.cmds() == cmds0,
                self.data() == data0 + blank_cells(i as int),
            decreases numchars - i,
        {
            let blank: [u8; 8] = [0u8; 8];
            proof {
                assert(data0 + blank_cells(i as int) + blank@ =~= data0 + blank_cells(i + 1));
            }
            self.properties.draw(blank.as_slice())?;
            i += 1;
        }
        self.properties.change_mode(AddrMode::Page)?;
        self.reset_pos()?;
        Ok(())
    }

    /// Bring the device up in page addressing and put the cursor at the
    /// top left.
    pub fn init(&mut self) -> (r: Result<(), Error>)
        requires
            old(self).wf(),
        ensures
            final(self).wf(),
            final(self).size() == old(self).size(),
            final(self).rotation() == old(self).rotation(),
            r is Ok ==> final(self).cmds() == old(self).cmds() + spec_init_sequence(
                old(self).size(),
                AddrMode::Page,
                old(self).rotation(),
            ) + Command::ColStart(0).spec_encode() + Command::PageStart(0).spec_encode(),
            r is Ok ==> final(self).data() == old(self).data(),
            r is Ok ==> final(self).mode() == AddrMode::Page,
            r is Ok ==> (final(self).cursor() matches Some(c) && c.col() == 0 && c.row() == 0
                && c.width() == old(self).grid_width() && c.height() == old(self).grid_height()),
            r is Err ==> r == Err::<(), Error>(Error::TransportFailure),
            r is Err ==> final(self).cursor() == old(self).cursor(),
    {
        self.properties.init_with_mode(AddrMode::Page)?;
        self.reset_pos()?;
        Ok(())
    }

    /// Move the cursor to the cell the next character will be written to.
    /// Out-of-range coordinates are rejected outright, leaving the cursor
    /// and the device untouched.
    pub fn set_position(&mut self, column: u8, row: u8) -> (r: Result<(), Error>)
        requires
            old(self).wf(),
        ensures
            final(self).wf(),
            final(self).size() == old(self).size(),
            final(self).rotation() == old(self).rotation(),
            final(self).mode() == old(self).mode(),
            old(self).cursor() is None ==> r == Err::<(), Error>(Error::CursorNotInitialized)
                && *final(self) == *old(self),
            old(self).cursor() matches Some(cur) ==> {
                &&& (column >= cur.width() || row >= cur.height() ==> r == Err::<(), Error>(
                    Error::InvalidCoordinate,
                ) && *final(self) == *old(self))
                &&& (column < cur.width() && row < cur.height() ==> {
                    &&& (r is Ok ==> final(self).cmds() == old(self).cmds() + Command::ColStart(
                        (column * 8) as u8,
                    ).spec_encode() + Command::PageStart(row).spec_encode())
                    &&& (r is Ok ==> final(self).data() == old(self).data())
                    &&& (r is Ok ==> (final(self).cursor() matches Some(c2) && c2.col() == column
                        && c2.row() == row && c2.width() == cur.width() && c2.height()
                        == cur.height()))
                    &&& (r is Err ==> r == Err::<(), Error>(Error::TransportFailure)
                        && final(self).cursor() == old(self).cursor())
                })
            },
    {
        let (width, height) = match &self.cursor {
            Some(cur) => cur.get_dimensions(),
            None => {
                return Err(Error::CursorNotInitialized);
            }
        };
        if column >= width || row >= height {
            return Err(Error::InvalidCoordinate);
        }
        proof {
            lemma_size_facts(self.properties.size());
        }
        self.properties.set_column(column * 8)?;
        self.properties.set_row(row * 8)?;
        match &mut self.cursor {
            Some(cur) => {
                cur.set_position(column, row);
            }
            None => {}
        }
        Ok(())
    }
}

/// The built-in 7x7 font; the newline and carriage-return characters map
/// to their control markers, and characters outside the font map to a
/// blank cell.
impl<DI> CharacterBitmap<char> for TerminalMode<DI> where DI: DisplayInterface {
    open spec fn is_newline(input: char) -> bool {
        input == '\n'
    }

    open spec fn is_carriage_return(input: char) -> bool {
        input == '\r'
    }

    /// The font table, stated: the exact 8 bytes each character cell is
    /// drawn as (control characters never reach a cell and map to blank).
    open spec fn glyph_of(input: char) -> [u8; 8] {
        match input {
            '\n' => [0x00, 0x00, 0x00, 0x00, 0x00, 0x00, 0x00, 0x00],
            '\r' => [0x00, 0x00, 0x00, 0x00, 0x00, 0x00, 0x00, 0x00],
            '!' => [0x00, 0x00, 0x5F, 0x00, 0x00, 0x00, 0x00, 0x00],
            '"' => [0x00, 0x07, 0x00, 0x07, 0x00, 0x00, 0x00, 0x00],
            '#' => [0x14, 0x7F, 0x14, 0x7F, 0x14, 0x00, 0x00, 0x00],
            '$' => [0x24, 0x2A, 0x7F, 0x2A, 0x12, 0x00, 0x00, 0x00],
            '%' => [0x23, 0x13, 0x08, 0x64, 0x62, 0x00, 0x00, 0x00],
            '&' => [0x36, 0x49, 0x55, 0x22, 0x50, 0x00, 0x00, 0x00],
            '\'' => [0x00, 0x05, 0x03, 0x00, 0x00, 0x00, 0x00, 0x00],
            '(' => [0x00, 0x1C, 0x22, 0x41, 0x00, 0x00, 0x00, 0x00],
            ')' => [0x00, 0x41, 0x22, 0x1C, 0x00, 0x00, 0x00, 0x00],
            '*' => [0x08, 0x2A, 0x1C, 0x2A, 0x08, 0x00, 0x00, 0x00],
            '+' => [0x08, 0x08, 0x3E, 0x08, 0x08, 0x00, 0x00, 0x00],
            ',' => [0x00, 0x50, 0x30, 0x00, 0x00, 0x00, 0x00, 0x00],
            '-' => [0x00, 0x18, 0x18, 0x18, 0x18, 0x18, 0x00, 0x00],
            '.' => [0x00, 0x60, 0x60, 0x00, 0x00, 0x00, 0x00, 0x00],
            '/' => [0x20, 0x10, 0x08, 0x04, 0x02, 0x00, 0x00, 0x00],
            '0' => [0x1C, 0x3E, 0x61, 0x41, 0x43, 0x3E, 0x1C, 0x00],
            '1' => [0x40, 0x42, 0x7F, 0x7F, 0x40, 0x40, 0x00, 0x00],
            '2' => [0x62, 0x73, 0x79, 0x59, 0x5D, 0x4F, 0x46, 0x00],
            '3' => [0x20, 0x61, 0x49, 0x4D, 0x4F, 0x7B, 0x31, 0x00],
            '4' => [0x18, 0x1C, 0x16, 0x13, 0x7F, 0x7F, 0x10, 0x00],
            '5' => [0x27, 0x67, 0x45, 0x45, 0x45, 0x7D, 0x38, 0x00],
            '6' => [0x3C, 0x7E, 0x4B, 0x49, 0x49, 0x79, 0x30, 0x00],
            '7' => [0x03, 0x03, 0x71, 0x79, 0x0D, 0x07, 0x03, 0x00],
            '8' => [0x36, 0x7F, 0x49, 0x49, 0x49, 0x7F, 0x36, 0x00],
            '9' => [0x06, 0x4F, 0x49, 0x49, 0x69, 0x3F, 0x1E, 0x00],
            ':' => [0x00, 0x36, 0x36, 0x00, 0x00, 0x00, 0x00, 0x00],
            ';' => [0x00, 0x56, 0x36, 0x00, 0x00, 0x00, 0x00, 0x00],
            '<' => [0x00, 0x08, 0x14, 0x22, 0x41, 0x00, 0x00, 0x00],
            '=' => [0x14, 0x14, 0x14, 0x14, 0x14, 0x00, 0x00, 0x00],
            '>' => [0x41, 0x22, 0x14, 0x08, 0x00, 0x00, 0x00, 0x00],
            '?' => [0x02, 0x01, 0x51, 0x09, 0x06, 0x00, 0x00, 0x00],
            '@' => [0x32, 0x49, 0x79, 0x41, 0x3E, 0x00, 0x00, 0x00],
            'A' => [0x7E, 0x11, 0x11, 0x11, 0x7E, 0x00, 0x00, 0x00],
            'B' => [0x7F, 0x49, 0x49, 0x49, 0x36, 0x00, 0x00, 0x00],
            'C' => [0x3E, 0x41, 0x41, 0x41, 0x22, 0x00, 0x00, 0x00],
            'D' => [0x7F, 0x7F, 0x41, 0x41, 0x63, 0x3E, 0x1C, 0x00],
            'E' => [0x7F, 0x49, 0x49, 0x49, 0x41, 0x00, 0x00, 0x00],
            'F' => [0x7F, 0x09, 0x09, 0x01, 0x01, 0x00, 0x00, 0x00],
            'G' => [0x3E, 0x41, 0x41, 0x51, 0x32, 0x00, 0x00, 0x00],
            'H' => [0x7F, 0x08, 0x08, 0x08, 0x7F, 0x00, 0x00, 0x00],
            'I' => [0x00, 0x41, 0x7F, 0x41, 0x00, 0x00, 0x00, 0x00],
            'J' => [0x20, 0x40, 0x41, 0x3F, 0x01, 0x00, 0x00, 0x00],
            'K' => [0x7F, 0x08, 0x14, 0x22, 0x41, 0x00, 0x00, 0x00],
            'L' => [0x7F, 0x7F, 0x40, 0x40, 0x40, 0x40, 0x00, 0x00],
            'M' => [0x7F, 0x02, 0x04, 0x02, 0x7F, 0x00, 0x00, 0x00],
            'N' => [0x7F, 0x04, 0x08, 0x10, 0x7F, 0x00, 0x00, 0x00],
            'O' => [0x3E, 0x7F, 0x41, 0x41, 0x41, 0x7F, 0x3E, 0x00],
            'P' => [0x7F, 0x09, 0x09, 0x09, 0x06, 0x00, 0x00, 0x00],
            'Q' => [0x3E, 0x41, 0x51, 0x21, 0x5E, 0x00, 0x00, 0x00],
            'R' => [0x7F, 0x7F, 0x11, 0x31, 0x79, 0x6F, 0x4E, 0x00],
            'S' => [0x46, 0x49, 0x49, 0x49, 0x31, 0x00, 0x00, 0x00],
            'T' => [0x01, 0x01, 0x7F, 0x01, 0x01, 0x00, 0x00, 0x00],
            'U' => [0x3F, 0x40, 0x40, 0x40, 0x3F, 0x00, 0x00, 0x00],
            'V' => [0x1F, 0x20, 0x40, 0x20, 0x1F, 0x00, 0x00, 0x00],
            'W' => [0x7F, 0x7F, 0x38, 0x1C, 0x38, 0x7F, 0x7F, 0x00],
            'X' => [0x63, 0x14, 0x08, 0x14, 0x63, 0x00, 0x00, 0x00],
            'Y' => [0x03, 0x04, 0x78, 0x04, 0x03, 0x00, 0x00, 0x00],
            'Z' => [0x61, 0x51, 0x49, 0x45, 0x43, 0x00, 0x00, 0x00],
            '[' => [0x00, 0x00, 0x7F, 0x41, 0x41, 0x00, 0x00, 0x00],
            '\\' => [0x02, 0x04, 0x08, 0x10, 0x20, 0x00, 0x00, 0x00],
            ']' => [0x41, 0x41, 0x7F, 0x00, 0x00, 0x00, 0x00, 0x00],
            '^' => [0x04, 0x02, 0x01, 0x02, 0x04, 0x00, 0x00, 0x00],
            '_' => [0x40, 0x40, 0x40, 0x40, 0x40, 0x00, 0x00, 0x00],
            '`' => [0x00, 0x01, 0x02, 0x04, 0x00, 0x00, 0x00, 0x00],
            'a' => [0x20, 0x54, 0x54, 0x54, 0x78, 0x00, 0x00, 0x00],
            'b' => [0x7F, 0x48, 0x44, 0x44, 0x38, 0x00, 0x00, 0x00],
            'c' => [0x38, 0x44, 0x44, 0x44, 0x20, 0x00, 0x00, 0x00],
            'd' => [0x38, 0x44, 0x44, 0x48, 0x7F, 0x00, 0x00, 0x00],
            'e' => [0x38, 0x54, 0x54, 0x54, 0x18, 0x00, 0x00, 0x00],
            'f' => [0x08, 0x7E, 0x09, 0x01, 0x02, 0x00, 0x00, 0x00],
            'g' => [0x08, 0x14, 0x54, 0x54, 0x3C, 0x00, 0x00, 0x00],
            'h' => [0x7F, 0x08, 0x04, 0x04, 0x78, 0x00, 0x00, 0x00],
            'i' => [0x00, 0x44, 0x7D, 0x40, 0x00, 0x00, 0x00, 0x00],
            'j' => [0x20, 0x40, 0x44, 0x3D, 0x00, 0x00, 0x00, 0x00],
            'k' => [0x00, 0x7F, 0x10, 0x28, 0x44, 0x00, 0x00, 0x00],
            'l' => [0x00, 0x41, 0x7F, 0x40, 0x00, 0x00, 0x00, 0x00],
            'm' => [0x7C, 0x04, 0x18, 0x04, 0x78, 0x00, 0x00, 0x00],
            'n' => [0x7C, 0x08, 0x04, 0x04, 0x78, 0x00, 0x00, 0x00],
            'o' => [0x38, 0x44, 0x44, 0x44, 0x38, 0x00, 0x00, 0x00],
            'p' => [0x7C, 0x14, 0x14, 0x14, 0x08, 0x00, 0x00, 0x00],
            'q' => [0x08, 0x14, 0x14, 0x18, 0x7C, 0x00, 0x00, 0x00],
            'r' => [0x7C, 0x08, 0x04, 0x04, 0x08, 0x00, 0x00, 0x00],
            's' => [0x48, 0x54, 0x54, 0x54, 0x20, 0x00, 0x00, 0x00],
            't' => [0x04, 0x3F, 0x44, 0x40, 0x20, 0x00, 0x00, 0x00],
            'u' => [0x3C, 0x40, 0x40, 0x20, 0x7C, 0x00, 0x00, 0x00],
            'v' => [0x1C, 0x20, 0x40, 0x20, 0x1C, 0x00, 0x00, 0x00],
            'w' => [0x3C, 0x40, 0x30, 0x40, 0x3C, 0x00, 0x00, 0x00],
            'x' => [0x00, 0x44, 0x28, 0x10, 0x28, 0x44, 0x00, 0x00],
            'y' => [0x0C, 0x50, 0x50, 0x50, 0x3C, 0x00, 0x00, 0x00],
            'z' => [0x44, 0x64, 0x54, 0x4C, 0x44, 0x00, 0x00, 0x00],
            '{' => [0x00, 0x08, 0x36, 0x41, 0x00, 0x00, 0x00, 0x00],
            '|' => [0x00, 0x00, 0x7F, 0x00, 0x00, 0x00, 0x00, 0x00],
            '}' => [0x00, 0x41, 0x36, 0x08, 0x00, 0x00, 0x00, 0x00],
            _ => [0x00, 0x00, 0x00, 0x00, 0x00, 0x00, 0x00, 0x00],
        }
    }

    #[verifier::rlimit(60)]
    fn to_bitmap(input: char) -> (r: BitmapCharacter) {
        match input {
            '\n' => BitmapCharacter::Newline,
            '\r' => BitmapCharacter::CarriageReturn,
            '!' => BitmapCharacter::Bitmapped([0x00, 0x00, 0x5F, 0x00, 0x00, 0x00, 0x00, 0x00]),
            '"' => BitmapCharacter::Bitmapped([0x00, 0x07, 0x00, 0x07, 0x00, 0x00, 0x00, 0x00]),
            '#' => BitmapCharacter::Bitmapped([0x14, 0x7F, 0x14, 0x7F, 0x14, 0x00, 0x00, 0x00]),
            '$' => BitmapCharacter::Bitmapped([0x24, 0x2A, 0x7F, 0x2A, 0x12, 0x00, 0x00, 0x00]),
            '%' => BitmapCharacter::Bitmapped([0x23, 0x13, 0x08, 0x64, 0x62, 0x00, 0x00, 0x00]),
            '&' => BitmapCharacter::Bitmapped([0x36, 0x49, 0x55, 0x22, 0x50, 0x00, 0x00, 0x00]),
            '\'' => BitmapCharacter::Bitmapped([0x00, 0x05, 0x03, 0x00, 0x00, 0x00, 0x00, 0x00]),
            '(' => BitmapCharacter::Bitmapped([0x00, 0x1C, 0x22, 0x41, 0x00, 0x00, 0x00, 0x00]),
            ')' => BitmapCharacter::Bitmapped([0x00, 0x41, 0x22, 0x1C, 0x00, 0x00, 0x00, 0x00]),
            '*' => BitmapCharacter::Bitmapped([0x08, 0x2A, 0x1C, 0x2A, 0x08, 0x00, 0x00, 0x00]),
            '+' => BitmapCharacter::Bitmapped([0x08, 0x08, 0x3E, 0x08, 0x08, 0x00, 0x00, 0x00]),
            ',' => BitmapCharacter::Bitmapped([0x00, 0x50, 0x30, 0x00, 0x00, 0x00, 0x00, 0x00]),
            '-' => BitmapCharacter::Bitmapped([0x00, 0x18, 0x18, 0x18, 0x18, 0x18, 0x00, 0x00]),
            '.' => BitmapCharacter::Bitmapped([0x00, 0x60, 0x60, 0x00, 0x00, 0x00, 0x00, 0x00]),
            '/' => BitmapCharacter::Bitmapped([0x20, 0x10, 0x08, 0x04, 0x02, 0x00, 0x00, 0x00]),
            '0' => BitmapCharacter::Bitmapped([0x1C, 0x3E, 0x61, 0x41, 0x43, 0x3E, 0x1C, 0x00]),
            '1' => BitmapCharacter::Bitmapped([0x40, 0x42, 0x7F, 0x7F, 0x40, 0x40, 0x00, 0x00]),
            '2' => BitmapCharacter::Bitmapped([0x62, 0x73, 0x79, 0x59, 0x5D, 0x4F, 0x46, 0x00]),
            '3' => BitmapCharacter::Bitmapped([0x20, 0x61, 0x49, 0x4D, 0x4F, 0x7B, 0x31, 0x00]),
            '4' => BitmapCharacter::Bitmapped([0x18, 0x1C, 0x16, 0x13, 0x7F, 0x7F, 0x10, 0x00]),
            '5' => BitmapCharacter::Bitmapped([0x27, 0x67, 0x45, 0x45, 0x45, 0x7D, 0x38, 0x00]),
            '6' => BitmapCharacter::Bitmapped([0x3C, 0x7E, 0x4B, 0x49, 0x49, 0x79, 0x30, 0x00]),
            '7' => BitmapCharacter::Bitmapped([0x03, 0x03, 0x71, 0x79, 0x0D, 0x07, 0x03, 0x00]),
            '8' => BitmapCharacter::Bitmapped([0x36, 0x7F, 0x49, 0x49, 0x49, 0x7F, 0x36, 0x00]),
            '9' => BitmapCharacter::Bitmapped([0x06, 0x4F, 0x49, 0x49, 0x69, 0x3F, 0x1E, 0x00]),
            ':' => BitmapCharacter::Bitmapped([0x00, 0x36, 0x36, 0x00, 0x00, 0x00, 0x00, 0x00]),
            ';' => BitmapCharacter::Bitmapped([0x00, 0x56, 0x36, 0x00, 0x00, 0x00, 0x00, 0x00]),
            '<' => BitmapCharacter::Bitmapped([0x00, 0x08, 0x14, 0x22, 0x41, 0x00, 0x00, 0x00]),
            '=' => BitmapCharacter::Bitmapped([0x14, 0x14, 0x14, 0x14, 0x14, 0x00, 0x00, 0x00]),
            '>' => BitmapCharacter::Bitmapped([0x41, 0x22, 0x14, 0x08, 0x00, 0x00, 0x00, 0x00]),
            '?' => BitmapCharacter::Bitmapped([0x02, 0x01, 0x51, 0x09, 0x06, 0x00, 0x00, 0x00]),
            '@' => BitmapCharacter::Bitmapped([0x32, 0x49, 0x79, 0x41, 0x3E, 0x00, 0x00, 0x00]),
            'A' => BitmapCharacter::Bitmapped([0x7E, 0x11, 0x11, 0x11, 0x7E, 0x00, 0x00, 0x00]),
            'B' => BitmapCharacter::Bitmapped([0x7F, 0x49, 0x49, 0x49, 0x36, 0x00, 0x00, 0x00]),
            'C' => BitmapCharacter::Bitmapped([0x3E, 0x41, 0x41, 0x41, 0x22, 0x00, 0x00, 0x00]),
            'D' => BitmapCharacter::Bitmapped([0x7F, 0x7F, 0x41, 0x41, 0x63, 0x3E, 0x1C, 0x00]),
            'E' => BitmapCharacter::Bitmapped([0x7F, 0x49, 0x49, 0x49, 0x41, 0x00, 0x00, 0x00]),
            'F' => BitmapCharacter::Bitmapped([0x7F, 0x09, 0x09, 0x01, 0x01, 0x00, 0x00, 0x00]),
            'G' => BitmapCharacter::Bitmapped([0x3E, 0x41, 0x41, 0x51, 0x32, 0x00, 0x00, 0x00]),
            'H' => BitmapCharacter::Bitmapped([0x7F, 0x08, 0x08, 0x08, 0x7F, 0x00, 0x00, 0x00]),
            'I' => BitmapCharacter::Bitmapped([0x00, 0x41, 0x7F, 0x41, 0x00, 0x00, 0x00, 0x00]),
            'J' => BitmapCharacter::Bitmapped([0x20, 0x40, 0x41, 0x3F, 0x01, 0x00, 0x00, 0x00]),
            'K' => BitmapCharacter::Bitmapped([0x7F, 0x08, 0x14, 0x22, 0x41, 0x00, 0x00, 0x00]),
            'L' => BitmapCharacter::Bitmapped([0x7F, 0x7F, 0x40, 0x40, 0x40, 0x40, 0x00, 0x00]),
            'M' => BitmapCharacter::Bitmapped([0x7F, 0x02, 0x04, 0x02, 0x7F, 0x00, 0x00, 0x00]),
            'N' => BitmapCharacter::Bitmapped([0x7F, 0x04, 0x08, 0x10, 0x7F, 0x00, 0x00, 0x00]),
            'O' => BitmapCharacter::Bitmapped([0x3E, 0x7F, 0x41, 0x41, 0x41, 0x7F, 0x3E, 0x00]),
            'P' => BitmapCharacter::Bitmapped([0x7F, 0x09, 0x09, 0x09, 0x06, 0x00, 0x00, 0x00]),
            'Q' => BitmapCharacter::Bitmapped([0x3E, 0x41, 0x51, 0x21, 0x5E, 0x00, 0x00, 0x00]),
            'R' => BitmapCharacter::Bitmapped([0x7F, 0x7F, 0x11, 0x31, 0x79, 0x6F, 0x4E, 0x00]),
            'S' => BitmapCharacter::Bitmapped([0x46, 0x49, 0x49, 0x49, 0x31, 0x00, 0x00, 0x00]),
            'T' => BitmapCharacter::Bitmapped([0x01, 0x01, 0x7F, 0x01, 0x01, 0x00, 0x00, 0x00]),
            'U' => BitmapCharacter::Bitmapped([0x3F, 0x40, 0x40, 0x40, 0x3F, 0x00, 0x00, 0x00]),
            'V' => BitmapCharacter::Bitmapped([0x1F, 0x20, 0x40, 0x20, 0x1F, 0x00, 0x00, 0x00]),
            'W' => BitmapCharacter::Bitmapped([0x7F, 0x7F, 0x38, 0x1C, 0x38, 0x7F, 0x7F, 0x00]),
            'X' => BitmapCharacter::Bitmapped([0x63, 0x14, 0x08, 0x14, 0x63, 0x00, 0x00, 0x00]),
            'Y' => BitmapCharacter::Bitmapped([0x03, 0x04, 0x78, 0x04, 0x03, 0x00, 0x00, 0x00]),
            'Z' => BitmapCharacter::Bitmapped([0x61, 0x51, 0x49, 0x45, 0x43, 0x00, 0x00, 0x00]),
            '[' => BitmapCharacter::Bitmapped([0x00, 0x00, 0x7F, 0x41, 0x41, 0x00, 0x00, 0x00]),
            '\\' => BitmapCharacter::Bitmapped([0x02, 0x04, 0x08, 0x10, 0x20, 0x00, 0x00, 0x00]),
            ']' => BitmapCharacter::Bitmapped([0x41, 0x41, 0x7F, 0x00, 0x00, 0x00, 0x00, 0x00]),
            '^' => BitmapCharacter::Bitmapped([0x04, 0x02, 0x01, 0x02, 0x04, 0x00, 0x00, 0x00]),
            '_' => BitmapCharacter::Bitmapped([0x40, 0x40, 0x40, 0x40, 0x40, 0x00, 0x00, 0x00]),
            '`' => BitmapCharacter::Bitmapped([0x00, 0x01, 0x02, 0x04, 0x00, 0x00, 0x00, 0x00]),
            'a' => BitmapCharacter::Bitmapped([0x20, 0x54, 0x54, 0x54, 0x78, 0x00, 0x00, 0x00]),
            'b' => BitmapCharacter::Bitmapped([0x7F, 0x48, 0x44, 0x44, 0x38, 0x00, 0x00, 0x00]),
            'c' => BitmapCharacter::Bitmapped([0x38, 0x44, 0x44, 0x44, 0x20, 0x00, 0x00, 0x00]),
            'd' => BitmapCharacter::Bitmapped([0x38, 0x44, 0x44, 0x48, 0x7F, 0x00, 0x00, 0x00]),
            'e' => BitmapCharacter::Bitmapped([0x38, 0x54, 0x54, 0x54, 0x18, 0x00, 0x00, 0x00]),
            'f' => BitmapCharacter::Bitmapped([0x08, 0x7E, 0x09, 0x01, 0x02, 0x00, 0x00, 0x00]),
            'g' => BitmapCharacter::Bitmapped([0x08, 0x14, 0x54, 0x54, 0x3C, 0x00, 0x00, 0x00]),
            'h' => BitmapCharacter::Bitmapped([0x7F, 0x08, 0x04, 0x04, 0x78, 0x00, 0x00, 0x00]),
            'i' => BitmapCharacter::Bitmapped([0x00, 0x44, 0x7D, 0x40, 0x00, 0x00, 0x00, 0x00]),
            'j' => BitmapCharacter::Bitmapped([0x20, 0x40, 0x44, 0x3D, 0x00, 0x00, 0x00, 0x00]),
            'k' => BitmapCharacter::Bitmapped([0x00, 0x7F, 0x10, 0x28, 0x44, 0x00, 0x00, 0x00]),
            'l' => BitmapCharacter::Bitmapped([0x00, 0x41, 0x7F, 0x40, 0x00, 0x00, 0x00, 0x00]),
            'm' => BitmapCharacter::Bitmapped([0x7C, 0x04, 0x18, 0x04, 0x78, 0x00, 0x00, 0x00]),
            'n' => BitmapCharacter::Bitmapped([0x7C, 0x08, 0x04, 0x04, 0x78, 0x00, 0x00, 0x00]),
            'o' => BitmapCharacter::Bitmapped([0x38, 0x44, 0x44, 0x44, 0x38, 0x00, 0x00, 0x00]),
            'p' => BitmapCharacter::Bitmapped([0x7C, 0x14, 0x14, 0x14, 0x08, 0x00, 0x00, 0x00]),
            'q' => BitmapCharacter::Bitmapped([0x08, 0x14, 0x14, 0x18, 0x7C, 0x00, 0x00, 0x00]),
            'r' => BitmapCharacter::Bitmapped([0x7C, 0x08, 0x04, 0x04, 0x08, 0x00, 0x00, 0x00]),
            's' => BitmapCharacter::Bitmapped([0x48, 0x54, 0x54, 0x54, 0x20, 0x00, 0x00, 0x00]),
            't' => BitmapCharacter::Bitmapped([0x04, 0x3F, 0x44, 0x40, 0x20, 0x00, 0x00, 0x00]),
            'u' => BitmapCharacter::Bitmapped([0x3C, 0x40, 0x40, 0x20, 0x7C, 0x00, 0x00, 0x00]),
            'v' => BitmapCharacter::Bitmapped([0x1C, 0x20, 0x40, 0x20, 0x1C, 0x00, 0x00, 0x00]),
            'w' => BitmapCharacter::Bitmapped([0x3C, 0x40, 0x30, 0x40, 0x3C, 0x00, 0x00, 0x00]),
            'x' => BitmapCharacter::Bitmapped([0x00, 0x44, 0x28, 0x10, 0x28, 0x44, 0x00, 0x00]),
            'y' => BitmapCharacter::Bitmapped([0x0C, 0x50, 0x50, 0x50, 0x3C, 0x00, 0x00, 0x00]),
            'z' => BitmapCharacter::Bitmapped([0x44, 0x64, 0x54, 0x4C, 0x44, 0x00, 0x00, 0x00]),
            '{' => BitmapCharacter::Bitmapped([0x00, 0x08, 0x36, 0x41, 0x00, 0x00, 0x00, 0x00]),
            '|' => BitmapCharacter::Bitmapped([0x00, 0x00, 0x7F, 0x00, 0x00, 0x00, 0x00, 0x00]),
            '}' => BitmapCharacter::Bitmapped([0x00, 0x41, 0x36, 0x08, 0x00, 0x00, 0x00, 0x00]),
            _ => BitmapCharacter::Bitmapped([0x00, 0x00, 0x00, 0x00, 0x00, 0x00, 0x00, 0x00]),
        }
    }
}

} // verus!
