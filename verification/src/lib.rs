//! Driver core for a monochrome dot-matrix display controller.
//!
//! The controller is reached over a narrow command/data channel (the
//! [`interface::DisplayInterface`] trait). This crate keeps an in-memory
//! pixel buffer, encodes the controller's command protocol, and tracks the
//! cursor state for a text-mode layer. Pushing bytes over a concrete bus and
//! toggling reset pins belong to the code that implements the interface
//! trait, outside this crate.

use vstd::prelude::*;

pub mod command;
pub mod displayrotation;
pub mod displaysize;
pub mod error;
pub mod interface;
pub mod mode;
pub mod properties;

use crate::command::AddrMode;
use crate::command::Command;
use crate::command::send_init_sequence;
use crate::command::spec_init_sequence;
use crate::displayrotation::DisplayRotation;
use crate::displaysize::DisplaySize;
use crate::displaysize::lemma_size_facts;
use crate::error::Error;
use crate::interface::DisplayInterface;
use vstd::arithmetic::div_mod::lemma_fundamental_div_mod;
use vstd::slice::slice_subrange;

verus! {

/// Index of the byte holding pixel `(x, y)`: the buffer is organised as
/// `height / 8` pages of `width` columns, one byte per column of 8 pixel
/// rows.
pub open spec fn pixel_index(size: DisplaySize, x: int, y: int) -> int {
    (y / 8) * size.width() + x
}

/// The bit selecting pixel `(x, y)` inside its byte; bit 0 is the topmost
/// row of the page.
pub open spec fn pixel_mask(y: int) -> u8 {
    1u8 << ((y % 8) as u8)
}

/// Whether pixel `(x, y)` is lit in buffer `buf` under geometry `size`.
pub open spec fn spec_pixel(buf: Seq<u8>, size: DisplaySize, x: int, y: int) -> bool {
    buf[pixel_index(size, x, y)] & pixel_mask(y) != 0
}

/// The buffer after pixel `(x, y)` is set (`on`) or cleared (`!on`).
pub open spec fn spec_set_pixel(buf: Seq<u8>, size: DisplaySize, x: int, y: int, on: bool) -> Seq<
    u8,
> {
    let i = pixel_index(size, x, y);
    if on {
        buf.update(i, buf[i] | pixel_mask(y))
    } else {
        buf.update(i, buf[i] & !pixel_mask(y))
    }
}

/// Every in-range pixel owns a byte inside the geometry's buffer prefix.
pub proof fn lemma_pixel_index_bounds(size: DisplaySize, x: int, y: int)
    requires
        0 <= x < size.width(),
        0 <= y < size.height(),
    ensures
        0 <= pixel_index(size, x, y) < size.buffer_len(),
{
    match size {
        DisplaySize::Display128x64 => {
            assert(y / 8 < 8);
            assert(pixel_index(size, x, y) < 1024);
        }
        DisplaySize::Display128x32 => {
            assert(y / 8 < 4);
            assert(pixel_index(size, x, y) < 512);
        }
        DisplaySize::Display96x16 => {
            assert(y / 8 < 2);
            assert(pixel_index(size, x, y) < 192);
        }
    }
    lemma_size_facts(size);
}

/// Distinct in-range pixels share a byte only when they share a column and
/// a page.
proof fn lemma_pixel_index_injective(size: DisplaySize, x: int, y: int, x2: int, y2: int)
    requires
        0 <= x < size.width(),
        0 <= y < size.height(),
        0 <= x2 < size.width(),
        0 <= y2 < size.height(),
        pixel_index(size, x, y) == pixel_index(size, x2, y2),
    ensures
        x == x2,
        y / 8 == y2 / 8,
{
    match size {
        DisplaySize::Display128x64 => {
            assert(y / 8 < 8 && y2 / 8 < 8);
        }
        DisplaySize::Display128x32 => {
            assert(y / 8 < 4 && y2 / 8 < 4);
        }
        DisplaySize::Display96x16 => {
            assert(y / 8 < 2 && y2 / 8 < 2);
        }
    }
}

/// Setting bit `s` of a byte leaves every bit `t` readable: bit `s` is now
/// one, and the others keep their value.
proof fn lemma_bit_set(b: u8, s: u8, t: u8)
    by (bit_vector)
    requires
        s < 8,
        t < 8,
    ensures
        ((b | (1u8 << s)) & (1u8 << t) != 0) == (s == t || b & (1u8 << t) != 0),
{
}

/// Clearing bit `s` of a byte leaves every bit `t` readable: bit `s` is now
/// zero, and the others keep their value.
proof fn lemma_bit_clear(b: u8, s: u8, t: u8)
    by (bit_vector)
    requires
        s < 8,
        t < 8,
    ensures
        ((b & !(1u8 << s)) & (1u8 << t) != 0) == (s != t && b & (1u8 << t) != 0),
{
}

/// Law: after setting pixel `(x, y)`, reading it gives exactly the value
/// written, and every other in-range pixel is unchanged — writes do not
/// leak across bytes or across bits of a shared byte.
pub proof fn lemma_set_pixel_get_pixel(
    buf: Seq<u8>,
    size: DisplaySize,
    x: int,
    y: int,
    on: bool,
    x2: int,
    y2: int,
)
    requires
        buf.len() == 1024,
        0 <= x < size.width(),
        0 <= y < size.height(),
        0 <= x2 < size.width(),
        0 <= y2 < size.height(),
    ensures
        spec_pixel(spec_set_pixel(buf, size, x, y, on), size, x, y) == on,
        x2 != x || y2 != y ==> spec_pixel(spec_set_pixel(buf, size, x, y, on), size, x2, y2)
            == spec_pixel(buf, size, x2, y2),
{
    lemma_size_facts(size);
    lemma_pixel_index_bounds(size, x, y);
    lemma_pixel_index_bounds(size, x2, y2);
    let i = pixel_index(size, x, y);
    let i2 = pixel_index(size, x2, y2);
    let b = buf[i];
    let s = (y % 8) as u8;
    let t = (y2 % 8) as u8;
    lemma_bit_set(b, s, s);
    lemma_bit_clear(b, s, s);
    if x2 != x || y2 != y {
        if i2 == i {
            lemma_pixel_index_injective(size, x, y, x2, y2);
            lemma_fundamental_div_mod(y, 8);
            lemma_fundamental_div_mod(y2, 8);
            assert(s != t);
            lemma_bit_set(b, s, t);
            lemma_bit_clear(b, s, t);
        }
    }
}

/// Law: in an all-zero buffer every in-range pixel reads as unlit.
pub proof fn lemma_clear_pixel(size: DisplaySize, x: int, y: int)
    requires
        0 <= x < size.width(),
        0 <= y < size.height(),
    ensures
        !spec_pixel(Seq::new(1024, |i: int| 0u8), size, x, y),
{
    lemma_size_facts(size);
    lemma_pixel_index_bounds(size, x, y);
    let m = pixel_mask(y);
    assert(0u8 & m == 0) by (bit_vector);
}

/// Raw-buffer driver: owns the bit-packed pixel buffer and flushes it to the
/// device as one full frame.
pub struct SSD1306<DI> {
    iface: DI,
    buffer: Vec<u8>,
    display_size: DisplaySize,
}

impl<DI> SSD1306<DI> where DI: DisplayInterface {
    /// The bytes of the pixel buffer; only the prefix of length
    /// `display_size.buffer_len()` is sent to the device.
    pub closed spec fn buf(self) -> Seq<u8> {
        self.buffer@
    }

    /// The active panel geometry.
    pub closed spec fn size(self) -> DisplaySize {
        self.display_size
    }

    /// Command bytes sent to the device so far.
    pub closed spec fn cmds(self) -> Seq<u8> {
        self.iface.cmds()
    }

    /// Data bytes sent to the device so far.
    pub closed spec fn data(self) -> Seq<u8> {
        self.iface.data()
    }

    /// The buffer always keeps its full fixed capacity, sized for the
    /// largest supported panel.
    pub open spec fn wf(self) -> bool {
        self.buf().len() == 1024
    }

    /// Create a driver over `iface` with an all-zero pixel buffer.
    pub fn new(iface: DI, display_size: DisplaySize) -> (r: SSD1306<DI>)
        ensures
            r.wf(),
            r.size() == display_size,
            r.buf() == Seq::new(1024, |i: int| 0u8),
            r.cmds() == iface.cmds(),
            r.data() == iface.data(),
    {
        let buffer: Vec<u8> = vec![0u8; 1024];
        proof {
            assert(buffer@ =~= Seq::new(1024, |i: int| 0u8));
        }
        SSD1306 { iface, display_size, buffer }
    }

    /// Borrow the underlying transport, e.g. to inspect a recording
    /// interface.
    pub fn interface(&self) -> (r: &DI)
        ensures
            r.cmds() == self.cmds(),
            r.data() == self.data(),
    {
        &self.iface
    }

    /// Zero the whole pixel buffer. Nothing reaches the device until
    /// `flush`.
    pub fn clear(&mut self)
        requires
            old(self).wf(),
        ensures
            final(self).wf(),
            final(self).size() == old(self).size(),
            final(self).cmds() == old(self).cmds(),
            final(self).data() == old(self).data(),
            final(self).buf() == Seq::new(1024, |i: int| 0u8),
    {
        let buffer: Vec<u8> = vec![0u8; 1024];
        proof {
            assert(buffer@ =~= Seq::new(1024, |i: int| 0u8));
        }
        self.buffer = buffer;
    }

    /// Set or clear the pixel at `(x, y)`: `value == 0` clears it, any
    /// other value sets it. Coordinates outside the active geometry are
    /// rejected before anything is touched.
    pub fn set_pixel(&mut self, x: u32, y: u32, value: u8) -> (r: Result<(), Error>)
        requires
            old(self).wf(),
        ensures
            final(self).wf(),
            final(self).size() == old(self).size(),
            final(self).cmds() == old(self).cmds(),
            final(self).data() == old(self).data(),
            x < old(self).size().width() && y < old(self).size().height() ==> {
                &&& r is Ok
                &&& final(self).buf() == spec_set_pixel(
                    old(self).buf(),
                    old(self).size(),
                    x as int,
                    y as int,
                    value != 0,
                )
            },
            !(x < old(self).size().width() && y < old(self).size().height()) ==> {
                &&& r == Err::<(), Error>(Error::InvalidCoordinate)
                &&& *final(self) == *old(self)
            },
    {
        let (width, height) = self.display_size.dimensions();
        if x >= width as u32 || y >= height as u32 {
            return Err(Error::InvalidCoordinate);
        }
        proof {
            lemma_pixel_index_bounds(self.display_size, x as int, y as int);
            lemma_size_facts(self.display_size);
        }
        let idx: usize = (y as usize) / 8 * (width as usize) + (x as usize);
        let byte = self.buffer[idx];
        let bit: u8 = 1u8 << ((y % 8) as u8);
        let updated: u8 = if value == 0 {
            byte & !bit
        } else {
            byte | bit
        };
        self.buffer.set(idx, updated);
        Ok(())
    }

    /// Read the pixel at `(x, y)`: 1 if lit, 0 if not.
    pub fn get_pixel(&self, x: u32, y: u32) -> (r: Result<u8, Error>)
        requires
            self.wf(),
        ensures
            x < self.size().width() && y < self.size().height() ==> r == Ok::<u8, Error>(
                if spec_pixel(self.buf(), self.size(), x as int, y as int) {
                    1u8
                } else {
                    0u8
                },
            ),
            !(x < self.size().width() && y < self.size().height()) ==> r == Err::<u8, Error>(
                Error::InvalidCoordinate,
            ),
    {
        let (width, height) = self.display_size.dimensions();
        if x >= width as u32 || y >= height as u32 {
            return Err(Error::InvalidCoordinate);
        }
        proof {
            lemma_pixel_index_bounds(self.display_size, x as int, y as int);
            lemma_size_facts(self.display_size);
        }
        let idx: usize = (y as usize) / 8 * (width as usize) + (x as usize);
        let byte = self.buffer[idx];
        let bit: u8 = 1u8 << ((y % 8) as u8);
        if byte & bit != 0 {
            Ok(1)
        } else {
            Ok(0)
        }
    }

    /// Redraw the full frame: set the column and page windows to cover the
    /// whole panel, then send the buffer's active prefix as one data block.
    pub fn flush(&mut self) -> (r: Result<(), Error>)
        requires
            old(self).wf(),
        ensures
            final(self).wf(),
            final(self).size() == old(self).size(),
            final(self).buf() == old(self).buf(),
            r is Ok ==> final(self).cmds() == old(self).cmds() + Command::ColumnAddress(
                0,
                (old(self).size().width() - 1) as u8,
            ).spec_encode() + Command::PageAddress(
                0,
                ((old(self).size().height() - 1) / 8) as u8,
            ).spec_encode(),
            r is Ok ==> final(self).data() == old(self).data() + old(self).buf().subrange(
                0,
                old(self).size().buffer_len(),
            ),
            r is Err ==> r == Err::<(), Error>(Error::TransportFailure),
    {
        proof {
            lemma_size_facts(self.display_size);
        }
        let (width, height) = self.display_size.dimensions();
        Command::ColumnAddress(0, width - 1).send(&mut self.iface)?;
        Command::PageAddress(0, (height - 1) / 8).send(&mut self.iface)?;
        let len = self.display_size.buffer_size();
        let active = slice_subrange(self.buffer.as_slice(), 0, len);
        match self.iface.send_data(active) {
            Ok(()) => Ok(()),
            Err(()) => Err(Error::TransportFailure),
        }
    }

    /// Bring the device up for raw-buffer drawing: the fixed command
    /// sequence with horizontal addressing, so that `flush` can stream the
    /// whole frame in one block.
    pub fn init(&mut self) -> (r: Result<(), Error>)
        requires
            old(self).wf(),
        ensures
            final(self).wf(),
            final(self).size() == old(self).size(),
            final(self).buf() == old(self).buf(),
            r is Ok ==> final(self).cmds() == old(self).cmds() + spec_init_sequence(
                old(self).size(),
                AddrMode::Horizontal,
                DisplayRotation::Rotate0,
            ),
            r is Ok ==> final(self).data() == old(self).data(),
            r is Err ==> r == Err::<(), Error>(Error::TransportFailure),
    {
        send_init_sequence(
            &mut self.iface,
            self.display_size,
            AddrMode::Horizontal,
            DisplayRotation::Rotate0,
        )
    }
}

} // verus!
