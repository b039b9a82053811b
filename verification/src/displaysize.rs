//! Supported panel geometries.

use vstd::prelude::*;

verus! {

/// A supported panel size. Width and height are fixed by the variant and
/// both are multiples of 8.
#[derive(Clone, Copy, PartialEq, Eq, Structural, Debug)]
pub enum DisplaySize {
    /// 128 columns by 64 rows of pixels.
    Display128x64,
    /// 128 columns by 32 rows of pixels.
    Display128x32,
    /// 96 columns by 16 rows of pixels.
    Display96x16,
}

impl DisplaySize {
    /// Panel width in pixels.
    pub open spec fn width(self) -> int {
        match self {
            DisplaySize::Display128x64 => 128,
            DisplaySize::Display128x32 => 128,
            DisplaySize::Display96x16 => 96,
        }
    }

    /// Panel height in pixels.
    pub open spec fn height(self) -> int {
        match self {
            DisplaySize::Display128x64 => 64,
            DisplaySize::Display128x32 => 32,
            DisplaySize::Display96x16 => 16,
        }
    }

    /// Bytes of pixel buffer the geometry occupies: one byte covers a column
    /// of 8 pixel rows.
    pub open spec fn buffer_len(self) -> int {
        self.width() * self.height() / 8
    }

    /// Whether the panel wants the alternative COM pin configuration.
    pub open spec fn com_pin_alt(self) -> bool {
        self.height() == 64
    }

    /// Width and height in pixels.
    pub fn dimensions(self) -> (r: (u8, u8))
        ensures
            r.0 == self.width(),
            r.1 == self.height(),
    {
        match self {
            DisplaySize::Display128x64 => (128, 64),
            DisplaySize::Display128x32 => (128, 32),
            DisplaySize::Display96x16 => (96, 16),
        }
    }

    /// Byte count of the active buffer prefix, `width * height / 8`.
    pub fn buffer_size(self) -> (r: usize)
        ensures
            r == self.buffer_len(),
    {
        match self {
            DisplaySize::Display128x64 => 1024,
            DisplaySize::Display128x32 => 512,
            DisplaySize::Display96x16 => 192,
        }
    }
}

/// The closed set of geometries keeps every derived quantity in a narrow
/// range: both dimensions are nonzero multiples of 8, the character grid is
/// at most 16 by 8 cells, and the active buffer prefix fits the fixed
/// 1024-byte buffer.
pub proof fn lemma_size_facts(size: DisplaySize)
    ensures
        8 <= size.width() <= 128,
        8 <= size.height() <= 64,
        size.width() % 8 == 0,
        size.height() % 8 == 0,
        size.buffer_len() == size.width() * size.height() / 8,
        size.buffer_len() <= 1024,
        1 <= size.width() / 8 <= 16,
        1 <= size.height() / 8 <= 8,
{
    match size {
        DisplaySize::Display128x64 => {
            assert(size.buffer_len() == 1024);
        }
        DisplaySize::Display128x32 => {
            assert(size.buffer_len() == 512);
        }
        DisplaySize::Display96x16 => {
            assert(size.buffer_len() == 192);
        }
    }
}

} // verus!
