//! Encoding of the controller's command set.
//!
//! Each logical command maps to an exact opcode plus parameter bytes. The
//! encoder validates nothing beyond the bit widths the opcodes have room
//! for: range checks against the active geometry live in the callers.

use vstd::prelude::*;

use crate::displayrotation::DisplayRotation;
use crate::displaysize::DisplaySize;
use crate::error::Error;
use crate::interface::DisplayInterface;

verus! {

/// How the controller's internal write pointer advances after a data byte.
#[derive(Clone, Copy, PartialEq, Eq, Structural, Debug)]
pub enum AddrMode {
    /// The pointer walks columns and wraps through the pages by itself.
    Horizontal,
    /// The pointer walks columns of one page only; rows change by explicit
    /// command.
    Page,
}

impl AddrMode {
    /// Parameter byte of the addressing-mode command.
    pub open spec fn byte(self) -> u8 {
        match self {
            AddrMode::Horizontal => 0x00,
            AddrMode::Page => 0x02,
        }
    }
}

/// VCOMH deselect voltage level.
#[derive(Clone, Copy, PartialEq, Eq, Structural, Debug)]
pub enum VcomhLevel {
    /// 0.65 times Vcc.
    V0p65,
    /// 0.77 times Vcc.
    V0p77,
    /// 0.83 times Vcc.
    V0p83,
    /// Automatic selection.
    Auto,
}

impl VcomhLevel {
    /// Parameter byte of the VCOMH deselect command.
    pub open spec fn byte(self) -> u8 {
        match self {
            VcomhLevel::V0p65 => 0x00,
            VcomhLevel::V0p77 => 0x20,
            VcomhLevel::V0p83 => 0x30,
            VcomhLevel::Auto => 0x40,
        }
    }
}

/// A logical command with typed parameters.
#[derive(Clone, Copy, PartialEq, Eq, Structural, Debug)]
pub enum Command {
    /// Turn the display on or off.
    DisplayOn(bool),
    /// Set oscillator frequency (high nibble) and clock divide ratio (low
    /// nibble); each parameter must fit 4 bits.
    DisplayClockDiv(u8, u8),
    /// Set multiplex ratio: the highest COM line driven.
    Multiplex(u8),
    /// Shift the display up by the given number of COM lines.
    DisplayOffset(u8),
    /// Set the RAM line shown at the top of the panel; must fit 6 bits.
    StartLine(u8),
    /// Enable or disable the internal charge pump.
    ChargePump(bool),
    /// Select the addressing mode.
    AddressMode(AddrMode),
    /// Map segment 0 to the rightmost column instead of the leftmost.
    SegmentRemap(bool),
    /// Scan COM lines in reverse order.
    ReverseComDir(bool),
    /// COM pin layout: alternative configuration, left/right remap.
    ComPinConfig(bool, bool),
    /// Set display contrast.
    Contrast(u8),
    /// Set pre-charge phase 1 and phase 2 lengths; each must fit 4 bits.
    PreChargePeriod(u8, u8),
    /// Select the VCOMH deselect level.
    VcomhDeselect(VcomhLevel),
    /// Light every pixel regardless of RAM contents.
    AllOn(bool),
    /// Invert the displayed image.
    Invert(bool),
    /// Enable or disable scrolling.
    EnableScroll(bool),
    /// Inclusive column window for horizontal addressing.
    ColumnAddress(u8, u8),
    /// Inclusive page window for horizontal addressing; both pages must be
    /// below 8.
    PageAddress(u8, u8),
    /// Column pointer for page addressing, sent as two nibble commands.
    ColStart(u8),
    /// Page pointer for page addressing; the page must be below 8.
    PageStart(u8),
}

impl Command {
    /// Parameters fit the bit widths their opcodes leave for them.
    pub open spec fn wf(self) -> bool {
        match self {
            Command::DisplayClockDiv(fosc, div) => fosc < 16 && div < 16,
            Command::StartLine(line) => line < 64,
            Command::PreChargePeriod(ph1, ph2) => ph1 < 16 && ph2 < 16,
            Command::PageAddress(start, end) => start < 8 && end < 8,
            Command::PageStart(page) => page < 8,
            _ => true,
        }
    }

    /// The exact bytes the command puts on the command channel.
    pub open spec fn spec_encode(self) -> Seq<u8> {
        match self {
            Command::DisplayOn(on) => seq![if on { 0xAFu8 } else { 0xAEu8 }],
            Command::DisplayClockDiv(fosc, div) => seq![0xD5u8, (fosc << 4) | (div & 0x0F)],
            Command::Multiplex(ratio) => seq![0xA8u8, ratio],
            Command::DisplayOffset(offset) => seq![0xD3u8, offset],
            Command::StartLine(line) => seq![0x40u8 | (line & 0x3F)],
            Command::ChargePump(on) => seq![0x8Du8, if on { 0x14u8 } else { 0x10u8 }],
            Command::AddressMode(mode) => seq![0x20u8, mode.byte()],
            Command::SegmentRemap(remap) => seq![if remap { 0xA1u8 } else { 0xA0u8 }],
            Command::ReverseComDir(rev) => seq![if rev { 0xC8u8 } else { 0xC0u8 }],
            Command::ComPinConfig(alt, lr) => seq![
                0xDAu8,
                0x02u8 | (if alt { 0x10u8 } else { 0x00u8 }) | (if lr { 0x20u8 } else { 0x00u8 }),
            ],
            Command::Contrast(contrast) => seq![0x81u8, contrast],
            Command::PreChargePeriod(ph1, ph2) => seq![0xD9u8, (ph2 << 4) | (ph1 & 0x0F)],
            Command::VcomhDeselect(level) => seq![0xDBu8, level.byte()],
            Command::AllOn(on) => seq![if on { 0xA5u8 } else { 0xA4u8 }],
            Command::Invert(inv) => seq![if inv { 0xA7u8 } else { 0xA6u8 }],
            Command::EnableScroll(en) => seq![if en { 0x2Fu8 } else { 0x2Eu8 }],
            Command::ColumnAddress(start, end) => seq![0x21u8, start, end],
            Command::PageAddress(start, end) => seq![0x22u8, start, end],
            Command::ColStart(col) => seq![col & 0x0F, 0x10u8 | (col >> 4)],
            Command::PageStart(page) => seq![0xB0u8 | (page & 0x07)],
        }
    }

    /// Encode the command into its protocol bytes.
    pub fn encode(self) -> (r: Vec<u8>)
        requires
            self.wf(),
        ensures
            r@ == self.spec_encode(),
    {
        let r: Vec<u8> = match self {
            Command::DisplayOn(on) => vec![if on { 0xAFu8 } else { 0xAEu8 }],
            Command::DisplayClockDiv(fosc, div) => vec![0xD5u8, (fosc << 4) | (div & 0x0F)],
            Command::Multiplex(ratio) => vec![0xA8u8, ratio],
            Command::DisplayOffset(offset) => vec![0xD3u8, offset],
            Command::StartLine(line) => vec![0x40u8 | (line & 0x3F)],
            Command::ChargePump(on) => vec![0x8Du8, if on { 0x14u8 } else { 0x10u8 }],
            Command::AddressMode(mode) => {
                let b: u8 = match mode {
                    AddrMode::Horizontal => 0x00,
                    AddrMode::Page => 0x02,
                };
                vec![0x20u8, b]
            }
            Command::SegmentRemap(remap) => vec![if remap { 0xA1u8 } else { 0xA0u8 }],
            Command::ReverseComDir(rev) => vec![if rev { 0xC8u8 } else { 0xC0u8 }],
            Command::ComPinConfig(alt, lr) => vec![
                0xDAu8,
                0x02u8 | (if alt { 0x10u8 } else { 0x00u8 }) | (if lr { 0x20u8 } else { 0x00u8 }),
            ],
            Command::Contrast(contrast) => vec![0x81u8, contrast],
            Command::PreChargePeriod(ph1, ph2) => vec![0xD9u8, (ph2 << 4) | (ph1 & 0x0F)],
            Command::VcomhDeselect(level) => {
                let b: u8 = match level {
                    VcomhLevel::V0p65 => 0x00,
                    VcomhLevel::V0p77 => 0x20,
                    VcomhLevel::V0p83 => 0x30,
                    VcomhLevel::Auto => 0x40,
                };
                vec![0xDBu8, b]
            }
            Command::AllOn(on) => vec![if on { 0xA5u8 } else { 0xA4u8 }],
            Command::Invert(inv) => vec![if inv { 0xA7u8 } else { 0xA6u8 }],
            Command::EnableScroll(en) => vec![if en { 0x2Fu8 } else { 0x2Eu8 }],
            Command::ColumnAddress(start, end) => vec![0x21u8, start, end],
            Command::PageAddress(start, end) => vec![0x22u8, start, end],
            Command::ColStart(col) => vec![col & 0x0F, 0x10u8 | (col >> 4)],
            Command::PageStart(page) => vec![0xB0u8 | (page & 0x07)],
        };
        proof {
            assert(r@ =~= self.spec_encode());
        }
        r
    }

    /// Encode the command and send it over the command channel.
    pub fn send<DI: DisplayInterface>(self, iface: &mut DI) -> (r: Result<(), Error>)
        requires
            self.wf(),
        ensures
            r is Ok ==> final(iface).cmds() == old(iface).cmds() + self.spec_encode(),
            r is Ok ==> final(iface).data() == old(iface).data(),
            r is Err ==> r == Err::<(), Error>(Error::TransportFailure),
    {
        let bytes = self.encode();
        match iface.send_commands(bytes.as_slice()) {
            Ok(()) => Ok(()),
            Err(()) => Err(Error::TransportFailure),
        }
    }
}

/// What a decoder reads back from the bytes of a column-address command:
/// the inclusive start and end columns, or nothing if the bytes are not a
/// column-address command.
pub open spec fn spec_decode_column_address(bytes: Seq<u8>) -> Option<(u8, u8)> {
    if bytes.len() == 3 && bytes[0] == 0x21 {
        Some((bytes[1], bytes[2]))
    } else {
        None
    }
}

/// Decode a column-address command back into its start/end pair.
pub fn decode_column_address(bytes: &[u8]) -> (r: Option<(u8, u8)>)
    ensures
        r == spec_decode_column_address(bytes@),
{
    if bytes.len() == 3 && bytes[0] == 0x21 {
        Some((bytes[1], bytes[2]))
    } else {
        None
    }
}

/// Law: encoding the column-address command for any start/end pair and
/// decoding the resulting bytes recovers exactly that pair.
pub proof fn lemma_column_address_round_trip(start: u8, end: u8)
    ensures
        spec_decode_column_address(Command::ColumnAddress(start, end).spec_encode())
            == Some((start, end)),
{
}

/// The device bring-up sequence: display off first, clock, multiplex and
/// offset configuration, charge pump, the addressing mode, orientation and
/// COM layout, then analogue defaults, and the display back on last. The
/// addressing mode and COM configuration must precede the final display-on;
/// the controller requires this order.
pub open spec fn spec_init_sequence(
    size: DisplaySize,
    mode: AddrMode,
    rotation: DisplayRotation,
) -> Seq<u8> {
    Command::DisplayOn(false).spec_encode()
        + Command::DisplayClockDiv(0x8, 0x0).spec_encode()
        + Command::Multiplex((size.height() - 1) as u8).spec_encode()
        + Command::DisplayOffset(0).spec_encode()
        + Command::StartLine(0).spec_encode()
        + Command::ChargePump(true).spec_encode()
        + Command::AddressMode(mode).spec_encode()
        + Command::SegmentRemap(rotation.segment_remap()).spec_encode()
        + Command::ReverseComDir(rotation.reverse_com_dir()).spec_encode()
        + Command::ComPinConfig(size.com_pin_alt(), false).spec_encode()
        + Command::Contrast(0x8F).spec_encode()
        + Command::PreChargePeriod(0x1, 0xF).spec_encode()
        + Command::VcomhDeselect(VcomhLevel::Auto).spec_encode()
        + Command::AllOn(false).spec_encode()
        + Command::Invert(false).spec_encode()
        + Command::EnableScroll(false).spec_encode()
        + Command::DisplayOn(true).spec_encode()
}

/// Send the whole bring-up sequence, aborting at the first transport
/// failure.
#[verifier::rlimit(60)]
pub fn send_init_sequence<DI: DisplayInterface>(
    iface: &mut DI,
    size: DisplaySize,
    mode: AddrMode,
    rotation: DisplayRotation,
) -> (r: Result<(), Error>)
    ensures
        r is Ok ==> final(iface).cmds() == old(iface).cmds() + spec_init_sequence(
            size,
            mode,
            rotation,
        ),
        r is Ok ==> final(iface).data() == old(iface).data(),
        r is Err ==> r == Err::<(), Error>(Error::TransportFailure),
{
    proof {
        crate::displaysize::lemma_size_facts(size);
    }
    let (_, height) = size.dimensions();
    let (remap, rev_dir) = match rotation {
        DisplayRotation::Rotate0 => (true, true),
        DisplayRotation::Rotate90 => (false, true),
        DisplayRotation::Rotate180 => (false, false),
        DisplayRotation::Rotate270 => (true, false),
    };
    let alt_com_pins = height == 64;
    Command::DisplayOn(false).send(iface)?;
    Command::DisplayClockDiv(0x8, 0x0).send(iface)?;
    Command::Multiplex(height - 1).send(iface)?;
    Command::DisplayOffset(0).send(iface)?;
    Command::StartLine(0).send(iface)?;
    Command::ChargePump(true).send(iface)?;
    Command::AddressMode(mode).send(iface)?;
    Command::SegmentRemap(remap).send(iface)?;
    Command::ReverseComDir(rev_dir).send(iface)?;
    Command::ComPinConfig(alt_com_pins, false).send(iface)?;
    Command::Contrast(0x8F).send(iface)?;
    Command::PreChargePeriod(0x1, 0xF).send(iface)?;
    Command::VcomhDeselect(VcomhLevel::Auto).send(iface)?;
    Command::AllOn(false).send(iface)?;
    Command::Invert(false).send(iface)?;
    Command::EnableScroll(false).send(iface)?;
    Command::DisplayOn(true).send(iface)?;
    proof {
        assert(iface.cmds() =~= old(iface).cmds() + spec_init_sequence(size, mode, rotation));
    }
    Ok(())
}

} // verus!
