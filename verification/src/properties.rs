//! The shared addressing handle: geometry, addressing mode, rotation and
//! the transport, bundled for the mode layers above.

use vstd::prelude::*;

use crate::command::AddrMode;
use crate::command::Command;
use crate::command::spec_init_sequence;
use crate::command::send_init_sequence;
use crate::displayrotation::DisplayRotation;
use crate::displaysize::DisplaySize;
use crate::error::Error;
use crate::interface::DisplayInterface;

verus! {

/// Geometry, addressing mode, rotation and transport of one display.
pub struct DisplayProperties<DI> {
    iface: DI,
    display_size: DisplaySize,
    addr_mode: AddrMode,
    display_rotation: DisplayRotation,
}

impl<DI> DisplayProperties<DI> where DI: DisplayInterface {
    /// Command bytes sent to the device so far.
    pub closed spec fn cmds(self) -> Seq<u8> {
        self.iface.cmds()
    }

    /// Data bytes sent to the device so far.
    pub closed spec fn data(self) -> Seq<u8> {
        self.iface.data()
    }

    /// The active panel geometry.
    pub closed spec fn size(self) -> DisplaySize {
        self.display_size
    }

    /// The addressing mode the driver last set.
    pub closed spec fn mode(self) -> AddrMode {
        self.addr_mode
    }

    /// The rotation the driver last set.
    pub closed spec fn rotation(self) -> DisplayRotation {
        self.display_rotation
    }

    /// Bundle a transport with a geometry and rotation. The device resets
    /// into page addressing, which is recorded as the starting mode.
    pub fn new(iface: DI, display_size: DisplaySize, display_rotation: DisplayRotation) -> (r:
        DisplayProperties<DI>)
        ensures
            r.cmds() == iface.cmds(),
            r.data() == iface.data(),
            r.size() == display_size,
            r.mode() == AddrMode::Page,
            r.rotation() == display_rotation,
    {
        DisplayProperties { iface, display_size, addr_mode: AddrMode::Page, display_rotation }
    }

    /// Borrow the underlying transport, e.g. to inspect a recording
    /// interface.
    pub fn interface(&self) -> (r: &DI)
        ensures
            r.cmds() == self.cmds(),
            r.data() == self.data(),
    {
        &self.iface
    }

    /// The geometry this display was built with.
    pub fn get_size(&self) -> (r: DisplaySize)
        ensures
            r == self.size(),
    {
        self.display_size
    }

    /// Width and height in pixels.
    pub fn get_dimensions(&self) -> (r: (u8, u8))
        ensures
            r.0 == self.size().width(),
            r.1 == self.size().height(),
    {
        self.display_size.dimensions()
    }

    /// Send the bring-up sequence with the given addressing mode and this
    /// display's rotation, and record the mode.
    pub fn init_with_mode(&mut self, mode: AddrMode) -> (r: Result<(), Error>)
        ensures
            final(self).size() == old(self).size(),
            final(self).rotation() == old(self).rotation(),
            r is Ok ==> final(self).cmds() == old(self).cmds() + spec_init_sequence(
                old(self).size(),
                mode,
                old(self).rotation(),
            ),
            r is Ok ==> final(self).data() == old(self).data(),
            r is Ok ==> final(self).mode() == mode,
            r is Err ==> r == Err::<(), Error>(Error::TransportFailure),
            r is Err ==> final(self).mode() == old(self).mode(),
    {
        send_init_sequence(&mut self.iface, self.display_size, mode, self.display_rotation)?;
        self.addr_mode = mode;
        Ok(())
    }

    /// Issue the addressing-mode command and record the new mode.
    pub fn change_mode(&mut self, mode: AddrMode) -> (r: Result<(), Error>)
        ensures
            final(self).size() == old(self).size(),
            final(self).rotation() == old(self).rotation(),
            r is Ok ==> final(self).cmds() == old(self).cmds() + Command::AddressMode(
                mode,
            ).spec_encode(),
            r is Ok ==> final(self).data() == old(self).data(),
            r is Ok ==> final(self).mode() == mode,
            r is Err ==> r == Err::<(), Error>(Error::TransportFailure),
            r is Err ==> final(self).mode() == old(self).mode(),
    {
        Command::AddressMode(mode).send(&mut self.iface)?;
        self.addr_mode = mode;
        Ok(())
    }

    /// Set the column and page window the controller auto-increments
    /// through. `start` is inclusive, `end` exclusive, in pixels.
    pub fn set_draw_area(&mut self, start: (u8, u8), end: (u8, u8)) -> (r: Result<(), Error>)
        requires
            1 <= end.0,
            1 <= end.1 <= 64,
            start.1 < 64,
        ensures
            final(self).size() == old(self).size(),
            final(self).rotation() == old(self).rotation(),
            final(self).mode() == old(self).mode(),
            r is Ok ==> final(self).cmds() == old(self).cmds() + Command::ColumnAddress(
                start.0,
                (end.0 - 1) as u8,
            ).spec_encode() + Command::PageAddress(
                (start.1 / 8) as u8,
                ((end.1 - 1) / 8) as u8,
            ).spec_encode(),
            r is Ok ==> final(self).data() == old(self).data(),
            r is Err ==> r == Err::<(), Error>(Error::TransportFailure),
    {
        Command::ColumnAddress(start.0, end.0 - 1).send(&mut self.iface)?;
        Command::PageAddress(start.1 / 8, (end.1 - 1) / 8).send(&mut self.iface)?;
        Ok(())
    }

    /// Set the column pointer for page addressing, in pixels.
    pub fn set_column(&mut self, column: u8) -> (r: Result<(), Error>)
        ensures
            final(self).size() == old(self).size(),
            final(self).rotation() == old(self).rotation(),
            final(self).mode() == old(self).mode(),
            r is Ok ==> final(self).cmds() == old(self).cmds() + Command::ColStart(
                column,
            ).spec_encode(),
            r is Ok ==> final(self).data() == old(self).data(),
            r is Err ==> r == Err::<(), Error>(Error::TransportFailure),
    {
        Command::ColStart(column).send(&mut self.iface)?;
        Ok(())
    }

    /// Set the row pointer for page addressing, in pixels; the page holding
    /// the row is addressed.
    pub fn set_row(&mut self, row: u8) -> (r: Result<(), Error>)
        requires
            row < 64,
        ensures
            final(self).size() == old(self).size(),
            final(self).rotation() == old(self).rotation(),
            final(self).mode() == old(self).mode(),
            r is Ok ==> final(self).cmds() == old(self).cmds() + Command::PageStart(
                (row / 8) as u8,
            ).spec_encode(),
            r is Ok ==> final(self).data() == old(self).data(),
            r is Err ==> r == Err::<(), Error>(Error::TransportFailure),
    {
        Command::PageStart(row / 8).send(&mut self.iface)?;
        Ok(())
    }

    /// Send pixel data; the controller walks its write pointer per the
    /// active addressing mode.
    pub fn draw(&mut self, buffer: &[u8]) -> (r: Result<(), Error>)
        ensures
            final(self).size() == old(self).size(),
            final(self).rotation() == old(self).rotation(),
            final(self).mode() == old(self).mode(),
            r is Ok ==> final(self).data() == old(self).data() + buffer@,
            r is Ok ==> final(self).cmds() == old(self).cmds(),
            r is Err ==> r == Err::<(), Error>(Error::TransportFailure),
    {
        match self.iface.send_data(buffer) {
            Ok(()) => Ok(()),
            Err(()) => Err(Error::TransportFailure),
        }
    }

    /// Issue the orientation commands for `rotation` and record it.
    pub fn set_rotation(&mut self, rotation: DisplayRotation) -> (r: Result<(), Error>)
        ensures
            final(self).size() == old(self).size(),
            final(self).mode() == old(self).mode(),
            r is Ok ==> final(self).cmds() == old(self).cmds() + Command::SegmentRemap(
                rotation.segment_remap(),
            ).spec_encode() + Command::ReverseComDir(rotation.reverse_com_dir()).spec_encode(),
            r is Ok ==> final(self).data() == old(self).data(),
            r is Ok ==> final(self).rotation() == rotation,
            r is Err ==> r == Err::<(), Error>(Error::TransportFailure),
            r is Err ==> final(self).rotation() == old(self).rotation(),
    {
        let (remap, rev_dir) = match rotation {
            DisplayRotation::Rotate0 => (true, true),
            DisplayRotation::Rotate90 => (false, true),
            DisplayRotation::Rotate180 => (false, false),
            DisplayRotation::Rotate270 => (true, false),
        };
        Command::SegmentRemap(remap).send(&mut self.iface)?;
        Command::ReverseComDir(rev_dir).send(&mut self.iface)?;
        self.display_rotation = rotation;
        Ok(())
    }
}

} // verus!
