//! The command/data channel between the driver and the device.

use vstd::prelude::*;

verus! {

/// Transport over which the driver reaches the device. A command byte and a
/// data byte travel on distinct channels (in hardware a control line tells
/// them apart), so the two streams are modelled separately. An implementor
/// must preserve byte order and must not silently drop bytes: on success the
/// whole argument is appended to the matching stream and the other stream is
/// untouched. A failed write aborts the operation that issued it; nothing is
/// promised of the streams then.
pub trait DisplayInterface: Sized {
    /// Command bytes delivered so far, in order.
    spec fn cmds(&self) -> Seq<u8>;

    /// Data bytes delivered so far, in order.
    spec fn data(&self) -> Seq<u8>;

    /// Send `buf` over the command channel.
    fn send_commands(&mut self, buf: &[u8]) -> (r: Result<(), ()>)
        ensures
            r is Ok ==> final(self).cmds() == old(self).cmds() + buf@,
            r is Ok ==> final(self).data() == old(self).data(),
    ;

    /// Send `buf` over the data channel.
    fn send_data(&mut self, buf: &[u8]) -> (r: Result<(), ()>)
        ensures
            r is Ok ==> final(self).data() == old(self).data() + buf@,
            r is Ok ==> final(self).cmds() == old(self).cmds(),
    ;
}

/// An interface that delivers every byte into memory. It stands in for the
/// device where no hardware is present, and lets a caller inspect exactly
/// what the driver sent.
pub struct RecordingInterface {
    sent_commands: Vec<u8>,
    sent_data: Vec<u8>,
}

impl RecordingInterface {
    /// An interface with both streams empty.
    pub fn new() -> (r: RecordingInterface)
        ensures
            r.cmds() == Seq::<u8>::empty(),
            r.data() == Seq::<u8>::empty(),
    {
        RecordingInterface { sent_commands: Vec::new(), sent_data: Vec::new() }
    }

    /// Every command byte received so far.
    pub fn recorded_commands(&self) -> (r: &Vec<u8>)
        ensures
            r@ == self.cmds(),
    {
        &self.sent_commands
    }

    /// Every data byte received so far.
    pub fn recorded_data(&self) -> (r: &Vec<u8>)
        ensures
            r@ == self.data(),
    {
        &self.sent_data
    }
}

impl DisplayInterface for RecordingInterface {
    closed spec fn cmds(&self) -> Seq<u8> {
        self.sent_commands@
    }

    closed spec fn data(&self) -> Seq<u8> {
        self.sent_data@
    }

    fn send_commands(&mut self, buf: &[u8]) -> (r: Result<(), ()>)
        ensures
            r is Ok,
    {
        self.sent_commands.extend_from_slice(buf);
        Ok(())
    }

    fn send_data(&mut self, buf: &[u8]) -> (r: Result<(), ()>)
        ensures
            r is Ok,
    {
        self.sent_data.extend_from_slice(buf);
        Ok(())
    }
}

/// An interface whose writes all fail. It exercises the paths a real bus
/// takes when the device stops acknowledging.
pub struct FailingInterface {
}

impl FailingInterface {
    /// An interface that will refuse every write.
    pub fn new() -> (r: FailingInterface)
        ensures
            r.cmds() == Seq::<u8>::empty(),
            r.data() == Seq::<u8>::empty(),
    {
        FailingInterface {  }
    }
}

impl DisplayInterface for FailingInterface {
    closed spec fn cmds(&self) -> Seq<u8> {
        Seq::empty()
    }

    closed spec fn data(&self) -> Seq<u8> {
        Seq::empty()
    }

    fn send_commands(&mut self, buf: &[u8]) -> (r: Result<(), ()>)
        ensures
            r is Err,
    {
        Err(())
    }

    fn send_data(&mut self, buf: &[u8]) -> (r: Result<(), ()>)
        ensures
            r is Err,
    {
        Err(())
    }
}

} // verus!
