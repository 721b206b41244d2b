//! Model of a kernel TAP interface as one worker sees it: a file descriptor
//! identity, the programmed offload flags, and the non-blocking frame queues
//! in both directions. Reads drain `readable` until it is empty (the model of
//! `EAGAIN`); writes are accepted while `write_budget` lasts.

use vstd::prelude::*;

verus! {

/// One multi-queue TAP file descriptor owned by a single worker.
pub struct TapDevice {
    /// Raw file descriptor number; only an identity here.
    pub fd: i32,
    /// Offload flags last programmed into the kernel.
    pub offload_flags: u32,
    /// Frames the kernel has queued for the device to read, oldest first.
    pub readable: Vec<Vec<u8>>,
    /// Frames the device has written out, oldest first.
    pub written: Vec<Vec<u8>>,
    /// Writes the kernel will still accept before reporting `EAGAIN`.
    pub write_budget: usize,
}

impl TapDevice {
    /// A fresh TAP handle over descriptor `fd` with nothing in flight.
    pub fn create(fd: i32) -> (r: TapDevice)
        ensures
            r.fd == fd,
            r.offload_flags == 0,
            r.readable@.len() == 0,
            r.written@.len() == 0,
            r.write_budget == usize::MAX,
    {
        TapDevice {
            fd,
            offload_flags: 0,
            readable: Vec::new(),
            written: Vec::new(),
            write_budget: usize::MAX,
        }
    }

    /// Programs the kernel offload flags.
    pub fn set_offload(&mut self, flags: u32)
        ensures
            final(self).offload_flags == flags,
            final(self).fd == old(self).fd,
            final(self).readable == old(self).readable,
            final(self).written == old(self).written,
            final(self).write_budget == old(self).write_budget,
    {
        self.offload_flags = flags;
    }

    /// Non-blocking read of one frame: the oldest queued frame, or `None`
    /// when the kernel has nothing (`EAGAIN`).
    pub fn read_frame(&mut self) -> (r: Option<Vec<u8>>)
        ensures
            old(self).readable@.len() == 0 ==> r is None && *final(self) == *old(self),
            old(self).readable@.len() > 0 ==> r == Some(old(self).readable@[0])
                && final(self).readable@ == old(self).readable@.skip(1),
            final(self).fd == old(self).fd,
            final(self).offload_flags == old(self).offload_flags,
            final(self).written == old(self).written,
            final(self).write_budget == old(self).write_budget,
    {
        if self.readable.len() == 0 {
            None
        } else {
            let f = self.readable.remove(0);
            assert(self.readable@ =~= old(self).readable@.skip(1));
            Some(f)
        }
    }

    /// Puts a frame back at the front of the read queue, as when processing
    /// must stop after the frame was already taken from the kernel.
    pub fn unread_frame(&mut self, frame: Vec<u8>)
        ensures
            final(self).readable@ == seq![frame] + old(self).readable@,
            final(self).fd == old(self).fd,
            final(self).offload_flags == old(self).offload_flags,
            final(self).written == old(self).written,
            final(self).write_budget == old(self).write_budget,
    {
        self.readable.insert(0, frame);
        assert(self.readable@ =~= seq![frame] + old(self).readable@);
    }

    /// Non-blocking write of one frame: appended to `written` while the
    /// budget lasts, refused (`EAGAIN`) once it is exhausted.
    pub fn write_frame(&mut self, frame: Vec<u8>) -> (accepted: bool)
        ensures
            accepted == (old(self).write_budget > 0),
            old(self).write_budget > 0 ==> final(self).written@ == old(self).written@.push(frame)
                && final(self).write_budget == old(self).write_budget - 1,
            old(self).write_budget == 0 ==> *final(self) == *old(self),
            final(self).fd == old(self).fd,
            final(self).offload_flags == old(self).offload_flags,
            final(self).readable == old(self).readable,
    {
        if self.write_budget > 0 {
            self.write_budget = self.write_budget - 1;
            self.written.push(frame);
            assert(self.written@ =~= old(self).written@.push(frame));
            true
        } else {
            false
        }
    }
}

} // verus!
