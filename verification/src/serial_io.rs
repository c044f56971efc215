//! Writing a buffer to the USB serial port, which may take only part of it at a time.
use vstd::prelude::*;

verus! {

/// How the port answered one write attempt.
#[derive(PartialEq, Eq, Structural, Clone, Copy, Debug)]
pub enum WriteEvent {
    /// It took this many bytes (possibly none).
    Accepted(usize),
    /// It could not take bytes now.
    WouldBlock,
    /// It reported an error.
    Failed,
}

/// What to do after a write attempt.
#[derive(PartialEq, Eq, Structural, Clone, Copy, Debug)]
pub enum WriteProgress {
    /// Write again, from this offset.
    Continue(usize),
    /// Every byte was written.
    Done,
    /// Give up and report the error.
    Fail,
}

/// The step after the port answered a write of the bytes from `offset` on, of `len` in all:
/// accepted bytes move the offset on, and the buffer is done when none are left; a port
/// that would block is tried again at the same offset; an error ends the write.
pub open spec fn write_step(offset: nat, len: nat, event: WriteEvent) -> WriteProgress {
    match event {
        WriteEvent::Accepted(n) => if offset + n == len {
            WriteProgress::Done
        } else {
            WriteProgress::Continue((offset + n) as usize)
        },
        WriteEvent::WouldBlock => WriteProgress::Continue(offset as usize),
        WriteEvent::Failed => WriteProgress::Fail,
    }
}

/// Decides the next step of a write. The port never reports more bytes than it was given.
pub fn advance_write(offset: usize, len: usize, event: WriteEvent) -> (r: WriteProgress)
    requires
        offset < len,
        event matches WriteEvent::Accepted(n) ==> n <= len - offset,
    ensures
        r == write_step(offset as nat, len as nat, event),
        r matches WriteProgress::Continue(next) ==> offset <= next < len,
{
    match event {
        WriteEvent::Accepted(n) => {
            if n == len - offset {
                WriteProgress::Done
            } else {
                WriteProgress::Continue(offset + n)
            }
        },
        WriteEvent::WouldBlock => WriteProgress::Continue(offset),
        WriteEvent::Failed => WriteProgress::Fail,
    }
}

} // verus!
