//! How the xenbus device is opened and written to.

use vstd::prelude::*;

use crate::wire::XENBUS_DEVICE_PATH;

verus! {

/// How the xenbus device is opened.
#[derive(Clone, Debug)]
pub struct XsDevice {
    pub path: &'static str,
    pub read: bool,
    pub write: bool,
}

/// How one attempt to write to the device went.
#[derive(Debug)]
pub enum WriteAttempt<R> {
    /// The device says that the write would block.
    WouldBlock,
    /// The write is over, with this result.
    Finished(R),
}

/// What to do after an attempt to write.
#[derive(Debug)]
pub enum WritePoll<R> {
    /// Try the same write once more, at once.
    Again,
    /// Report this result.
    Ready(R),
}

impl XsDevice {
    /// Returns how the xenbus device is to be opened: for reading and writing.
    pub fn new() -> (device: XsDevice)
        ensures
            device.path@ == XENBUS_DEVICE_PATH@,
            device.read,
            device.write,
    {
        XsDevice { path: XENBUS_DEVICE_PATH, read: true, write: true }
    }

    /// Decides what to do after an attempt to write.
    ///
    /// Polling the xenbus device never reports that it can be written to, and it buffers what it
    /// cannot take yet. So a write that would block is tried again rather than waited for.
    pub fn poll_write<R>(attempt: WriteAttempt<R>) -> (poll: WritePoll<R>)
        ensures
            poll == after_attempt(attempt),
    {
        match attempt {
            WriteAttempt::WouldBlock => WritePoll::Again,
            WriteAttempt::Finished(result) => WritePoll::Ready(result),
        }
    }
}

/// What is done after an attempt to write.
pub open spec fn after_attempt<R>(attempt: WriteAttempt<R>) -> WritePoll<R> {
    match attempt {
        WriteAttempt::WouldBlock => WritePoll::Again,
        WriteAttempt::Finished(result) => WritePoll::Ready(result),
    }
}

/// What a write reports whose attempts go as given; nothing while every one of them would block.
pub open spec fn write_result<R>(attempts: Seq<WriteAttempt<R>>) -> Option<R>
    decreases attempts.len(),
{
    if attempts.len() == 0 {
        None
    } else {
        match after_attempt(attempts[0]) {
            WritePoll::Again => write_result(attempts.skip(1)),
            WritePoll::Ready(result) => Some(result),
        }
    }
}

/// A write never reports that it would block: it reports the result of its first attempt that
/// does not, whatever comes after that one.
pub proof fn law_write_reports_first_result<R>(attempts: Seq<WriteAttempt<R>>, n: int)
    requires
        0 <= n < attempts.len(),
        forall|i: int| 0 <= i < n ==> #[trigger] attempts[i] is WouldBlock,
        attempts[n] is Finished,
    ensures
        write_result(attempts) == Some(attempts[n]->Finished_0),
    decreases n,
{
    if n > 0 {
        let rest = attempts.skip(1);
        assert(attempts[0] is WouldBlock);
        assert forall|i: int| 0 <= i < n - 1 implies #[trigger] rest[i] is WouldBlock by {
            assert(rest[i] == attempts[i + 1]);
        }
        law_write_reports_first_result(rest, n - 1);
    }
}

/// A write is tried again exactly if it would block, and otherwise reports its result as it is,
/// whatever the result.
pub proof fn law_result_of_a_write_is_reported<R>(attempt: WriteAttempt<R>, poll: WritePoll<R>)
    requires
        call_ensures(XsDevice::poll_write::<R>, (attempt,), poll),
    ensures
        attempt is WouldBlock <==> poll is Again,
        attempt matches WriteAttempt::Finished(result) ==> poll == WritePoll::Ready(result),
{
}

} // verus!
