//! The non-blocking retry transport: it turns a device whose read/write can
//! report "would block" into operations that complete exactly when data is
//! available or sent, by servicing the device once after each would-block and
//! suspending on the interrupt wait handle when servicing made no progress.
//!
//! Each read or write request is a small state machine. The firmware shell
//! performs the device operations and hands their outcomes back as
//! [`DeviceOutcome`] values; the machine decides whether to retry, service,
//! suspend or finish, and its contracts pin every transition down.

use vstd::prelude::*;

use crate::intr::InterruptHandle;
use crate::intr::InterruptObject;
use crate::intr::LineState;
use crate::intr::PollResult;
use crate::intr::spec_wait;

verus! {

/// Outcome of one non-blocking device operation: it transferred some bytes,
/// it could make no progress right now, or it failed. The would-block case is
/// kept apart from the fault payload `E`, so a fault that the transport
/// propagates can never be a would-block.
pub enum DeviceOutcome<E> {
    Transferred(usize),
    WouldBlock,
    Fault(E),
}

/// State of one read request. The active states name the next step the
/// caller must perform: attempt a non-blocking device read, run the device's
/// service step, or suspend on the wait handle until the line fires.
pub enum ReadFlow<E> {
    AttemptRead,
    Service,
    AwaitInterrupt,
    Done(usize),
    Failed(E),
}

/// State of one write request; `len` is the total length and `offset` the
/// cursor, so the next device write attempt covers the suffix from `offset`.
pub enum WriteFlow<E> {
    AttemptWrite { len: usize, offset: usize },
    Service { len: usize, offset: usize },
    AwaitInterrupt { len: usize, offset: usize },
    Done,
    Failed(E),
}

/// Where a device read outcome sends the read request: a transfer of any
/// size (a zero-length read is delegated to the device like any other and may
/// legitimately finish with zero bytes) completes it, a would-block leads to
/// exactly one service step, and any fault is propagated at once.
pub open spec fn spec_read_device<E>(ev: DeviceOutcome<E>) -> ReadFlow<E> {
    match ev {
        DeviceOutcome::Transferred(n) => ReadFlow::Done(n),
        DeviceOutcome::WouldBlock => ReadFlow::Service,
        DeviceOutcome::Fault(e) => ReadFlow::Failed(e),
    }
}

/// Where the service step's report sends the read request: progress means
/// retry right away, no progress means suspend until the line fires.
pub open spec fn spec_read_service<E>(did_work: bool) -> ReadFlow<E> {
    if did_work {
        ReadFlow::AttemptRead
    } else {
        ReadFlow::AwaitInterrupt
    }
}

/// Where a device write outcome sends the write request: the cursor advances
/// by the transferred count and the request completes when it reaches the
/// end; a would-block leads to exactly one service step; any fault is
/// propagated at once, discarding no bytes already transferred.
pub open spec fn spec_write_device<E>(len: usize, offset: usize, ev: DeviceOutcome<E>) -> WriteFlow<E> {
    match ev {
        DeviceOutcome::Transferred(n) => if offset + n == len {
            WriteFlow::Done
        } else {
            WriteFlow::AttemptWrite { len, offset: (offset + n) as usize }
        },
        DeviceOutcome::WouldBlock => WriteFlow::Service { len, offset },
        DeviceOutcome::Fault(e) => WriteFlow::Failed(e),
    }
}

/// Where the service step's report sends the write request.
pub open spec fn spec_write_service<E>(len: usize, offset: usize, did_work: bool) -> WriteFlow<E> {
    if did_work {
        WriteFlow::AttemptWrite { len, offset }
    } else {
        WriteFlow::AwaitInterrupt { len, offset }
    }
}

impl<E> ReadFlow<E> {
    /// Feeds the outcome of the attempted non-blocking device read into the
    /// request.
    pub fn on_device_read(&mut self, ev: DeviceOutcome<E>)
        requires
            (*old(self)) is AttemptRead,
        ensures
            *final(self) == spec_read_device(ev),
    {
        *self = match ev {
            DeviceOutcome::Transferred(n) => ReadFlow::Done(n),
            DeviceOutcome::WouldBlock => ReadFlow::Service,
            DeviceOutcome::Fault(e) => ReadFlow::Failed(e),
        };
    }

    /// Feeds the service step's report of whether it performed meaningful
    /// work into the request.
    pub fn on_service(&mut self, did_work: bool)
        requires
            (*old(self)) is Service,
        ensures
            *final(self) == spec_read_service::<E>(did_work),
    {
        *self = if did_work {
            ReadFlow::AttemptRead
        } else {
            ReadFlow::AwaitInterrupt
        };
    }

    /// Resumes the request after the suspend on the wait handle resolved: the
    /// device read is retried.
    pub fn on_wake(&mut self)
        requires
            (*old(self)) is AwaitInterrupt,
        ensures
            (*final(self)) is AttemptRead,
    {
        *self = ReadFlow::AttemptRead;
    }
}

impl<E> WriteFlow<E> {
    /// An active write request always has bytes left to send: the cursor is
    /// strictly inside the data. A request over an empty input never becomes
    /// active (it is constructed complete).
    pub open spec fn wf(&self) -> bool {
        &&& self is AttemptWrite ==> self->AttemptWrite_offset < self->AttemptWrite_len
        &&& self is Service ==> self->Service_offset < self->Service_len
        &&& self is AwaitInterrupt ==> self->AwaitInterrupt_offset < self->AwaitInterrupt_len
    }

    /// Feeds the outcome of the attempted non-blocking device write of the
    /// suffix from `offset` into the request. The device never reports more
    /// bytes than that suffix holds, so a transfer count is bounded by
    /// `len - offset`.
    pub fn on_device_write(&mut self, ev: DeviceOutcome<E>)
        requires
            (*old(self)) is AttemptWrite,
            old(self).wf(),
            ev matches DeviceOutcome::Transferred(n)
                ==> n <= (*old(self))->AttemptWrite_len - (*old(self))->AttemptWrite_offset,
        ensures
            *final(self) == spec_write_device(
                (*old(self))->AttemptWrite_len,
                (*old(self))->AttemptWrite_offset,
                ev,
            ),
            final(self).wf(),
    {
        let (len, offset): (usize, usize) = match self {
            WriteFlow::AttemptWrite { len, offset } => (*len, *offset),
            _ => unreached(),
        };
        *self = match ev {
            DeviceOutcome::Transferred(n) => {
                let advanced: usize = offset + n;
                if advanced == len {
                    WriteFlow::Done
                } else {
                    WriteFlow::AttemptWrite { len, offset: advanced }
                }
            }
            DeviceOutcome::WouldBlock => WriteFlow::Service { len, offset },
            DeviceOutcome::Fault(e) => WriteFlow::Failed(e),
        };
    }

    /// Feeds the service step's report of whether it performed meaningful
    /// work into the request.
    pub fn on_service(&mut self, did_work: bool)
        requires
            (*old(self)) is Service,
            old(self).wf(),
        ensures
            *final(self) == spec_write_service::<E>(
                (*old(self))->Service_len,
                (*old(self))->Service_offset,
                did_work,
            ),
            final(self).wf(),
    {
        let (len, offset): (usize, usize) = match self {
            WriteFlow::Service { len, offset } => (*len, *offset),
            _ => unreached(),
        };
        *self = if did_work {
            WriteFlow::AttemptWrite { len, offset }
        } else {
            WriteFlow::AwaitInterrupt { len, offset }
        };
    }

    /// Resumes the request after the suspend on the wait handle resolved: the
    /// device write of the unsent suffix is retried, with the cursor exactly
    /// where it was.
    pub fn on_wake(&mut self)
        requires
            (*old(self)) is AwaitInterrupt,
            old(self).wf(),
        ensures
            *final(self) == (WriteFlow::<E>::AttemptWrite {
                len: (*old(self))->AwaitInterrupt_len,
                offset: (*old(self))->AwaitInterrupt_offset,
            }),
            final(self).wf(),
    {
        let (len, offset): (usize, usize) = match self {
            WriteFlow::AwaitInterrupt { len, offset } => (*len, *offset),
            _ => unreached(),
        };
        *self = WriteFlow::AttemptWrite { len, offset };
    }
}

/// A read request never has a would-block as its outcome. A would-block from
/// the device leads to the service step; from there the request moves
/// straight back to the next device read attempt, directly when the service
/// step made progress and through the one suspend otherwise — so exactly one
/// service step stands between a would-block and the retry. The request
/// completes only on a transfer, and fails only on a device fault, which it
/// propagates unchanged.
pub proof fn lemma_read_never_would_block<E>(ev: DeviceOutcome<E>)
    ensures
        ev is WouldBlock ==> spec_read_device(ev) is Service,
        spec_read_service::<E>(true) is AttemptRead,
        spec_read_service::<E>(false) is AwaitInterrupt,
        spec_read_device(ev) is Done ==> ev is Transferred,
        spec_read_device(ev) matches ReadFlow::Failed(e) ==> ev == DeviceOutcome::Fault(e),
{
}

/// The same for a write request, with the cursor untouched on the whole
/// detour: a would-block leads to the one service step and from there back to
/// the device write attempt at the same offset; the request completes only on
/// a transfer and fails only on a device fault, which it propagates
/// unchanged.
pub proof fn lemma_write_never_would_block<E>(len: usize, offset: usize, ev: DeviceOutcome<E>)
    ensures
        ev is WouldBlock ==> spec_write_device(len, offset, ev) == (WriteFlow::<E>::Service { len, offset }),
        spec_write_service::<E>(len, offset, true) == (WriteFlow::<E>::AttemptWrite { len, offset }),
        spec_write_service::<E>(len, offset, false) == (WriteFlow::<E>::AwaitInterrupt { len, offset }),
        spec_write_device(len, offset, ev) is Done ==> ev is Transferred,
        spec_write_device(len, offset, ev) matches WriteFlow::Failed(e) ==> ev == DeviceOutcome::Fault(e),
{
}

/// The retry transport around one device: it owns the unique wait handle of
/// the device's interrupt line and starts the per-request state machines.
pub struct SerialUsbDevice {
    interrupt: InterruptHandle,
}

impl SerialUsbDevice {
    /// The interrupt line of the owned wait handle.
    pub closed spec fn line_id(&self) -> u16 {
        self.interrupt.line_id()
    }

    /// Wraps the device's wait handle, taking exclusive ownership of it.
    pub fn new(interrupt: InterruptHandle) -> (r: Self)
        ensures
            r.line_id() == interrupt.line_id(),
    {
        Self { interrupt }
    }

    /// Begins a read request: the first step is always a device read attempt,
    /// whatever the buffer size.
    pub fn read<E>(&self) -> (r: ReadFlow<E>)
        ensures
            r is AttemptRead,
    {
        ReadFlow::AttemptRead
    }

    /// Begins a write request over `data`. An empty input completes
    /// immediately, without any device operation; otherwise the cursor starts
    /// at the beginning.
    pub fn write_all<E>(&self, data: &[u8]) -> (r: WriteFlow<E>)
        ensures
            data@.len() == 0 ==> r is Done,
            data@.len() > 0 ==> (r matches WriteFlow::AttemptWrite { len, offset } && len == data@.len() && offset == 0),
            r.wf(),
    {
        if data.len() == 0 {
            WriteFlow::Done
        } else {
            WriteFlow::AttemptWrite { len: data.len(), offset: 0 }
        }
    }

    /// One poll step of the suspend protocol on the owned handle, used while
    /// a request stands in its awaiting state.
    pub fn wait<W>(&self, obj: &mut InterruptObject<W>, line: &mut LineState, waker: W) -> (r: PollResult)
        requires
            self.line_id() == old(obj).line_id(),
        ensures
            (final(obj).model(), *final(line), r) == spec_wait(old(obj).model(), *old(line), waker),
            final(obj).line_id() == old(obj).line_id(),
    {
        self.interrupt.wait(obj, line, waker)
    }
}

} // verus!
