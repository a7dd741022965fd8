//! Suspend/resume support for waiting on a hardware interrupt line, and a
//! non-blocking retry transport built on top of it.
//!
//! The crate verifies the decision core of both pieces: the cross-context
//! handshake of the interrupt wait primitive (a single pending-waker slot and
//! a one-shot handle guard per line) and the poll-or-wait retry loops of the
//! transport. Hardware effects (controller mask/unmask, the device's
//! non-blocking operations, the executor's wakers) are performed by the
//! surrounding firmware, which drives these state machines and mirrors each
//! transition onto the hardware.

pub mod intr;
pub mod serial;
