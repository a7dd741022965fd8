//! The interrupt wait primitive: a per-line wait object with a single
//! pending-waker slot and a one-shot handle guard, plus the suspend protocol
//! that the unique handle runs in task context.
//!
//! The object and the controller-side state of its line are held as plain
//! values so that every transition is verified. The firmware shell owns the
//! real controller: it calls these functions inside its critical region and
//! performs the masking, unmasking and waking that the contracts describe.

use vstd::prelude::*;

verus! {

/// Controller-side state of one interrupt line, as the core observes it:
/// whether delivery of the line is masked, and whether its pending flag is
/// set. The surrounding firmware keeps this in sync with the real controller;
/// hardware asserting the line is modelled by setting `pending` outside the
/// core.
#[derive(Clone, Copy, PartialEq, Eq, Structural, Debug)]
pub struct LineState {
    pub masked: bool,
    pub pending: bool,
}

/// Outcome of one poll step of the suspend protocol: either the wait resolves
/// now, or the caller must suspend and be resumed by a wake.
#[derive(Clone, Copy, PartialEq, Eq, Structural, Debug)]
pub enum PollResult {
    Ready,
    Pending,
}

/// Mathematical model of a wait object: whether its unique handle has been
/// granted, and the contents of the pending-waker slot.
pub struct WaitModel<W> {
    pub issued: bool,
    pub waker: Option<W>,
}

/// Effect of an attempt to obtain the unique handle: the issuance flag is
/// driven to `issued` whatever it was, and the attempt succeeds exactly on the
/// not-issued-to-issued transition.
pub open spec fn spec_grant<W>(m: WaitModel<W>) -> (WaitModel<W>, bool) {
    (WaitModel { issued: true, waker: m.waker }, !m.issued)
}

/// Effect of one poll step of the suspend protocol. If the line is already
/// pending the wait resolves at once and nothing is touched; otherwise the
/// caller's wake-capability is stored and the line is unmasked, in that order,
/// and the caller suspends.
pub open spec fn spec_wait<W>(m: WaitModel<W>, l: LineState, w: W) -> (WaitModel<W>, LineState, PollResult) {
    if l.pending {
        (m, l, PollResult::Ready)
    } else {
        (
            WaitModel { issued: m.issued, waker: Some(w) },
            LineState { masked: false, pending: l.pending },
            PollResult::Pending,
        )
    }
}

/// Effect of the line firing: the line is masked against re-entry, and
/// whatever the slot held is taken out to be woken.
pub open spec fn spec_fired<W>(m: WaitModel<W>, l: LineState) -> (WaitModel<W>, LineState, Option<W>) {
    (
        WaitModel { issued: m.issued, waker: None },
        LineState { masked: true, pending: l.pending },
        m.waker,
    )
}

/// Effect of clearing a stale pending flag at the controller.
pub open spec fn spec_unpend(l: LineState) -> LineState {
    LineState { masked: l.masked, pending: false }
}

/// One wait object per hardware interrupt line. All mutation of the waker
/// slot happens through `handle_interrupt` (interrupt context) and the
/// handle's wait operation (task context); the firmware shell must run both
/// inside the critical region that excludes the other context.
pub struct InterruptObject<W> {
    line: u16,
    issued: bool,
    waker: Option<W>,
}

impl<W> InterruptObject<W> {
    /// The object's place in the model: issuance flag and waker slot.
    pub closed spec fn model(&self) -> WaitModel<W> {
        WaitModel { issued: self.issued, waker: self.waker }
    }

    /// The interrupt line this object is bound to.
    pub closed spec fn line_id(&self) -> u16 {
        self.line
    }

    /// Pure value construction of an unissued object with an empty slot.
    pub fn new(line: u16) -> (r: Self)
        ensures
            r.line_id() == line,
            !r.model().issued,
            r.model().waker is None,
    {
        Self { line, issued: false, waker: None }
    }

    /// Interrupt-context step, to be invoked when the bound line fires: the
    /// line is masked (the firmware shell mirrors this at the controller
    /// before anything else), the slot is taken and cleared, and the taken
    /// capability, if any, is returned for the caller to wake. The caller
    /// then emits the processor wake signal unconditionally.
    pub fn handle_interrupt(&mut self, line: &mut LineState) -> (woken: Option<W>)
        ensures
            (final(self).model(), *final(line), woken) == spec_fired(old(self).model(), *old(line)),
            final(self).line_id() == old(self).line_id(),
    {
        line.masked = true;
        self.waker.take()
    }

    /// Stores a wake-capability into the slot, overwriting a stale one. Only
    /// the suspend protocol calls this, before it unmasks the line.
    fn arm(&mut self, waker: W)
        ensures
            final(self).model().waker == Some(waker),
            final(self).model().issued == old(self).model().issued,
            final(self).line_id() == old(self).line_id(),
    {
        self.waker = Some(waker);
    }

    /// Attempts to obtain the unique handle for this object. Succeeds exactly
    /// once over the object's lifetime: the issuance flag moves from
    /// not-issued to issued on the first call and stays issued forever, so
    /// every later call reports the duplicate acquisition by returning
    /// `None`. The firmware shell makes this race-safe by running it inside
    /// its critical region (the effect of an atomic compare-and-set).
    pub fn get_handle(&mut self) -> (r: Option<InterruptHandle>)
        ensures
            final(self).model() == spec_grant::<W>(old(self).model()).0,
            r is Some <==> spec_grant::<W>(old(self).model()).1,
            r matches Some(h) ==> h.line_id() == old(self).line_id(),
            final(self).line_id() == old(self).line_id(),
    {
        if self.issued {
            None
        } else {
            self.issued = true;
            Some(InterruptHandle { line: self.line })
        }
    }
}

/// The unique, non-duplicable capability to suspend on one wait object. It
/// owns no hardware state; it records only which line it is bound to.
pub struct InterruptHandle {
    line: u16,
}

impl InterruptHandle {
    /// The interrupt line this handle is bound to.
    pub closed spec fn line_id(&self) -> u16 {
        self.line
    }

    /// The bound line as a value, so that an unverified caller can check the
    /// handle-to-object binding that the suspend protocol relies on.
    pub fn line(&self) -> (r: u16)
        ensures
            r == self.line_id(),
    {
        self.line
    }

    /// One poll step of the suspend protocol, run in task context with the
    /// line masked so that no firing can intervene between the pending check
    /// and the arming of the slot. On the fast path (line already pending)
    /// the wait resolves immediately and nothing is touched. Otherwise the
    /// caller's wake-capability is stored first and the line unmasked second,
    /// and the caller suspends; the firmware shell mirrors the unmask at the
    /// controller after this returns `Pending`.
    pub fn wait<W>(&self, obj: &mut InterruptObject<W>, line: &mut LineState, waker: W) -> (r: PollResult)
        requires
            self.line_id() == old(obj).line_id(),
        ensures
            (final(obj).model(), *final(line), r) == spec_wait(old(obj).model(), *old(line), waker),
            final(obj).line_id() == old(obj).line_id(),
    {
        if line.pending {
            PollResult::Ready
        } else {
            obj.arm(waker);
            line.masked = false;
            PollResult::Pending
        }
    }

    /// Clears a stale pending flag at the controller, so that the next wait
    /// actually suspends instead of resolving on a leftover flag. The caller
    /// decides when that is appropriate.
    pub fn unpend(&self, line: &mut LineState)
        ensures
            *final(line) == spec_unpend(*old(line)),
    {
        line.pending = false;
    }
}

/// One operation on a wait object and its line, as the model sees it: a
/// handle acquisition attempt, one poll step of the suspend protocol, the
/// line firing, or a clear of the pending flag.
pub enum WaitOp<W> {
    Grant,
    Wait { waker: W },
    Fired,
    Unpend,
}

/// The state reached by one operation (discarding the operation's output).
pub open spec fn wait_op_step<W>(m: WaitModel<W>, l: LineState, op: WaitOp<W>) -> (WaitModel<W>, LineState) {
    match op {
        WaitOp::Grant => (spec_grant(m).0, l),
        WaitOp::Wait { waker } => {
            let (m2, l2, _r) = spec_wait(m, l, waker);
            (m2, l2)
        }
        WaitOp::Fired => {
            let (m2, l2, _woken) = spec_fired(m, l);
            (m2, l2)
        }
        WaitOp::Unpend => (m, spec_unpend(l)),
    }
}

/// How many of the acquisition attempts in `ops` succeed, when the
/// operations run in order from `(m, l)`.
pub open spec fn grants_won<W>(m: WaitModel<W>, l: LineState, ops: Seq<WaitOp<W>>) -> nat
    decreases ops.len(),
{
    if ops.len() == 0 {
        0
    } else {
        let here: nat = if ops[0] is Grant && spec_grant(m).1 { 1 } else { 0 };
        let (m2, l2) = wait_op_step(m, l, ops[0]);
        here + grants_won(m2, l2, ops.skip(1))
    }
}

/// No operation ever takes the issuance flag back from issued to not-issued:
/// reaching issued is terminal for the object's lifetime.
pub proof fn lemma_issued_is_terminal<W>(m: WaitModel<W>, l: LineState, op: WaitOp<W>)
    requires
        m.issued,
    ensures
        wait_op_step(m, l, op).0.issued,
{
}

/// Across every sequence of operations on one wait object, at most one
/// acquisition attempt succeeds; on an object whose handle is already issued,
/// none does. All other attempts report the duplicate acquisition.
pub proof fn lemma_at_most_one_grant<W>(m: WaitModel<W>, l: LineState, ops: Seq<WaitOp<W>>)
    ensures
        grants_won(m, l, ops) <= if m.issued { 0int } else { 1int },
    decreases ops.len(),
{
    if ops.len() > 0 {
        let (m2, l2) = wait_op_step(m, l, ops[0]);
        lemma_at_most_one_grant(m2, l2, ops.skip(1));
    }
}

/// If the line fires while no wake-capability is stored, nothing is woken and
/// nothing changes beyond the masking of the line (the caller's unconditional
/// processor wake signal stands outside the model).
pub proof fn lemma_fired_without_waker<W>(m: WaitModel<W>, l: LineState)
    requires
        m.waker is None,
    ensures
        ({
            let (m2, l2, woken) = spec_fired(m, l);
            &&& woken is None
            &&& m2 == m
            &&& l2.masked
            &&& l2.pending == l.pending
        }),
{
}

/// The fast path of the suspend protocol: a wait begun while the line is
/// already pending resolves at once, without masking or unmasking and without
/// storing any wake-capability.
pub proof fn lemma_wait_fast_path<W>(m: WaitModel<W>, l: LineState, w: W)
    requires
        l.pending,
    ensures
        ({
            let (m2, l2, r) = spec_wait(m, l, w);
            &&& r == PollResult::Ready
            &&& m2 == m
            &&& l2 == l
        }),
{
}

/// The slow path of the suspend protocol, followed by the line firing: the
/// wait stores exactly the caller's wake-capability and leaves the line
/// unmasked; the firing consumes that capability exactly once — it is handed
/// out once and the slot is empty afterwards — and re-masks the line.
pub proof fn lemma_wait_then_fired<W>(m: WaitModel<W>, l: LineState, w: W)
    requires
        !l.pending,
    ensures
        ({
            let (m1, l1, r) = spec_wait(m, l, w);
            let (m2, l2, woken) = spec_fired(m1, l1);
            &&& r == PollResult::Pending
            &&& m1.waker == Some(w)
            &&& !l1.masked
            &&& woken == Some(w)
            &&& m2.waker is None
            &&& l2.masked
        }),
{
}

} // verus!
