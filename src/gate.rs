use vstd::prelude::*;

verus! {

/// One access to a readiness flag: a read, or setting it.
pub enum GateAccess {
    Read,
    Open,
}

impl GateAccess {
    /// Whether the flag is up after this access, given whether it was before.
    pub open spec fn next(self, ready: bool) -> bool {
        match self {
            GateAccess::Read => ready,
            GateAccess::Open => true,
        }
    }
}

/// Whether the flag is up after the accesses `ops`, in order, starting from `ready`.
pub open spec fn gate_after(ready: bool, ops: Seq<GateAccess>) -> bool
    decreases ops.len(),
{
    if ops.len() == 0 {
        ready
    } else {
        ops.last().next(gate_after(ready, ops.drop_last()))
    }
}

/// One-way flag set when the rendered surface has finished its own start-up.
/// Closed until then; once open it stays open.
pub struct ReadinessGate {
    ready: bool,
}

impl View for ReadinessGate {
    type V = bool;

    closed spec fn view(&self) -> bool {
        self.ready
    }
}

impl ReadinessGate {
    /// A closed gate.
    pub fn new() -> (r: ReadinessGate)
        ensures
            !r@,
    {
        ReadinessGate { ready: false }
    }

    /// Whether the surface is ready.
    pub fn is_ready(&self) -> (b: bool)
        ensures
            b == GateAccess::Read.next(self@),
    {
        self.ready
    }

    /// Raises the flag; raising it again changes nothing.
    pub fn mark_ready(&mut self)
        ensures
            final(self)@ == GateAccess::Open.next(old(self)@),
    {
        self.ready = true;
    }
}

/// Once open, a gate stays open: after any run of reads and opens that starts
/// at an open gate, every read sees it open.
pub proof fn lemma_gate_latches(ops: Seq<GateAccess>)
    ensures
        forall|i: int| 0 <= i <= ops.len() ==> #[trigger] gate_after(true, ops.take(i)),
{
    assert forall|i: int| 0 <= i <= ops.len() implies #[trigger] gate_after(true, ops.take(i)) by {
        lemma_open_stays_open(ops.take(i));
    }
}

proof fn lemma_open_stays_open(ops: Seq<GateAccess>)
    ensures
        gate_after(true, ops),
    decreases ops.len(),
{
    if ops.len() > 0 {
        lemma_open_stays_open(ops.drop_last());
    }
}

} // verus!
