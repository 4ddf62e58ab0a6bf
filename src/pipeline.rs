use vstd::prelude::*;
use crate::gate::ReadinessGate;
use crate::queue::MutationQueue;

verus! {

/// What a wake signal does to the queue: once the surface is ready every queued batch
/// leaves (first result: what stays, second: what is handed out); with it
/// closed nothing moves.
pub open spec fn wake_outcome(ready: bool, pending: Seq<Seq<char>>) -> (Seq<Seq<char>>, Seq<Seq<char>>) {
    if ready {
        (Seq::empty(), pending)
    } else {
        (pending, Seq::empty())
    }
}

/// The batches that stay for the next wake when batch `failed` of a cycle
/// that handed out `edits` could not be applied: the ones after it. The
/// failed batch itself is not retried.
pub open spec fn unapplied_after(edits: Seq<Seq<char>>, failed: int) -> Seq<Seq<char>> {
    if 0 <= failed < edits.len() {
        edits.subrange(failed + 1, edits.len() as int)
    } else {
        Seq::empty()
    }
}

/// The state shared between the renderer worker and the host: the queue of
/// serialised batches and the readiness gate in front of it.
pub struct EditPipeline {
    queue: MutationQueue,
    gate: ReadinessGate,
}

impl EditPipeline {
    /// Batches waiting, oldest first.
    pub closed spec fn pending(self) -> Seq<Seq<char>> {
        self.queue@
    }

    /// Whether the surface has completed its start-up handshake.
    pub closed spec fn ready(self) -> bool {
        self.gate@
    }

    /// A closed gate in front of an empty queue.
    pub fn new() -> (r: EditPipeline)
        ensures
            !r.ready(),
            r.pending() == Seq::<Seq<char>>::empty(),
    {
        EditPipeline { queue: MutationQueue::new(), gate: ReadinessGate::new() }
    }

    /// Queues one batch behind the others, whether or not the surface is ready.
    pub fn push_edit(&mut self, batch: String)
        ensures
            final(self).pending() == old(self).pending().push(batch@),
            final(self).ready() == old(self).ready(),
    {
        self.queue.enqueue(batch);
    }

    /// Queues the batches of one render cycle, in their order.
    pub fn push_edits(&mut self, batches: Vec<String>)
        ensures
            final(self).pending() == old(self).pending() + batches@.map_values(|b: String| b@),
            final(self).ready() == old(self).ready(),
    {
        self.queue.enqueue_all(batches);
    }

    /// Marks the surface ready. Batches already queued stay queued, in order.
    pub fn initialize(&mut self)
        ensures
            final(self).ready(),
            final(self).pending() == old(self).pending(),
    {
        self.gate.mark_ready();
    }

    pub fn is_ready(&self) -> (b: bool)
        ensures
            b == self.ready(),
    {
        self.gate.is_ready()
    }

    pub fn pending_len(&self) -> (n: usize)
        ensures
            n == self.pending().len(),
    {
        self.queue.len()
    }

    /// Ends an apply cycle that stopped at batch `failed` of `edits`: the
    /// batches after it go back to the front of the queue, ahead of any queued
    /// since, for the next wake; the failed batch is dropped.
    pub fn restore_after_failure(&mut self, edits: Vec<String>, failed: usize)
        ensures
            final(self).pending() == unapplied_after(edits@.map_values(|b: String| b@), failed as int)
                + old(self).pending(),
            final(self).ready() == old(self).ready(),
    {
        let mut edits = edits;
        let ghost all = edits@.map_values(|b: String| b@);
        if failed < edits.len() {
            let rest = edits.split_off(failed + 1);
            proof {
                assert(rest@.map_values(|b: String| b@) =~= unapplied_after(all, failed as int));
            }
            self.queue.requeue_front(rest);
        } else {
            let none: Vec<String> = Vec::new();
            proof {
                assert(none@.map_values(|b: String| b@) =~= unapplied_after(all, failed as int));
            }
            self.queue.requeue_front(none);
        }
    }

    /// Answers a wake signal: hands out every queued batch, oldest first, if
    /// the surface is ready, and nothing otherwise.
    pub fn take_ready_edits(&mut self) -> (out: Vec<String>)
        ensures
            (final(self).pending(), out@.map_values(|b: String| b@)) == wake_outcome(
                old(self).ready(),
                old(self).pending(),
            ),
            final(self).ready() == old(self).ready(),
    {
        if self.gate.is_ready() {
            self.queue.drain_all()
        } else {
            let out: Vec<String> = Vec::new();
            proof {
                assert(out@.map_values(|b: String| b@) =~= Seq::<Seq<char>>::empty());
            }
            out
        }
    }
}

/// An event seen by the pipeline: a batch pushed by the renderer, a wake
/// signal to the host, or the surface's start-up handshake.
pub enum PipelineStep {
    Push(Seq<char>),
    Wake,
    Initialize,
}

/// The batches pushed in a run of steps, in order.
pub open spec fn pushed(ops: Seq<PipelineStep>) -> Seq<Seq<char>>
    decreases ops.len(),
{
    if ops.len() == 0 {
        Seq::empty()
    } else {
        match ops.last() {
            PipelineStep::Push(b) => pushed(ops.drop_last()).push(b),
            _ => pushed(ops.drop_last()),
        }
    }
}

/// Gate, queue, and every batch handed out so far, after the run `ops` from a
/// new pipeline.
pub open spec fn pipeline_run(ops: Seq<PipelineStep>) -> (bool, Seq<Seq<char>>, Seq<Seq<char>>)
    decreases ops.len(),
{
    if ops.len() == 0 {
        (false, Seq::empty(), Seq::empty())
    } else {
        let (ready, q, out) = pipeline_run(ops.drop_last());
        match ops.last() {
            PipelineStep::Push(b) => (ready, q.push(b), out),
            PipelineStep::Wake => (ready, wake_outcome(ready, q).0, out + wake_outcome(ready, q).1),
            PipelineStep::Initialize => (true, q, out),
        }
    }
}

/// Batches pushed before the handshake are neither lost nor handed out early:
/// they are all queued, in order, when the surface becomes ready, the next wake hands
/// them all out, and a later wake hands out none of them again.
pub proof fn lemma_buffered_until_ready(early: Seq<PipelineStep>)
    requires
        forall|i: int| 0 <= i < early.len() ==> !(early[i] is Initialize),
    ensures
        !pipeline_run(early).0,
        pipeline_run(early).1 == pushed(early),
        pipeline_run(early).2 == Seq::<Seq<char>>::empty(),
        pipeline_run(early.push(PipelineStep::Initialize)).1 == pushed(early),
        pipeline_run(early.push(PipelineStep::Initialize).push(PipelineStep::Wake)).2 == pushed(
            early,
        ),
        pipeline_run(
            early.push(PipelineStep::Initialize).push(PipelineStep::Wake).push(PipelineStep::Wake),
        ).2 == pushed(early),
    decreases early.len(),
{
    if early.len() > 0 {
        let prev = early.drop_last();
        assert forall|i: int| 0 <= i < prev.len() implies !(prev[i] is Initialize) by {
            assert(prev[i] == early[i]);
        }
        lemma_buffered_until_ready(prev);
        assert(!(early[early.len() - 1] is Initialize));
        let out = pipeline_run(prev).2;
        assert(out + Seq::<Seq<char>>::empty() =~= out);
        assert(early.last() == early[early.len() - 1]);
    }
    assert(pipeline_run(early) == (false, pushed(early), Seq::<Seq<char>>::empty()));
    let s1 = early.push(PipelineStep::Initialize);
    let s2 = s1.push(PipelineStep::Wake);
    let s3 = s2.push(PipelineStep::Wake);
    assert(s1.drop_last() =~= early);
    assert(s2.drop_last() =~= s1);
    assert(s3.drop_last() =~= s2);
    assert(s1.last() == PipelineStep::Initialize);
    assert(s2.last() == PipelineStep::Wake);
    assert(s3.last() == PipelineStep::Wake);
    assert(pipeline_run(s1) == (true, pushed(early), Seq::<Seq<char>>::empty()));
    assert(pipeline_run(s2) == (true, Seq::<Seq<char>>::empty(), pushed(early)));
    assert(Seq::<Seq<char>>::empty() + pushed(early) =~= pushed(early));
    assert(pushed(early) + Seq::<Seq<char>>::empty() =~= pushed(early));
}

} // verus!
