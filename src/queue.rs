use vstd::prelude::*;

verus! {

/// FIFO of serialised mutation batches produced by the renderer.
///
/// Batches leave only through `drain_all`, all at once and in the order in
/// which they were pushed.
pub struct MutationQueue {
    batches: Vec<String>,
}

impl View for MutationQueue {
    type V = Seq<Seq<char>>;

    closed spec fn view(&self) -> Seq<Seq<char>> {
        self.batches@.map_values(|b: String| b@)
    }
}

impl MutationQueue {
    /// An empty queue.
    pub fn new() -> (r: MutationQueue)
        ensures
            r@ == Seq::<Seq<char>>::empty(),
    {
        let r = MutationQueue { batches: Vec::new() };
        proof {
            assert(r@ =~= Seq::<Seq<char>>::empty());
        }
        r
    }

    /// Number of batches waiting.
    pub fn len(&self) -> (n: usize)
        ensures
            n == self@.len(),
    {
        self.batches.len()
    }

    pub fn is_empty(&self) -> (b: bool)
        ensures
            b == (self@.len() == 0),
    {
        self.batches.len() == 0
    }

    /// Appends one batch after every batch already queued.
    pub fn enqueue(&mut self, batch: String)
        ensures
            final(self)@ == old(self)@.push(batch@),
    {
        self.batches.push(batch);
        proof {
            assert(final(self)@ =~= old(self)@.push(batch@));
        }
    }

    /// Appends the batches of one work cycle, in their order, after every batch
    /// already queued.
    pub fn enqueue_all(&mut self, batches: Vec<String>)
        ensures
            final(self)@ == old(self)@ + batches@.map_values(|b: String| b@),
    {
        let ghost start = self@;
        let mut i: usize = 0;
        while i < batches.len()
            invariant
                0 <= i <= batches@.len(),
                self@ == start + batches@.subrange(0, i as int).map_values(|b: String| b@),
            decreases batches@.len() - i,
        {
            let b = batches[i].clone();
            self.enqueue(b);
            proof {
                assert(batches@.subrange(0, i + 1).map_values(|b: String| b@) =~= batches@.subrange(
                    0,
                    i as int,
                ).map_values(|b: String| b@).push(batches@[i as int]@));
            }
            i = i + 1;
        }
        proof {
            assert(batches@.subrange(0, batches@.len() as int) =~= batches@);
        }
    }

    /// Puts batches back at the front, ahead of every batch queued now, in
    /// their order.
    pub fn requeue_front(&mut self, batches: Vec<String>)
        ensures
            final(self)@ == batches@.map_values(|b: String| b@) + old(self)@,
    {
        let mut front = batches;
        front.append(&mut self.batches);
        self.batches = front;
        proof {
            assert(final(self)@ =~= batches@.map_values(|b: String| b@) + old(self)@);
        }
    }

    /// Removes every queued batch and hands them out, oldest first.
    pub fn drain_all(&mut self) -> (out: Vec<String>)
        ensures
            out@.map_values(|b: String| b@) == old(self)@,
            final(self)@ == Seq::<Seq<char>>::empty(),
    {
        let mut out: Vec<String> = Vec::new();
        core::mem::swap(&mut out, &mut self.batches);
        proof {
            assert(final(self)@ =~= Seq::<Seq<char>>::empty());
        }
        out
    }
}

/// A queue operation in a run: `Some(b)` enqueues `b`, `None` drains.
pub type QueueStep = Option<Seq<char>>;

/// The batches that a run enqueues, in order.
pub open spec fn enqueued(ops: Seq<QueueStep>) -> Seq<Seq<char>>
    decreases ops.len(),
{
    if ops.len() == 0 {
        Seq::empty()
    } else {
        match ops.last() {
            Some(b) => enqueued(ops.drop_last()).push(b),
            None => enqueued(ops.drop_last()),
        }
    }
}

/// Queue contents, and everything drained so far (drains concatenated in the
/// order they happened), after the run `ops` on a queue holding `start`.
pub open spec fn queue_run(start: Seq<Seq<char>>, ops: Seq<QueueStep>) -> (Seq<Seq<char>>, Seq<Seq<char>>)
    decreases ops.len(),
{
    if ops.len() == 0 {
        (start, Seq::empty())
    } else {
        let (q, out) = queue_run(start, ops.drop_last());
        match ops.last() {
            Some(b) => (q.push(b), out),
            None => (Seq::empty(), out + q),
        }
    }
}

/// FIFO: over any interleaving of enqueues and drains, the drained batches
/// followed by what is still queued are exactly the batches enqueued, in
/// enqueue order; with no drain in between, one drain returns them all.
pub proof fn lemma_queue_fifo(ops: Seq<QueueStep>)
    ensures
        queue_run(Seq::empty(), ops).1 + queue_run(Seq::empty(), ops).0 == enqueued(ops),
        (forall|i: int| 0 <= i < ops.len() ==> ops[i] is Some) ==> queue_run(
            Seq::empty(),
            ops.push(None),
        ).1 == enqueued(ops),
    decreases ops.len(),
{
    if ops.len() > 0 {
        lemma_queue_fifo(ops.drop_last());
        let (q, out) = queue_run(Seq::empty(), ops.drop_last());
        match ops.last() {
            Some(b) => {
                assert(out + q.push(b) =~= (out + q).push(b));
            },
            None => {
                assert(out + q + Seq::<Seq<char>>::empty() =~= out + q);
            },
        }
        if forall|i: int| 0 <= i < ops.len() ==> ops[i] is Some {
            lemma_no_drain_nothing_out(ops);
        }
    }
    assert(ops.push(None).drop_last() =~= ops);
    assert(queue_run(Seq::empty(), ops).1 + queue_run(Seq::empty(), ops).0 =~= queue_run(Seq::empty(), ops.push(None)).1);
}

proof fn lemma_no_drain_nothing_out(ops: Seq<QueueStep>)
    requires
        forall|i: int| 0 <= i < ops.len() ==> ops[i] is Some,
    ensures
        queue_run(Seq::empty(), ops).1 == Seq::<Seq<char>>::empty(),
    decreases ops.len(),
{
    if ops.len() > 0 {
        lemma_no_drain_nothing_out(ops.drop_last());
    }
}

} // verus!
