use vstd::prelude::*;

verus! {

#[verifier::external_type_specification]
#[verifier::external_body]
#[verifier::reject_recursive_types(T)]
pub struct ExUnboundedSender<T>(futures_channel::mpsc::UnboundedSender<T>);

/// The sending half of an unbounded channel, with a record of what was
/// offered to it and what it accepted.
#[verifier::reject_recursive_types(T)]
pub struct LoggedSender<T> {
    tx: futures_channel::mpsc::UnboundedSender<T>,
    offered: Ghost<Seq<T>>,
    accepted: Ghost<Seq<T>>,
}

impl<T> LoggedSender<T> {
    /// Every value handed to `send`, in order.
    pub closed spec fn offered(self) -> Seq<T> {
        self.offered@
    }

    /// Every value the channel took in, in order.
    pub closed spec fn accepted(self) -> Seq<T> {
        self.accepted@
    }

    pub fn new(tx: futures_channel::mpsc::UnboundedSender<T>) -> (r: LoggedSender<T>)
        ensures
            r.offered() == Seq::<T>::empty(),
            r.accepted() == Seq::<T>::empty(),
    {
        LoggedSender { tx, offered: Ghost(Seq::empty()), accepted: Ghost(Seq::empty()) }
    }

    /// Relies on futures_channel::mpsc::UnboundedSender::unbounded_send: the
    /// value is offered to the channel, which takes it in (`true`) or refuses
    /// it because the receiving side is gone (`false`).
    #[verifier::external_body]
    pub(crate) fn send(&mut self, value: T) -> (sent: bool)
        ensures
            final(self).offered() == old(self).offered().push(value),
            sent ==> final(self).accepted() == old(self).accepted().push(value),
            !sent ==> final(self).accepted() == old(self).accepted(),
    {
        self.tx.unbounded_send(value).is_ok()
    }
}

} // verus!
