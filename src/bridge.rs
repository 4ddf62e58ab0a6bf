use vstd::prelude::*;
use crate::channel::LoggedSender;

verus! {

#[verifier::external_type_specification]
#[verifier::external_body]
#[verifier::reject_recursive_types(T)]
pub struct ExBroadcastSender<T>(tokio::sync::broadcast::Sender<T>);

#[verifier::external_type_specification]
#[verifier::external_body]
#[verifier::reject_recursive_types(T)]
pub struct ExBroadcastReceiver<T>(tokio::sync::broadcast::Receiver<T>);

/// How many scheduler-to-UI commands a subscriber may fall behind before it
/// starts missing the oldest ones.
pub const UI_COMMAND_CAPACITY: usize = 8;

/// The sending half of a broadcast channel, with its buffer size and a
/// record of every value handed to it.
#[verifier::reject_recursive_types(T)]
pub struct LoggedBroadcast<T> {
    tx: tokio::sync::broadcast::Sender<T>,
    cap: usize,
    handed: Ghost<Seq<T>>,
}

impl<T: Clone> LoggedBroadcast<T> {
    /// How many values the channel buffers for a subscriber that does not read.
    pub closed spec fn capacity(self) -> nat {
        self.cap as nat
    }

    /// Every value handed to `send`, in order.
    pub closed spec fn handed(self) -> Seq<T> {
        self.handed@
    }

    /// Relies on tokio::sync::broadcast::channel: a new channel buffering
    /// `capacity` values; it panics on a capacity of zero or above
    /// `usize::MAX / 2`. Only the sending half is kept; receivers come from
    /// `subscribe`.
    #[verifier::external_body]
    pub(crate) fn with_capacity(capacity: usize) -> (r: LoggedBroadcast<T>)
        requires
            0 < capacity <= usize::MAX / 2,
        ensures
            r.capacity() == capacity,
            r.handed() == Seq::<T>::empty(),
    {
        LoggedBroadcast {
            tx: tokio::sync::broadcast::channel(capacity).0,
            cap: capacity,
            handed: Ghost(Seq::empty()),
        }
    }

    /// Relies on tokio::sync::broadcast::Sender::send: the value is handed to
    /// the channel; `Err` exactly when no receiver is subscribed, otherwise
    /// the number of receivers, which is then at least one.
    #[verifier::external_body]
    pub(crate) fn send(&mut self, value: T) -> (receivers: Option<usize>)
        ensures
            final(self).handed() == old(self).handed().push(value),
            final(self).capacity() == old(self).capacity(),
            receivers matches Some(n) ==> n > 0,
    {
        self.tx.send(value).ok()
    }

    /// Relies on tokio::sync::broadcast::Sender::subscribe: a receiver of
    /// every value sent after this call.
    #[verifier::external_body]
    pub(crate) fn subscribe(&self) -> (rx: tokio::sync::broadcast::Receiver<T>) {
        self.tx.subscribe()
    }
}

/// Relies on tokio::sync::broadcast::Receiver::try_recv: the next value, the
/// number of values overwritten before this receiver read them, nothing
/// waiting, or a closed channel.
#[verifier::external_body]
fn broadcast_try_recv<T: Clone>(rx: &mut tokio::sync::broadcast::Receiver<T>) -> (r: UiPoll<T>) {
    match rx.try_recv() {
        Ok(v) => UiPoll::Command(v),
        Err(tokio::sync::broadcast::error::TryRecvError::Lagged(n)) => UiPoll::Missed(n),
        Err(tokio::sync::broadcast::error::TryRecvError::Empty) => UiPoll::Empty,
        Err(tokio::sync::broadcast::error::TryRecvError::Closed) => UiPoll::Closed,
    }
}

/// What one look at a UI subscription found.
pub enum UiPoll<U> {
    Command(U),
    /// The subscriber fell behind and this many commands were lost.
    Missed(u64),
    Empty,
    Closed,
}

/// Failure on the required UI-to-scheduler path.
#[derive(PartialEq, Eq, Structural, Clone, Copy, Debug)]
pub enum BridgeError {
    /// Nobody consumes core commands any more.
    SchedulerGone,
}

/// Commands collected by a UI subscriber, with a count of those it missed.
pub struct UiInbox<U> {
    pub commands: Vec<U>,
    pub missed: u64,
    pub closed: bool,
}

impl<U> UiInbox<U> {
    pub fn new() -> (r: UiInbox<U>)
        ensures
            r.commands@ == Seq::<U>::empty(),
            r.missed == 0,
            !r.closed,
    {
        UiInbox { commands: Vec::new(), missed: 0, closed: false }
    }

    /// Takes in one poll result; `true` while more may be waiting. A gap is
    /// counted (saturating) and reading goes on.
    pub fn absorb(&mut self, poll: UiPoll<U>) -> (more: bool)
        ensures
            match poll {
                UiPoll::Command(c) => final(self).commands@ == old(self).commands@.push(c)
                    && final(self).missed == old(self).missed && final(self).closed == old(
                    self,
                ).closed && more,
                UiPoll::Missed(n) => final(self).commands@ == old(self).commands@
                    && final(self).missed == (if old(self).missed + n > u64::MAX {
                    u64::MAX as int
                } else {
                    old(self).missed + n
                }) && final(self).closed == old(self).closed && more,
                UiPoll::Empty => final(self).commands@ == old(self).commands@ && final(self).missed
                    == old(self).missed && final(self).closed == old(self).closed && !more,
                UiPoll::Closed => final(self).commands@ == old(self).commands@ && final(self).missed
                    == old(self).missed && final(self).closed && !more,
            },
    {
        match poll {
            UiPoll::Command(c) => {
                self.commands.push(c);
                true
            },
            UiPoll::Missed(n) => {
                self.missed = self.missed.saturating_add(n);
                true
            },
            UiPoll::Empty => false,
            UiPoll::Closed => {
                self.closed = true;
                false
            },
        }
    }
}

/// The two typed paths between the UI runtime and an external scheduler:
/// core commands go, in order, to the scheduler's single consumer; UI
/// commands are broadcast to every current subscriber, lossily.
#[verifier::reject_recursive_types(C)]
#[verifier::reject_recursive_types(U)]
pub struct CommandBridge<C, U> {
    core_tx: LoggedSender<C>,
    ui_tx: LoggedBroadcast<U>,
}

impl<C, U: Clone> CommandBridge<C, U> {
    /// Core commands the scheduler's channel took in so far, in order.
    pub closed spec fn sent(self) -> Seq<C> {
        self.core_tx.accepted()
    }

    /// UI commands handed to the broadcast channel so far, in order.
    pub closed spec fn published(self) -> Seq<U> {
        self.ui_tx.handed()
    }

    /// How many UI commands the broadcast channel buffers for a subscriber.
    pub closed spec fn capacity(self) -> nat {
        self.ui_tx.capacity()
    }

    /// A bridge sending core commands into `core_tx`, with a new broadcast
    /// channel of `UI_COMMAND_CAPACITY` for UI commands.
    pub fn new(core_tx: futures_channel::mpsc::UnboundedSender<C>) -> (r: CommandBridge<C, U>)
        ensures
            r.capacity() == UI_COMMAND_CAPACITY,
            r.sent() == Seq::<C>::empty(),
            r.published() == Seq::<U>::empty(),
    {
        CommandBridge {
            core_tx: LoggedSender::new(core_tx),
            ui_tx: LoggedBroadcast::with_capacity(UI_COMMAND_CAPACITY),
        }
    }

    pub fn ui_capacity(&self) -> (n: usize)
        ensures
            n == self.capacity(),
    {
        self.ui_tx.cap
    }

    /// Hands a command to the scheduler's channel. `Err` exactly when the
    /// channel refused it because its consumer is gone, which is the
    /// caller's fatal error.
    pub fn send(&mut self, cmd: C) -> (r: Result<(), BridgeError>)
        ensures
            r is Ok ==> final(self).sent() == old(self).sent().push(cmd),
            r is Err ==> final(self).sent() == old(self).sent() && r == Err::<(), BridgeError>(
                BridgeError::SchedulerGone,
            ),
            final(self).published() == old(self).published(),
            final(self).capacity() == old(self).capacity(),
    {
        if self.core_tx.send(cmd) {
            Ok(())
        } else {
            Err(BridgeError::SchedulerGone)
        }
    }

    /// A new UI subscriber, which sees commands published from now on.
    pub fn receiver(&self) -> (rx: tokio::sync::broadcast::Receiver<U>) {
        self.ui_tx.subscribe()
    }

    /// Publishes one command to every subscriber; with none, nothing happens.
    /// Gives the number of subscribers reached.
    pub fn publish(&mut self, cmd: U) -> (reached: usize)
        ensures
            final(self).published() == old(self).published().push(cmd),
            final(self).sent() == old(self).sent(),
            final(self).capacity() == old(self).capacity(),
    {
        match self.ui_tx.send(cmd) {
            Some(n) => n,
            None => 0,
        }
    }

    /// Forwards the UI commands the scheduler produced in one tick, all of
    /// them and in order. Gives how many reached at least one subscriber.
    pub fn dispatch_ui_commands(&mut self, commands: Vec<U>) -> (delivered: usize)
        ensures
            final(self).published() == old(self).published() + commands@,
            final(self).sent() == old(self).sent(),
            final(self).capacity() == old(self).capacity(),
            delivered <= commands@.len(),
    {
        let ghost all = commands@;
        let mut rest = commands;
        let mut delivered: usize = 0;
        let total: usize = rest.len();
        while rest.len() > 0
            invariant
                all.len() == total,
                rest@ == all.subrange(all.len() - rest@.len(), all.len() as int),
                self.published() == old(self).published() + all.subrange(
                    0,
                    all.len() - rest@.len(),
                ),
                self.sent() == old(self).sent(),
                self.capacity() == old(self).capacity(),
                delivered <= all.len() - rest@.len(),
            decreases rest@.len(),
        {
            let ghost k = all.len() - rest@.len();
            let cmd = rest.remove(0);
            if self.publish(cmd) > 0 {
                delivered = delivered + 1;
            }
            proof {
                assert(all.subrange(0, k + 1) =~= all.subrange(0, k).push(cmd));
                assert(rest@ =~= all.subrange(all.len() - rest@.len(), all.len() as int));
            }
        }
        proof {
            assert(all.subrange(0, all.len() as int) =~= all);
        }
        delivered
    }
}

/// Reads what a subscriber has waiting, at most `max` polls: commands in the
/// order they were published, a count of those lost to overflow, and whether
/// the channel closed.
pub fn poll_ui_commands<U: Clone>(rx: &mut tokio::sync::broadcast::Receiver<U>, max: usize) -> (inbox: UiInbox<U>)
    ensures
        inbox.commands@.len() <= max,
{
    let mut inbox = UiInbox::new();
    let mut i: usize = 0;
    while i < max
        invariant
            0 <= i <= max,
            inbox.commands@.len() <= i,
        decreases max - i,
    {
        let poll = broadcast_try_recv(rx);
        let more = inbox.absorb(poll);
        if !more {
            break;
        }
        i = i + 1;
    }
    inbox
}

} // verus!
