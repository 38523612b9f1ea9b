//! The channel: senders push into a shared queue and then wake every armed
//! receiver; receivers take values one at a time and manage their own entry in
//! the shared wake table.

use crate::poller::Poller;
use crate::registry::{
    deregister_post, entry_armed, register_post, reregister_post, RegistrationError, WakerRegistry,
};
use crossbeam::channel as queue;
use crossbeam::channel::Receiver as QueueReceiver;
use crossbeam::channel::Sender as QueueSender;
use std::sync::Arc;
use vstd::prelude::*;
use vstd::rwlock::{RwLock, RwLockPredicate};

verus! {

/// The sending end of a crossbeam queue.
#[verifier::external_type_specification]
#[verifier::external_body]
#[verifier::reject_recursive_types(T)]
pub struct ExQueueSender<T>(QueueSender<T>);

/// The receiving end of a crossbeam queue.
#[verifier::external_type_specification]
#[verifier::external_body]
#[verifier::reject_recursive_types(T)]
pub struct ExQueueReceiver<T>(QueueReceiver<T>);

/// Relies on crossbeam's `unbounded`: a fresh queue with no bound, as a sending
/// and a receiving end.
pub assume_specification<T>[ queue::unbounded::<T> ]() -> (
    QueueSender<T>,
    QueueReceiver<T>,
);

/// Relies on crossbeam's `Sender::send`: on an unbounded queue it does not block,
/// and it fails only when every receiver is gone, handing the value back.
#[verifier::external_body]
fn push<T>(tx: &QueueSender<T>, t: T) -> (r: Result<(), T>)
    ensures
        r matches Err(x) ==> x == t,
{
    tx.send(t).map_err(|e| e.into_inner())
}

/// Relies on crossbeam's `Receiver::try_recv`: takes a value if one is queued,
/// else tells an empty queue from one whose senders are all gone.
#[verifier::external_body]
fn take<T>(rx: &QueueReceiver<T>) -> Result<T, TryRecvError> {
    match rx.try_recv() {
        Ok(t) => Ok(t),
        Err(queue::TryRecvError::Empty) => Err(TryRecvError::Empty),
        Err(queue::TryRecvError::Disconnected) => Err(TryRecvError::Closed),
    }
}

/// Relies on `Clone` of crossbeam's `Receiver`: another handle on the same queue.
#[verifier::external_body]
fn share_receiver<T>(rx: &QueueReceiver<T>) -> QueueReceiver<T> {
    rx.clone()
}

/// Relies on `Clone` of crossbeam's `Sender`: another handle on the same queue.
#[verifier::external_body]
fn share_sender<T>(tx: &QueueSender<T>) -> QueueSender<T> {
    tx.clone()
}

/// A value that could not be sent because every receiver is gone.
#[derive(Debug)]
pub struct SendError<T>(pub T);

/// Why `try_recv` returned no value.
#[derive(Clone, Copy, Debug, PartialEq, Eq, Structural)]
pub enum TryRecvError {
    /// Nothing is queued now.
    Empty,
    /// Nothing is queued and every sender is gone.
    Closed,
}

/// The lock's invariant: the table is well formed whenever it is unlocked.
pub struct TableInv;

impl RwLockPredicate<WakerRegistry> for TableInv {
    open spec fn inv(self, v: WakerRegistry) -> bool {
        v.wf()
    }
}

/// The wake table of one channel, shared by all its handles.
pub type SharedTable = Arc<RwLock<WakerRegistry, TableInv>>;

/// Creates a channel: a sender and the first receiver, whose id is 0 and
/// which is not registered.
pub fn channel<T>() -> (r: (Sender<T>, Receiver<T>))
    ensures
        r.1.registration_id() == 0,
        r.1.entry() is None,
        r.0.same_channel(&r.1),
{
    let (tx, rx) = queue::unbounded();
    let table: SharedTable = Arc::new(RwLock::new(WakerRegistry::new(), Ghost(TableInv)));
    (Sender { table: table.clone(), tx }, Receiver { table, rx, id: 0, entry: None })
}

/// The receiving handle. Clones compete for values, and each clone has its own
/// registration id and entry, which only it changes.
#[verifier::reject_recursive_types(T)]
pub struct Receiver<T> {
    table: SharedTable,
    rx: QueueReceiver<T>,
    id: usize,
    entry: Option<Option<usize>>,
}

impl<T> Clone for Receiver<T> {
    /// Another handle on the same queue and wake table, under a new id taken
    /// from the channel's counter, and not registered.
    fn clone(&self) -> (r: Self)
        ensures
            r.table() == self.table(),
            r.entry() is None,
    {
        let (mut t, handle) = self.table.acquire_write();
        let id = t.allocate_id();
        handle.release_write(t);
        Receiver { table: self.table.clone(), rx: share_receiver(&self.rx), id, entry: None }
    }
}

impl<T> Receiver<T> {
    /// This receiver's registration id.
    pub closed spec fn registration_id(&self) -> usize {
        self.id
    }

    /// The wake table this receiver belongs to.
    pub closed spec fn table(&self) -> RwLock<WakerRegistry, TableInv> {
        *self.table
    }

    /// This receiver's entry: `None` before its first registration, then the
    /// token while armed, or `Some(None)` once unarmed.
    pub closed spec fn entry(&self) -> Option<Option<usize>> {
        self.entry
    }

    /// This receiver's registration id.
    pub fn id(&self) -> (r: usize)
        ensures
            r == self.registration_id(),
    {
        self.id
    }

    /// Whether this receiver is registered with a poller now.
    pub fn is_registered(&self) -> (r: bool)
        ensures
            r == entry_armed(self.entry()),
    {
        match self.entry {
            Some(Some(_)) => true,
            _ => false,
        }
    }

    /// Takes one queued value, if there is one. Values go to exactly one of the
    /// competing receivers.
    pub fn try_recv(&self) -> Result<T, TryRecvError> {
        take(&self.rx)
    }

    fn arm(&mut self, poller: &mut Poller, token: mio::Token) -> (r: Result<(), RegistrationError>)
        requires
            !old(poller).has_waker(),
        ensures
            final(poller).has_waker(),
            final(self).registration_id() == old(self).registration_id(),
            final(self).table() == old(self).table(),
            (r is Ok && final(self).entry() == Some(Some(token.0)))
            || (r matches Err(RegistrationError::IoFailure(_)) && final(self).entry() == old(self).entry()),
    {
        match poller.make_waker(token) {
            Ok(waker) => {
                let (mut t, handle) = self.table.acquire_write();
                t.arm(self.id, token.0, waker);
                handle.release_write(t);
                self.entry = Some(Some(token.0));
                Ok(())
            },
            Err(e) => Err(RegistrationError::IoFailure(e)),
        }
    }

    /// Arms this receiver's entry with a wake handle for `token` on `poller`.
    /// The interest is ignored: a send always shows up as a readable event.
    /// Fails with `AlreadyRegistered`, changing nothing, while the entry is armed.
    pub fn register(&mut self, poller: &mut Poller, token: mio::Token, _interest: mio::Interest) -> (r:
        Result<(), RegistrationError>)
        requires
            !entry_armed(old(self).entry()) ==> !old(poller).has_waker(),
        ensures
            register_post(old(self).entry(), token.0, r, final(self).entry()),
            final(self).registration_id() == old(self).registration_id(),
            final(self).table() == old(self).table(),
            final(poller).has_waker() == (old(poller).has_waker() || !entry_armed(old(self).entry())),
    {
        if self.is_registered() {
            return Err(RegistrationError::AlreadyRegistered);
        }
        self.arm(poller, token)
    }

    /// Replaces this receiver's wake handle with one for `token` on `poller`.
    /// The interest is ignored. Fails with `NotRegistered`, changing nothing, if
    /// this receiver was never registered.
    pub fn reregister(&mut self, poller: &mut Poller, token: mio::Token, _interest: mio::Interest) -> (r:
        Result<(), RegistrationError>)
        requires
            old(self).entry() is Some ==> !old(poller).has_waker(),
        ensures
            reregister_post(old(self).entry(), token.0, r, final(self).entry()),
            final(self).registration_id() == old(self).registration_id(),
            final(self).table() == old(self).table(),
            final(poller).has_waker() == (old(poller).has_waker() || old(self).entry() is Some),
    {
        if self.entry.is_none() {
            return Err(RegistrationError::NotRegistered);
        }
        self.arm(poller, token)
    }

    /// Unarms this receiver's entry, so that later sends no longer wake it.
    /// Fails with `NotRegistered`, changing nothing, if this receiver was never
    /// registered.
    pub fn deregister(&mut self) -> (r: Result<(), RegistrationError>)
        ensures
            deregister_post(old(self).entry(), r, final(self).entry()),
            final(self).registration_id() == old(self).registration_id(),
            final(self).table() == old(self).table(),
    {
        if self.entry.is_none() {
            return Err(RegistrationError::NotRegistered);
        }
        let (mut t, handle) = self.table.acquire_write();
        t.disarm(self.id);
        handle.release_write(t);
        self.entry = Some(None);
        Ok(())
    }
}

/// The sending handle.
#[verifier::reject_recursive_types(T)]
pub struct Sender<T> {
    table: SharedTable,
    tx: QueueSender<T>,
}

impl<T> Clone for Sender<T> {
    /// Another sending handle on the same queue and wake table.
    fn clone(&self) -> Self {
        Sender { table: self.table.clone(), tx: share_sender(&self.tx) }
    }
}

impl<T> Sender<T> {
    /// Whether this sender and `rx` were made by one call of `channel`.
    pub closed spec fn same_channel(&self, rx: &Receiver<T>) -> bool {
        *self.table == rx.table()
    }

    /// Queues `t`, then wakes every armed receiver of the channel. A wake that
    /// fails is passed over. Fails, handing `t` back, when every receiver is gone.
    pub fn send(&self, t: T) -> (r: Result<(), SendError<T>>)
        ensures
            r matches Err(SendError(x)) ==> x == t,
    {
        match push(&self.tx, t) {
            Err(t) => Err(SendError(t)),
            Ok(()) => {
                let handle = self.table.acquire_read();
                let _ = handle.borrow().wake_all();
                handle.release_read();
                Ok(())
            },
        }
    }
}

} // verus!
