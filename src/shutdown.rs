use vstd::prelude::*;

use tokio::sync::watch;
use tokio::sync::watch::error::SendError;
use tokio::sync::watch::{Receiver, Sender};

use crate::error::AlreadyCreatedError;
use crate::guard::{claim_step, CreationFlag};

verus! {

/// The read side of a tokio watch channel, carried through opaquely.
#[verifier::external_type_specification]
#[verifier::external_body]
#[verifier::reject_recursive_types(T)]
pub struct ExReceiver<T>(Receiver<T>);

/// The write side of a tokio watch channel, carried through opaquely.
#[verifier::external_type_specification]
#[verifier::external_body]
#[verifier::reject_recursive_types(T)]
pub struct ExSender<T>(Sender<T>);

/// The error tokio's watch sender returns once every receiver is gone.
#[verifier::external_type_specification]
#[verifier::external_body]
#[verifier::reject_recursive_types(T)]
pub struct ExSendError<T>(SendError<T>);

/// Relies on tokio::sync::watch::channel to allocate the notification. The
/// contract states nothing of the two halves: that they share one channel is
/// tokio's promise, not something proved here.
pub assume_specification<T>[ watch::channel::<T> ](init: T) -> (Sender<T>, Receiver<T>);

/// Relies on tokio's `Clone` for a watch receiver, which copies the receiver's
/// shared channel pointer and last seen version: the copy equals the original.
pub assume_specification<T>[ <Receiver<T> as Clone>::clone ](r: &Receiver<T>) -> (res: Receiver<
    T,
>)
    ensures
        res == *r,
;

/// Relies on tokio::sync::watch::Sender::send to publish the shutdown value.
/// The contract states nothing of its effect or of when it fails.
pub assume_specification<T>[ Sender::<T>::send ](s: &Sender<T>, value: T) -> Result<
    (),
    SendError<T>,
>;

/// The process's shutdown handle. Clones are cheap and all observe the same
/// shutdown notification; cloning creates nothing else.
#[derive(Clone)]
pub struct Shutdown {
    receiver: Receiver<()>,
}

/// The write side of the shutdown notification. Exactly one exists per
/// successful creation; it is consumed when it fires, so it fires at most once.
pub struct Watcher {
    sender: Sender<()>,
}

impl Shutdown {
    /// The reader of the shutdown notification that this handle holds.
    pub closed spec fn reader(&self) -> Receiver<()> {
        self.receiver
    }

    /// Creates the shutdown handle and its watcher, claiming `flag`.
    ///
    /// Succeeds only if `flag` was clear; otherwise returns
    /// [`AlreadyCreatedError`] and creates nothing. The flag is set afterwards
    /// in every case. The handle and the watcher come from one tokio channel;
    /// that tie rests on tokio and is not stated by this contract.
    pub fn new(flag: &mut CreationFlag) -> (r: Result<(Shutdown, Watcher), AlreadyCreatedError>)
        ensures
            claim_step(old(flag)@, final(flag)@, r is Ok),
    {
        match flag.try_claim() {
            Err(e) => Err(e),
            Ok(()) => {
                let (sender, receiver) = watch::channel(());
                Ok((Shutdown { receiver }, Watcher { sender }))
            },
        }
    }

    /// A fresh reader of the shutdown notification, to wait on. It sees the
    /// notification as changed once the watcher has fired, whenever it is read.
    pub fn receiver(&self) -> (r: Receiver<()>)
        ensures
            r == self.reader(),
    {
        self.receiver.clone()
    }
}

impl Watcher {
    /// Fires the shutdown notification, waking every waiter now and later.
    pub fn notify(self) {
        let _ = self.sender.send(());
    }
}

} // verus!
