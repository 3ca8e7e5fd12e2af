//! The channel between the scrape handlers and the sensing worker: a
//! coalescing trigger one way, the latest outcome the other way.
//!
//! The trigger is a `tokio::sync::Notify`, the slot a `tokio::sync::watch`
//! channel. Both are shared between tasks, so nothing that one handle does
//! can be stated of what another handle sees; the functions here fix what is
//! handed to tokio and what is made of its answers.

use core::future::Future;
use std::sync::Arc;
use tokio::sync::futures::Notified;
use tokio::sync::watch::error::{RecvError, SendError};
use tokio::sync::watch::{Receiver, Sender};
use tokio::sync::Notify;
use vstd::prelude::*;

verus! {

/// `tokio::sync::Notify`, opaque to the verifier.
#[verifier::external_type_specification]
#[verifier::external_body]
pub struct ExNotify(tokio::sync::Notify);

/// `tokio::sync::futures::Notified`, the future that waits for a `Notify`.
#[verifier::external_type_specification]
#[verifier::external_body]
pub struct ExNotified<'a>(tokio::sync::futures::Notified<'a>);

/// `tokio::sync::watch::Sender`, opaque to the verifier.
#[verifier::external_type_specification]
#[verifier::external_body]
#[verifier::reject_recursive_types(T)]
pub struct ExSender<T>(tokio::sync::watch::Sender<T>);

/// `tokio::sync::watch::Receiver`, opaque to the verifier.
#[verifier::external_type_specification]
#[verifier::external_body]
#[verifier::reject_recursive_types(T)]
pub struct ExReceiver<T>(tokio::sync::watch::Receiver<T>);

/// `tokio::sync::watch::error::SendError`, which holds the value that could
/// not be sent in its one public field.
#[verifier::external_type_specification]
pub struct ExSendError<T>(tokio::sync::watch::error::SendError<T>);

/// `tokio::sync::watch::error::RecvError`, opaque to the verifier.
#[verifier::external_type_specification]
#[verifier::external_body]
pub struct ExRecvError(tokio::sync::watch::error::RecvError);

/// `Notify::new` makes a notifier. Nothing is claimed of it.
pub assume_specification[ tokio::sync::Notify::new ]() -> (notifier: tokio::sync::Notify);

/// `Notify::notify_one` wakes one waiting task or, where none waits, stores
/// one permit at most. It returns nothing and nothing is claimed of it.
pub assume_specification[ tokio::sync::Notify::notify_one ](notifier: &tokio::sync::Notify);

/// `Notify::notified` makes the future that completes once the notifier has
/// been notified. Nothing is claimed of the future.
pub assume_specification<'a>[ tokio::sync::Notify::notified ](
    notifier: &'a tokio::sync::Notify,
) -> (wait: tokio::sync::futures::Notified<'a>);

/// `watch::channel` makes a channel that holds `init`. Nothing is claimed of
/// the two ends.
pub assume_specification<T>[ tokio::sync::watch::channel::<T> ](init: T) -> (ends: (
    tokio::sync::watch::Sender<T>,
    tokio::sync::watch::Receiver<T>,
));

/// `watch::Sender::send` stores `value` and notifies the receivers, or fails
/// where no receiver is left. Which of the two happens is not claimed; where
/// it fails, the error holds the value that was handed in.
pub assume_specification<T>[ tokio::sync::watch::Sender::<T>::send ](
    sender: &tokio::sync::watch::Sender<T>,
    value: T,
) -> (sent: Result<(), tokio::sync::watch::error::SendError<T>>)
    ensures
        sent matches Err(unsent) ==> unsent.0 == value,
;

/// `watch::Receiver::clone` makes another receiver of the same channel,
/// which has seen what the first has seen. Nothing is claimed of it.
pub assume_specification<T>[ <tokio::sync::watch::Receiver<T> as std::clone::Clone>::clone ](
    receiver: &tokio::sync::watch::Receiver<T>,
) -> (other: tokio::sync::watch::Receiver<T>);

/// `watch::Receiver::mark_unchanged` makes the receiver take the value that
/// the channel holds now as seen. Nothing is claimed of it.
pub assume_specification<T>[ tokio::sync::watch::Receiver::<T>::mark_unchanged ](
    receiver: &mut tokio::sync::watch::Receiver<T>,
);

/// `watch::Receiver::changed` makes the future that completes once the
/// channel holds a value that this receiver has not seen, or fails once the
/// sender is gone. Nothing is claimed of the future.
#[verifier::external_body]
fn watch_changed<T>(receiver: &mut Receiver<T>) -> impl Future<Output = Result<(), RecvError>> + '_ {
    receiver.changed()
}

/// `watch::Receiver::borrow` gives the value that the channel holds at the
/// moment of the call, of which a clone is returned. Nothing is claimed of
/// the value: another task may have sent it.
#[verifier::external_body]
fn watch_value<T: Clone>(receiver: &Receiver<T>) -> T {
    receiver.borrow().clone()
}

/// A publish found no receiver left. Holds the value that was not published.
pub struct NoListeners<T>(pub T);

/// What tokio's answer to a send means to the publisher: a send that went
/// through is a publish, a send that failed found no listener and brings its
/// value back.
pub open spec fn published_as<T>(sent: Result<(), SendError<T>>) -> Result<(), NoListeners<T>> {
    match sent {
        Ok(()) => Ok(()),
        Err(unsent) => Err(NoListeners(unsent.0)),
    }
}

/// Turns tokio's answer to a send into the result of a publish.
pub fn publish_result<T>(sent: Result<(), SendError<T>>) -> (published: Result<
    (),
    NoListeners<T>,
>)
    ensures
        published == published_as(sent),
{
    match sent {
        Ok(()) => Ok(()),
        Err(SendError(unsent)) => Err(NoListeners(unsent)),
    }
}

/// The sending side was dropped while a receiver waited for a value.
#[derive(Clone, Copy, Debug, PartialEq, Eq, Structural)]
pub struct WorkerGone;

/// The worker's side of the channel: it waits for triggers and publishes.
#[derive(Debug)]
#[verifier::reject_recursive_types(T)]
pub struct MeasurementSender<T> {
    notifier: Arc<Notify>,
    sender: Sender<T>,
}

/// A handler's side of the channel: it triggers and observes.
#[derive(Debug)]
#[verifier::reject_recursive_types(T)]
pub struct MeasurementReceiver<T> {
    notifier: Arc<Notify>,
    receiver: Receiver<T>,
}

impl<T> MeasurementSender<T> {
    /// The trigger that this side waits on.
    pub closed spec fn trigger(self) -> Arc<Notify> {
        self.notifier
    }
}

impl<T> MeasurementReceiver<T> {
    /// The trigger that this side fires.
    pub closed spec fn trigger(self) -> Arc<Notify> {
        self.notifier
    }
}

/// Creates a channel whose slot holds `initial_value`, and returns its two
/// sides. The receiving side fires the very trigger that the sending side
/// waits on; the slot that the two share is tokio's, of which nothing is
/// claimed.
pub fn measurement_channel<T>(initial_value: T) -> (ends: (
    MeasurementSender<T>,
    MeasurementReceiver<T>,
))
    ensures
        ends.0.trigger() == ends.1.trigger(),
{
    let (tx, rx) = tokio::sync::watch::channel(initial_value);
    let notifier = Arc::new(Notify::new());
    let sender = MeasurementSender { notifier: notifier.clone(), sender: tx };
    let receiver = MeasurementReceiver { notifier, receiver: rx };
    (sender, receiver)
}

impl<T> Clone for MeasurementReceiver<T> {
    /// Another receiver for a further handler. It fires the trigger that
    /// this one fires; that it reads the same slot is tokio's.
    fn clone(&self) -> (copy: Self)
        ensures
            copy.trigger() == self.trigger(),
    {
        MeasurementReceiver { notifier: self.notifier.clone(), receiver: self.receiver.clone() }
    }
}

impl<T> MeasurementReceiver<T> {
    /// Asks the worker for a measurement. Never blocks and never fails; any
    /// number of calls before the worker wakes amount to one wake-up.
    pub fn trigger_measurement(&self) {
        self.notifier.notify_one()
    }

    /// Asks the worker for a fresh measurement: takes what has been published
    /// so far as observed, then triggers. The next change that this receiver
    /// waits for is therefore a publish made after this call, never one that
    /// an earlier scrape has already been answered with. The receiver stays
    /// on its trigger.
    pub fn request_measurement(&mut self)
        ensures
            final(self).trigger() == old(self).trigger(),
    {
        self.receiver.mark_unchanged();
        self.notifier.notify_one()
    }

    /// The future that completes when a value is published that this
    /// receiver has not observed yet. Hand what it yields to `observed`.
    /// The receiver stays on its trigger.
    pub fn changed(&mut self) -> (wait: impl Future<Output = Result<(), RecvError>> + '_)
        ensures
            final(self).trigger() == old(self).trigger(),
    {
        watch_changed(&mut self.receiver)
    }

    /// What a wait for a change amounts to: the published value where the
    /// wait succeeded, `WorkerGone` where the sender was dropped.
    pub fn observed(&self, woke: Result<(), RecvError>) -> (seen: Result<T, WorkerGone>) where
        T: Clone,

        ensures
            seen is Ok <==> woke is Ok,
    {
        match woke {
            Ok(()) => Ok(watch_value(&self.receiver)),
            Err(_) => Err(WorkerGone),
        }
    }

    /// The value that the slot holds now, without waiting.
    pub fn current(&self) -> T where T: Clone {
        watch_value(&self.receiver)
    }
}

impl<T> MeasurementSender<T> {
    /// The future that completes once a measurement has been asked for since
    /// the last wake-up.
    pub fn notified(&self) -> Notified<'_> {
        self.notifier.notified()
    }

    /// Publishes `value` to every receiver. Fails only where no receiver is
    /// left, and then hands the value back. Whether a receiver is left lies
    /// with the other tasks; `publish_result` says what is made of either
    /// answer.
    pub fn send_measurement(&self, value: T) -> (sent: Result<(), NoListeners<T>>)
        ensures
            sent matches Err(unsent) ==> unsent.0 == value,
    {
        publish_result(self.sender.send(value))
    }
}

} // verus!
