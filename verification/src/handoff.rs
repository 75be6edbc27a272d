//! A single-shot channel: one value passes from a producer in a background
//! context to a consumer that polls without blocking.
//!
//! The transport is `futures_channel::oneshot`. The consumer side adds a
//! latch of its own, so that delivery happens at most once whatever the
//! transport reports.

use futures_channel::oneshot::{Canceled, Receiver, Sender};
use vstd::prelude::*;

verus! {

/// The transport's receiving end, `futures_channel::oneshot::Receiver`. It is
/// carried as it is; nothing is known of what is inside.
#[verifier::external_type_specification]
#[verifier::external_body]
#[verifier::reject_recursive_types(T)]
pub struct ExReceiver<T>(futures_channel::oneshot::Receiver<T>);

/// The transport's sending end, `futures_channel::oneshot::Sender`. It is
/// carried as it is; nothing is known of what is inside.
#[verifier::external_type_specification]
#[verifier::external_body]
#[verifier::reject_recursive_types(T)]
pub struct ExSender<T>(futures_channel::oneshot::Sender<T>);

/// The transport's word for a producer that is gone,
/// `futures_channel::oneshot::Canceled`.
#[verifier::external_type_specification]
#[verifier::external_body]
pub struct ExCanceled(futures_channel::oneshot::Canceled);

/// `futures_channel::oneshot::channel` makes the two connected endpoints.
/// Nothing is claimed of them.
pub assume_specification<T>[ futures_channel::oneshot::channel::<T> ]() -> (ends: (
    Sender<T>,
    Receiver<T>,
));

/// `Receiver::try_recv` looks for the value without blocking. What it finds
/// depends on what the producer has done so far, so nothing is claimed of
/// the answer.
pub assume_specification<T>[ futures_channel::oneshot::Receiver::<T>::try_recv ](receiver: &mut Receiver<T>) -> (raw: Result<
    Option<T>,
    Canceled,
>);

/// `Sender::send` hands the value to the transport. When the consumer is
/// gone it gives the very same value back in `Err`; that is all that is
/// claimed.
pub assume_specification<T>[ futures_channel::oneshot::Sender::<T>::send ](sender: Sender<T>, value: T) -> (sent: Result<
    (),
    T,
>)
    ensures
        sent matches Err(back) ==> back == value,
;

/// What one non-blocking receive found.
pub enum Polled<T> {
    /// The producer is still at work.
    NotReady,
    /// The value, handed over this once.
    Ready(T),
    /// No value will come: the producer went away without sending, or the
    /// value was handed over before.
    Closed,
}

/// A [`Polled`] without its value.
#[derive(Clone, Copy, PartialEq, Eq, Structural, Debug)]
pub enum Report {
    NotReady,
    Ready,
    Closed,
}

impl<T> Polled<T> {
    pub open spec fn report(self) -> Report {
        match self {
            Polled::NotReady => Report::NotReady,
            Polled::Ready(_) => Report::Ready,
            Polled::Closed => Report::Closed,
        }
    }

    /// The same as [`Polled::report`], for running code.
    pub fn kind(&self) -> (r: Report)
        ensures
            r == self.report(),
    {
        match self {
            Polled::NotReady => Report::NotReady,
            Polled::Ready(_) => Report::Ready,
            Polled::Closed => Report::Closed,
        }
    }
}

/// How the transport's answer reads as a [`Polled`].
pub open spec fn polled_of<T>(raw: Result<Option<T>, Canceled>) -> Polled<T> {
    match raw {
        Ok(None) => Polled::NotReady,
        Ok(Some(value)) => Polled::Ready(value),
        Err(_) => Polled::Closed,
    }
}

/// Reads the transport's answer: a cancellation becomes [`Polled::Closed`],
/// a value to report and not a fault.
pub fn classify<T>(raw: Result<Option<T>, Canceled>) -> (polled: Polled<T>)
    ensures
        polled == polled_of(raw),
{
    match raw {
        Ok(None) => Polled::NotReady,
        Ok(Some(value)) => Polled::Ready(value),
        Err(_) => Polled::Closed,
    }
}

/// Whether a consumer whose latch is `open` may report `report`: once the
/// latch has fallen, only `Closed` is left.
pub open spec fn may_report(open: bool, report: Report) -> bool {
    open || report == Report::Closed
}

/// The latch after `report`: it stays open only while nothing final was
/// seen.
pub open spec fn open_after(open: bool, report: Report) -> bool {
    open && report == Report::NotReady
}

/// What a consumer reports for the transport's answer `found`, which counts
/// only while the latch is open.
pub open spec fn latched<T>(open: bool, found: Polled<T>) -> Polled<T> {
    if open {
        found
    } else {
        Polled::Closed
    }
}

/// Whether `reports` can be what successive receives on one consumer gave,
/// starting with the latch at `open`.
pub open spec fn reports_allowed(open: bool, reports: Seq<Report>) -> bool
    decreases reports.len(),
{
    if reports.len() == 0 {
        true
    } else {
        may_report(open, reports[0]) && reports_allowed(
            open_after(open, reports[0]),
            reports.skip(1),
        )
    }
}

/// The producer's end.
#[verifier::reject_recursive_types(T)]
pub struct Outbox<T> {
    sender: Sender<T>,
}

/// The consumer's end.
#[verifier::reject_recursive_types(T)]
pub struct Inbox<T> {
    receiver: Receiver<T>,
    open: bool,
}

/// Makes a connected pair of endpoints. The consumer starts open.
pub fn single_shot<T>() -> (ends: (Outbox<T>, Inbox<T>))
    ensures
        ends.1.is_open(),
{
    let (sender, receiver) = futures_channel::oneshot::channel();
    (Outbox { sender }, Inbox { receiver, open: true })
}

impl<T> Outbox<T> {
    /// Sends the one value. Taking the endpoint by value rules out a second
    /// send. If the consumer is gone already, the value comes back.
    pub fn send(self, value: T) -> (sent: Result<(), T>)
        ensures
            sent matches Err(back) ==> back == value,
    {
        self.sender.send(value)
    }
}

impl<T> Inbox<T> {
    /// Whether no final answer was reported yet.
    pub closed spec fn is_open(&self) -> bool {
        self.open
    }

    /// The same as [`Inbox::is_open`], for running code.
    pub fn open(&self) -> (open: bool)
        ensures
            open == self.is_open(),
    {
        self.open
    }

    /// Applies the transport's answer `found` to the latch and says what to
    /// report.
    pub fn settle(&mut self, found: Polled<T>) -> (polled: Polled<T>)
        ensures
            polled == latched(old(self).is_open(), found),
            final(self).is_open() == open_after(old(self).is_open(), polled.report()),
            may_report(old(self).is_open(), polled.report()),
    {
        if self.open {
            match &found {
                Polled::NotReady => {},
                _ => {
                    self.open = false;
                },
            }
            found
        } else {
            Polled::Closed
        }
    }

    /// Looks for the value without blocking. The value is reported once;
    /// after it, or after `Closed`, every call reports `Closed`.
    pub fn try_receive(&mut self) -> (polled: Polled<T>)
        ensures
            may_report(old(self).is_open(), polled.report()),
            final(self).is_open() == open_after(old(self).is_open(), polled.report()),
    {
        if self.open {
            let raw = self.receiver.try_recv();
            let found = classify(raw);
            self.settle(found)
        } else {
            Polled::Closed
        }
    }
}

/// From a consumer whose latch has fallen, every report is `Closed`.
pub proof fn lemma_closed_stays_closed(reports: Seq<Report>, j: int)
    requires
        reports_allowed(false, reports),
        0 <= j < reports.len(),
    ensures
        reports[j] == Report::Closed,
    decreases reports.len(),
{
    if j > 0 {
        lemma_closed_stays_closed(reports.skip(1), j - 1);
    }
}

/// Exactly-once delivery: in whatever successive receives on one consumer
/// report, a `Ready` is followed by `Closed` only. So the value is reported
/// at most once, and nothing comes after it.
pub proof fn lemma_ready_at_most_once(open: bool, reports: Seq<Report>, i: int, j: int)
    requires
        reports_allowed(open, reports),
        0 <= i < j < reports.len(),
        reports[i] == Report::Ready,
    ensures
        reports[j] == Report::Closed,
    decreases reports.len(),
{
    if i == 0 {
        lemma_closed_stays_closed(reports.skip(1), j - 1);
    } else {
        lemma_ready_at_most_once(open_after(open, reports[0]), reports.skip(1), i - 1, j - 1);
    }
}

} // verus!
