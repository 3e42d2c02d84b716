//! One-shot task handles: the two ends over which a background task gives
//! its single result to the render loop.
//!
//! The channel is `futures::channel::oneshot`. Nothing is assumed of what a
//! reading of it returns; what a handle makes of each reading is verified.

use futures::channel::oneshot::{Canceled, Receiver, Sender};
use vstd::prelude::*;

verus! {

/// The receiving end of `futures::channel::oneshot`, as an opaque value.
#[verifier::external_type_specification]
#[verifier::external_body]
#[verifier::reject_recursive_types(T)]
pub struct ExReceiver<T>(Receiver<T>);

/// The sending end of `futures::channel::oneshot`, as an opaque value.
#[verifier::external_type_specification]
#[verifier::external_body]
#[verifier::reject_recursive_types(T)]
pub struct ExSender<T>(Sender<T>);

/// The error of `futures::channel::oneshot` for a sender that is gone, as
/// an opaque value.
#[verifier::external_type_specification]
#[verifier::external_body]
pub struct ExCanceled(Canceled);

/// `futures::channel::oneshot::channel` makes the two ends of a new channel.
/// Nothing is claimed of them.
pub assume_specification<T>[ futures::channel::oneshot::channel::<T> ]() -> (ends: (
    Sender<T>,
    Receiver<T>,
));

/// `Receiver::try_recv` reads the channel without waiting. It does not
/// panic; nothing is claimed of what it returns, which depends on how far
/// the sending task has come.
pub assume_specification<T>[ Receiver::<T>::try_recv ](rx: &mut Receiver<T>) -> (reading: Result<
    Option<T>,
    Canceled,
>);

/// `Sender::send` hands the value to the channel, or gives it back where
/// the receiver is gone. It does not panic. Nothing is claimed of which of
/// the two happens, only that what comes back is the value that went in.
pub assume_specification<T>[ Sender::<T>::send ](tx: Sender<T>, t: T) -> (sent: Result<(), T>)
    ensures
        sent matches Err(back) ==> back == t,
;

/// What one poll of a handle found.
#[derive(Debug, PartialEq, Eq)]
pub enum Status<T> {
    /// The task has not finished.
    Pending,
    /// The task's result, handed out this once.
    Ready(T),
    /// There is no result to come: it was handed out before, or the task
    /// ended without sending one.
    Closed,
}

/// What a reading of the channel means to a handle that is not yet spent:
/// no value yet is `Pending`, a value is `Ready`, a sender that is gone is
/// `Closed`.
pub open spec fn status_of<T>(reading: Result<Option<T>, Canceled>) -> Status<T> {
    match reading {
        Ok(None) => Status::Pending,
        Ok(Some(value)) => Status::Ready(value),
        Err(_) => Status::Closed,
    }
}

/// What a handle answers to one reading of its channel: a spent handle
/// answers `Closed` whatever was read.
pub open spec fn answer<T>(spent: bool, reading: Result<Option<T>, Canceled>) -> Status<T> {
    if spent {
        Status::Closed
    } else {
        status_of(reading)
    }
}

/// Whether a handle is spent after it has answered one reading: any answer
/// but `Pending` spends it, and it stays spent.
pub open spec fn spent_after<T>(spent: bool, reading: Result<Option<T>, Canceled>) -> bool {
    spent || !(answer(spent, reading) is Pending)
}

/// Whether a handle is spent after it has answered `readings` in turn.
pub open spec fn spent_after_all<T>(spent: bool, readings: Seq<Result<Option<T>, Canceled>>) -> bool
    decreases readings.len(),
{
    if readings.len() == 0 {
        spent
    } else {
        spent_after(spent_after_all(spent, readings.drop_last()), readings.last())
    }
}

/// What a new handle answers to the reading at `i`, after it has answered
/// the readings before it.
pub open spec fn answer_at<T>(readings: Seq<Result<Option<T>, Canceled>>, i: int) -> Status<T>
    recommends
        0 <= i < readings.len(),
{
    answer(spent_after_all(false, readings.take(i)), readings[i])
}

/// A handle that is spent stays spent, whatever it reads.
pub proof fn lemma_spent_stays<T>(readings: Seq<Result<Option<T>, Canceled>>, i: int, j: int)
    requires
        0 <= i <= j <= readings.len(),
        spent_after_all(false, readings.take(i)),
    ensures
        spent_after_all(false, readings.take(j)),
    decreases j - i,
{
    if i < j {
        lemma_spent_stays(readings, i, j - 1);
        assert(readings.take(j).drop_last() == readings.take(j - 1));
    }
}

/// Whatever the channel gives on each reading, a handle answers `Ready` at
/// most once: after any answer but `Pending`, every later answer is
/// `Closed`.
pub proof fn lemma_ready_at_most_once<T>(
    readings: Seq<Result<Option<T>, Canceled>>,
    i: int,
    j: int,
)
    requires
        0 <= i < j < readings.len(),
        !(answer_at(readings, i) is Pending),
    ensures
        answer_at(readings, j) is Closed,
{
    assert(readings.take(i + 1).drop_last() == readings.take(i));
    assert(readings.take(i + 1).last() == readings[i]);
    lemma_spent_stays(readings, i + 1, j);
}

/// The render loop's end of a background task: polled every frame, it hands
/// out the task's result once.
#[verifier::reject_recursive_types(T)]
pub struct Handle<T> {
    rx: Receiver<T>,
    spent: bool,
}

/// The background task's end: it sends the single result.
#[verifier::reject_recursive_types(T)]
pub struct Completer<T> {
    tx: Sender<T>,
}

/// The two ends for one background task. The handle is not spent.
pub fn task_pair<T>() -> (ends: (Completer<T>, Handle<T>))
    ensures
        !ends.1.is_spent(),
{
    let (tx, rx) = futures::channel::oneshot::channel::<T>();
    (Completer { tx }, Handle { rx, spent: false })
}

impl<T> Completer<T> {
    /// Sends the task's result. Where the handle was dropped the value comes
    /// back as `Err`, and nothing else happens.
    pub fn complete(self, value: T) -> (sent: Result<(), T>)
        ensures
            sent matches Err(back) ==> back == value,
    {
        self.tx.send(value)
    }
}

impl<T> Handle<T> {
    /// Whether the handle will hand out nothing any more: its result was
    /// taken, or it was found closed.
    pub closed spec fn is_spent(&self) -> bool {
        self.spent
    }

    /// Whether the handle will hand out nothing any more.
    pub fn spent(&self) -> (yes: bool)
        ensures
            yes == self.is_spent(),
    {
        self.spent
    }

    /// What the handle makes of one reading of its channel.
    ///
    /// A spent handle answers `Closed` whatever was read. Otherwise the
    /// answer is `status_of(reading)`, and any answer but `Pending` leaves
    /// the handle spent.
    pub fn settle(&mut self, reading: Result<Option<T>, Canceled>) -> (status: Status<T>)
        ensures
            status == answer(old(self).is_spent(), reading),
            final(self).is_spent() == spent_after(old(self).is_spent(), reading),
    {
        if self.spent {
            return Status::Closed;
        }
        match reading {
            Ok(None) => Status::Pending,
            Ok(Some(value)) => {
                self.spent = true;
                Status::Ready(value)
            },
            Err(_) => {
                self.spent = true;
                Status::Closed
            },
        }
    }

    /// Polls the task without waiting.
    ///
    /// `Ready` comes at most once: whatever the task does, any answer but
    /// `Pending` leaves the handle spent, and a spent handle answers
    /// `Closed` and stays spent.
    pub fn try_take(&mut self) -> (status: Status<T>)
        ensures
            old(self).is_spent() ==> status is Closed,
            final(self).is_spent() == (old(self).is_spent() || !(status is Pending)),
    {
        if self.spent {
            return Status::Closed;
        }
        let reading = self.rx.try_recv();
        self.settle(reading)
    }
}

} // verus!
