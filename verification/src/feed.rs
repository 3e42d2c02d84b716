//! The link between the render loop and the thread that watches one script
//! directory: listings go one way, requests for a refresh the other.
//!
//! Both directions are `futures::channel::mpsc` channels. Nothing is assumed
//! of what a reading or a send returns.

use crate::watcher::WatchSignal;
use futures::channel::mpsc::{Receiver, Sender, TryRecvError, TrySendError};
use vstd::prelude::*;

verus! {

/// The receiving end of `futures::channel::mpsc`, as an opaque value.
#[verifier::external_type_specification]
#[verifier::external_body]
#[verifier::reject_recursive_types(T)]
pub struct ExReceiver<T>(Receiver<T>);

/// The sending end of `futures::channel::mpsc`, as an opaque value.
#[verifier::external_type_specification]
#[verifier::external_body]
#[verifier::reject_recursive_types(T)]
pub struct ExSender<T>(Sender<T>);

/// Why a reading of `futures::channel::mpsc` gave no message, as an opaque
/// value.
#[verifier::external_type_specification]
#[verifier::external_body]
pub struct ExTryRecvError(TryRecvError);

/// Why a send on `futures::channel::mpsc` did not go through, with the
/// message, as an opaque value.
#[verifier::external_type_specification]
#[verifier::external_body]
#[verifier::reject_recursive_types(T)]
pub struct ExTrySendError<T>(TrySendError<T>);

/// Messages that a channel of the link buffers beyond the one that each
/// sender may always leave.
pub const LINK_BUFFER: usize = 1;

/// `futures::channel::mpsc::channel` makes the two ends of a new bounded
/// channel. It panics on a buffer of a quarter of the address space or
/// more, which `requires` leaves out; nothing is claimed of the ends.
pub assume_specification<T>[ futures::channel::mpsc::channel::<T> ](buffer: usize) -> (ends: (
    Sender<T>,
    Receiver<T>,
))
    requires
        buffer < 0x3fff_ffff,
;

/// `Receiver::try_recv` reads the channel without waiting. Nothing is
/// claimed of what it returns.
pub assume_specification<T>[ Receiver::<T>::try_recv ](rx: &mut Receiver<T>) -> (reading: Result<
    T,
    TryRecvError,
>);

/// `TryRecvError::is_closed` tells a closed channel from one that is only
/// empty. Nothing is claimed of which it is.
pub assume_specification[ TryRecvError::is_closed ](error: &TryRecvError) -> (closed: bool);

/// `Sender::try_send` queues the message without waiting, or gives it back
/// in the error. Nothing is claimed of which happens.
pub assume_specification<T>[ Sender::<T>::try_send ](tx: &mut Sender<T>, msg: T) -> (sent: Result<
    (),
    TrySendError<T>,
>);

/// `TrySendError::is_disconnected` tells a receiver that is gone from a
/// channel that is only full. Nothing is claimed of which it is.
pub assume_specification<T>[ TrySendError::<T>::is_disconnected ](
    error: &TrySendError<T>,
) -> (gone: bool);

/// The render loop's end of the link to one watcher.
pub struct ScriptFeed {
    updates: Receiver<Vec<String>>,
    control: Sender<()>,
}

/// The watcher's end of the link to the render loop.
pub struct WatcherLink {
    updates: Sender<Vec<String>>,
    control: Receiver<()>,
}

/// The two ends of a new link.
pub fn script_channel() -> (ends: (ScriptFeed, WatcherLink)) {
    let (updates_tx, updates_rx) = futures::channel::mpsc::channel::<Vec<String>>(LINK_BUFFER);
    let (control_tx, control_rx) = futures::channel::mpsc::channel::<()>(LINK_BUFFER);
    (
        ScriptFeed { updates: updates_rx, control: control_tx },
        WatcherLink { updates: updates_tx, control: control_rx },
    )
}

impl ScriptFeed {
    /// The next listing that the watcher has published, if one waits.
    pub fn latest(&mut self) -> (listing: Option<Vec<String>>) {
        match self.updates.try_recv() {
            Ok(listing) => Some(listing),
            Err(_) => None,
        }
    }

    /// Asks the watcher to list at its next tick. The answer is whether the
    /// request was queued; one that is not is dropped.
    pub fn request_flush(&mut self) -> (queued: bool) {
        match self.control.try_send(()) {
            Ok(_) => true,
            Err(_) => false,
        }
    }
}

impl WatcherLink {
    /// What the render loop has asked for since the last reading.
    pub fn signal(&mut self) -> (signal: WatchSignal) {
        match self.control.try_recv() {
            Ok(_) => WatchSignal::of_reading(true, false),
            Err(error) => WatchSignal::of_reading(false, error.is_closed()),
        }
    }

    /// Publishes a listing. The answer is whether the render loop is still
    /// there; a listing that finds the channel full is dropped.
    pub fn publish(&mut self, listing: Vec<String>) -> (alive: bool) {
        match self.updates.try_send(listing) {
            Ok(_) => WatcherLink::alive_after(true, false),
            Err(error) => WatcherLink::alive_after(false, error.is_disconnected()),
        }
    }

    /// Whether the render loop is taken to be there after a send: it is
    /// where the listing was queued, and where it was not for any reason
    /// but a receiver that is gone.
    pub fn alive_after(queued: bool, gone: bool) -> (alive: bool)
        ensures
            alive == (queued || !gone),
    {
        queued || !gone
    }
}

} // verus!
