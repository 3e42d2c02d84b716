//! The directory watcher: a cooperative timer that says when a script
//! directory is to be listed again, and what the listing is.

use crate::listing::{is_listing, list_scripts};
use crate::text::names;
use vstd::prelude::*;

verus! {

/// Milliseconds between two listings of the interpreted scripts.
pub const PY_SCRIPT_FLUSH_MS: u64 = 1000;

/// Milliseconds between two listings of the native scripts.
pub const NORMAL_SCRIPT_FLUSH_MS: u64 = 1000;

/// Milliseconds that one tick of a watcher stands for.
pub const TIME_SLICE_MS: u64 = 100;

/// The directory of the interpreted scripts.
pub const PY_SCRIPT_DIR: &'static str = "./pyscripts";

/// The directory of the native scripts.
pub const NATIVE_SCRIPT_DIR: &'static str = "./nativescripts";

/// The extension of the interpreted scripts.
pub const PY_SCRIPT_EXTENSION: &'static str = "py";

/// The extension of the native scripts.
pub const NATIVE_SCRIPT_EXTENSION: &'static str = "rs";

/// What a watcher is, as numbers.
pub struct WatcherModel {
    /// Time between listings.
    pub interval: nat,
    /// Time accumulated since the last listing.
    pub elapsed: nat,
    /// Whether a refresh was asked for since the last tick.
    pub refresh: bool,
}

/// Whether a tick of `slice` on `w` calls for a listing: a refresh was asked
/// for, or the accumulated time reaches the interval.
pub open spec fn due(w: WatcherModel, slice: nat) -> bool {
    w.refresh || w.elapsed + slice >= w.interval
}

/// The watcher after a tick of `slice`: a pending refresh is consumed; the
/// accumulator starts again at zero where a listing is due, and grows by
/// `slice` where it is not.
pub open spec fn ticked(w: WatcherModel, slice: nat) -> WatcherModel {
    WatcherModel {
        interval: w.interval,
        elapsed: if due(w, slice) {
            0
        } else {
            w.elapsed + slice
        },
        refresh: false,
    }
}

/// The watcher after `n` ticks of `slice` with no refresh asked for in
/// between.
pub open spec fn ticked_times(w: WatcherModel, slice: nat, n: nat) -> WatcherModel
    decreases n,
{
    if n == 0 {
        w
    } else {
        ticked(ticked_times(w, slice, (n - 1) as nat), slice)
    }
}

/// Whether the `n`-th tick of `slice` on `w`, counted from one, calls for a
/// listing.
pub open spec fn due_at(w: WatcherModel, slice: nat, n: nat) -> bool
    recommends
        n >= 1,
{
    due(ticked_times(w, slice, (n - 1) as nat), slice)
}

/// From an empty accumulator and with no refresh asked for, `k` ticks that
/// together stay below the interval accumulate `k * slice` and call for no
/// listing.
pub proof fn lemma_quiet_ticks(w: WatcherModel, slice: nat, k: nat)
    requires
        w.elapsed == 0,
        !w.refresh,
        k * slice < w.interval,
    ensures
        ticked_times(w, slice, k) == (WatcherModel { elapsed: k * slice, ..w }),
        forall|j: nat| 1 <= j <= k ==> !due_at(w, slice, j),
    decreases k,
{
    if k == 0 {
        assert(0 * slice == 0);
        assert(ticked_times(w, slice, k) == w);
    } else {
        let before = (k - 1) as nat;
        assert(before * slice + slice == k * slice) by (nonlinear_arith)
            requires
                before + 1 == k,
        ;
        lemma_quiet_ticks(w, slice, before);
        assert(ticked_times(w, slice, k) == ticked(ticked_times(w, slice, before), slice));
    }
}

/// From an empty accumulator and with no refresh asked for, the first tick
/// that calls for a listing is the one on which the accumulated time reaches
/// the interval, and that tick empties the accumulator.
pub proof fn lemma_first_due_tick(w: WatcherModel, slice: nat, n: nat)
    requires
        w.elapsed == 0,
        !w.refresh,
        n >= 1,
        (n - 1) * slice < w.interval <= n * slice,
    ensures
        forall|j: nat| 1 <= j < n ==> !due_at(w, slice, j),
        due_at(w, slice, n),
        ticked_times(w, slice, n) == w,
{
    let before = (n - 1) as nat;
    assert(before * slice + slice == n * slice) by (nonlinear_arith)
        requires
            before + 1 == n,
    ;
    lemma_quiet_ticks(w, slice, before);
    assert(ticked_times(w, slice, n) == ticked(ticked_times(w, slice, before), slice));
}

/// A tick right after a refresh was asked for calls for a listing and
/// empties the accumulator, whatever time had accumulated.
pub proof fn lemma_refresh_is_immediate(w: WatcherModel, slice: nat)
    requires
        w.refresh,
    ensures
        due(w, slice),
        ticked(w, slice).elapsed == 0,
        !ticked(w, slice).refresh,
{
}

/// What a watcher's thread read from its control channel before a tick.
#[derive(Debug, Clone, Copy, PartialEq, Eq, Structural)]
pub enum WatchSignal {
    /// A refresh was asked for.
    Flush,
    /// Nothing was sent.
    Quiet,
    /// The other end is gone.
    Closed,
}

impl WatchSignal {
    /// What a reading of the control channel means: a message asks for a
    /// refresh; without one the channel is closed, or only quiet.
    pub fn of_reading(message: bool, closed: bool) -> (signal: WatchSignal)
        ensures
            signal == if message {
                WatchSignal::Flush
            } else if closed {
                WatchSignal::Closed
            } else {
                WatchSignal::Quiet
            },
    {
        if message {
            WatchSignal::Flush
        } else if closed {
            WatchSignal::Closed
        } else {
            WatchSignal::Quiet
        }
    }
}

/// What a watcher's thread is to do after a tick.
#[derive(Debug, Clone, Copy, PartialEq, Eq, Structural)]
pub enum WatchStep {
    /// Leave the loop.
    Stop,
    /// Sleep for one time slice, then tick again.
    Wait,
    /// List the directory and publish the listing, then tick again.
    List,
}

/// The timer of one watched directory.
pub struct Watcher {
    extension: String,
    interval_ms: u64,
    elapsed_ms: u64,
    refresh: bool,
}

impl View for Watcher {
    type V = WatcherModel;

    closed spec fn view(&self) -> WatcherModel {
        WatcherModel {
            interval: self.interval_ms as nat,
            elapsed: self.elapsed_ms as nat,
            refresh: self.refresh,
        }
    }
}

impl Watcher {
    /// The extension that the watcher lists.
    pub closed spec fn extension(&self) -> Seq<char> {
        self.extension@
    }

    /// A watcher for the files with extension `extension`, which lists every
    /// `interval_ms` milliseconds. Its accumulator is empty.
    pub fn new(extension: String, interval_ms: u64) -> (watcher: Watcher)
        ensures
            watcher@ == (WatcherModel { interval: interval_ms as nat, elapsed: 0, refresh: false }),
            watcher.extension() == extension@,
    {
        Watcher { extension, interval_ms, elapsed_ms: 0, refresh: false }
    }

    /// The watcher of the interpreted scripts.
    pub fn for_py_scripts() -> (watcher: Watcher)
        ensures
            watcher@ == (WatcherModel {
                interval: PY_SCRIPT_FLUSH_MS as nat,
                elapsed: 0,
                refresh: false,
            }),
            watcher.extension() == PY_SCRIPT_EXTENSION@,
    {
        Watcher::new(PY_SCRIPT_EXTENSION.to_owned(), PY_SCRIPT_FLUSH_MS)
    }

    /// The watcher of the native scripts.
    pub fn for_native_scripts() -> (watcher: Watcher)
        ensures
            watcher@ == (WatcherModel {
                interval: NORMAL_SCRIPT_FLUSH_MS as nat,
                elapsed: 0,
                refresh: false,
            }),
            watcher.extension() == NATIVE_SCRIPT_EXTENSION@,
    {
        Watcher::new(NATIVE_SCRIPT_EXTENSION.to_owned(), NORMAL_SCRIPT_FLUSH_MS)
    }

    /// Milliseconds accumulated since the last listing.
    pub fn elapsed_ms(&self) -> (ms: u64)
        ensures
            ms == self@.elapsed,
    {
        self.elapsed_ms
    }

    /// Milliseconds between two listings.
    pub fn interval_ms(&self) -> (ms: u64)
        ensures
            ms == self@.interval,
    {
        self.interval_ms
    }

    /// Asks for a listing at the next tick.
    pub fn request_refresh(&mut self)
        ensures
            final(self)@ == (WatcherModel { refresh: true, ..old(self)@ }),
            final(self).extension() == old(self).extension(),
    {
        self.refresh = true;
    }

    /// Lets `slice_ms` milliseconds pass, and says whether the directory is
    /// to be listed now.
    pub fn tick(&mut self, slice_ms: u64) -> (now: bool)
        ensures
            now == due(old(self)@, slice_ms as nat),
            final(self)@ == ticked(old(self)@, slice_ms as nat),
            final(self).extension() == old(self).extension(),
    {
        let now: bool = self.refresh || self.elapsed_ms >= self.interval_ms || slice_ms
            >= self.interval_ms - self.elapsed_ms;
        self.refresh = false;
        if now {
            self.elapsed_ms = 0;
        } else {
            self.elapsed_ms = self.elapsed_ms + slice_ms;
        }
        now
    }

    /// One turn of the watcher's loop: what to do after `signal` was read
    /// from the control channel and `slice_ms` milliseconds are let pass.
    ///
    /// A closed channel ends the loop and leaves the watcher as it is.
    /// Otherwise the turn is a tick, before which `Flush` asks for a refresh.
    pub fn step(&mut self, signal: WatchSignal, slice_ms: u64) -> (next: WatchStep)
        ensures
            final(self).extension() == old(self).extension(),
            signal is Closed ==> next is Stop && final(self)@ == old(self)@,
            signal is Flush ==> next is List && final(self)@ == ticked(
                WatcherModel { refresh: true, ..old(self)@ },
                slice_ms as nat,
            ),
            signal is Quiet ==> final(self)@ == ticked(old(self)@, slice_ms as nat) && (next is List
                <==> due(old(self)@, slice_ms as nat)) && (next is Wait <==> !due(
                old(self)@,
                slice_ms as nat,
            )),
    {
        match signal {
            WatchSignal::Closed => WatchStep::Stop,
            WatchSignal::Flush => {
                self.request_refresh();
                let _ = self.tick(slice_ms);
                WatchStep::List
            },
            WatchSignal::Quiet => {
                if self.tick(slice_ms) {
                    WatchStep::List
                } else {
                    WatchStep::Wait
                }
            },
        }
    }

    /// One poll of the watched directory: lets `slice_ms` milliseconds pass
    /// and answers with the listing where one is due, `None` where it is
    /// not. `entries` is what reading the directory gives, as for `listing`.
    pub fn poll(&mut self, slice_ms: u64, entries: Option<Vec<String>>) -> (listing: Option<
        Vec<String>,
    >)
        ensures
            listing is Some <==> due(old(self)@, slice_ms as nat),
            final(self)@ == ticked(old(self)@, slice_ms as nat),
            final(self).extension() == old(self).extension(),
            listing matches Some(list) ==> match entries {
                Some(found) => is_listing(names(list@), names(found@), old(self).extension()),
                None => list@.len() == 0,
            },
    {
        if self.tick(slice_ms) {
            Some(self.listing(entries))
        } else {
            None
        }
    }

    /// The listing to publish, from what reading the directory gave: the
    /// names of its entries, or `None` where it could not be read. A
    /// directory that cannot be read lists as empty.
    pub fn listing(&self, entries: Option<Vec<String>>) -> (listing: Vec<String>)
        ensures
            entries matches Some(found) ==> is_listing(
                names(listing@),
                names(found@),
                self.extension(),
            ),
            entries is None ==> listing@.len() == 0,
    {
        match entries {
            Some(found) => list_scripts(&found, self.extension.as_str()),
            None => Vec::new(),
        }
    }
}

} // verus!
