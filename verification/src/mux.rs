//! The multiplexed wait of the session loop.
//!
//! In its running state the loop waits for the first of several ready
//! sources: cancellation, the status-event stream, and the data source (a
//! periodic timer for a publisher, sample arrival for a subscriber). The
//! choice among ready sources is round-robin between status and data, so a
//! flood on one stream cannot starve the other; a pending cancellation is
//! always observed at the very next wait.

use vstd::prelude::*;

verus! {

/// One source of the multiplexed wait.
#[derive(Clone, Copy, Debug, PartialEq, Eq, Structural)]
pub enum Source {
    /// External cancellation, e.g. a process shutdown signal.
    Cancel,
    /// The endpoint's status-event stream.
    Status,
    /// The data source: timer tick (publisher) or sample arrival
    /// (subscriber).
    Data,
}

/// Rotation state of the round-robin choice between status and data.
#[derive(Clone, Copy, Debug, PartialEq, Eq, Structural)]
pub struct Mux {
    pub prefer_data: bool,
}

/// The source served for rotation state `prefer_data` when the given
/// sources are ready: cancellation first, then whichever of data and
/// status is preferred and ready.
pub open spec fn spec_pick(
    prefer_data: bool,
    cancel_ready: bool,
    status_ready: bool,
    data_ready: bool,
) -> Source {
    if cancel_ready {
        Source::Cancel
    } else if prefer_data {
        if data_ready {
            Source::Data
        } else {
            Source::Status
        }
    } else {
        if status_ready {
            Source::Status
        } else {
            Source::Data
        }
    }
}

/// The rotation state after serving `picked`: serving data yields the
/// preference to status and vice versa; a cancellation leaves it as it was.
pub open spec fn spec_next(prefer_data: bool, picked: Source) -> bool {
    match picked {
        Source::Cancel => prefer_data,
        Source::Status => true,
        Source::Data => false,
    }
}

impl Mux {
    /// A fresh rotation, serving the data source first.
    pub fn new() -> (m: Mux)
        ensures
            m.prefer_data,
    {
        Mux { prefer_data: true }
    }

    /// Picks the source to serve among those ready and advances the
    /// rotation. Only a ready source is ever picked, and a pending
    /// cancellation is picked unconditionally.
    pub fn pick(&mut self, cancel_ready: bool, status_ready: bool, data_ready: bool) -> (s:
        Source)
        requires
            cancel_ready || status_ready || data_ready,
        ensures
            s == spec_pick(old(self).prefer_data, cancel_ready, status_ready, data_ready),
            final(self).prefer_data == spec_next(old(self).prefer_data, s),
            s is Cancel ==> cancel_ready,
            s is Status ==> status_ready,
            s is Data ==> data_ready,
            cancel_ready ==> s is Cancel,
    {
        if cancel_ready {
            Source::Cancel
        } else if self.prefer_data {
            if data_ready {
                self.prefer_data = false;
                Source::Data
            } else {
                self.prefer_data = true;
                Source::Status
            }
        } else {
            if status_ready {
                self.prefer_data = true;
                Source::Status
            } else {
                self.prefer_data = false;
                Source::Data
            }
        }
    }
}

/// Fairness of the multiplexed wait: from any rotation state, if both the
/// status source and the data source have events pending over two
/// consecutive selections and no cancellation is pending, each of the two
/// is served exactly once. So with any numbers of status events and
/// samples queued simultaneously, neither source waits longer than one
/// iteration while the other is served, and no source is starved across an
/// unbounded number of iterations.
pub proof fn lemma_pick_fair(prefer_data: bool)
    ensures
        ({
            let first = spec_pick(prefer_data, false, true, true);
            let second = spec_pick(spec_next(prefer_data, first), false, true, true);
            &&& (first is Data && second is Status) || (first is Status && second is Data)
        }),
{
}

/// The selections made over `n` iterations in which both status and data
/// stay ready and no cancellation arrives.
pub open spec fn spec_run_both_ready(prefer_data: bool, n: nat) -> Seq<Source>
    decreases n,
{
    if n == 0 {
        Seq::empty()
    } else {
        let s = spec_pick(prefer_data, false, true, true);
        seq![s] + spec_run_both_ready(spec_next(prefer_data, s), (n - 1) as nat)
    }
}

/// While both sources stay ready, the selections simply alternate.
proof fn lemma_run_alternates(prefer_data: bool, n: nat, i: int)
    requires
        0 <= i < n,
    ensures
        spec_run_both_ready(prefer_data, n).len() == n,
        spec_run_both_ready(prefer_data, n)[i] == (if (i % 2 == 0) == prefer_data {
            Source::Data
        } else {
            Source::Status
        }),
    decreases n,
{
    let s = spec_pick(prefer_data, false, true, true);
    let rest = spec_run_both_ready(spec_next(prefer_data, s), (n - 1) as nat);
    if n > 1 && i >= 1 {
        lemma_run_alternates(spec_next(prefer_data, s), (n - 1) as nat, i - 1);
        assert((i - 1) % 2 == (if i % 2 == 0 {
            1int
        } else {
            0int
        }));
    } else if (n - 1) as nat > 0 {
        lemma_run_alternates(spec_next(prefer_data, s), (n - 1) as nat, 0);
    } else {
        assert(rest.len() == 0);
    }
}

/// No starvation across a window: in any window of two consecutive
/// iterations of a run in which both sources stay ready, the status source
/// is served at least once and the data source is served at least once —
/// in particular within any window as long as the total number of pending
/// events.
pub proof fn lemma_run_no_starvation(prefer_data: bool, n: nat, i: int)
    requires
        0 <= i,
        i + 2 <= n,
    ensures
        spec_run_both_ready(prefer_data, n).len() == n,
        exists|j: int|
            i <= j < i + 2 && spec_run_both_ready(prefer_data, n)[j] == Source::Data,
        exists|j: int|
            i <= j < i + 2 && spec_run_both_ready(prefer_data, n)[j] == Source::Status,
{
    lemma_run_alternates(prefer_data, n, i);
    lemma_run_alternates(prefer_data, n, i + 1);
    assert((i + 1) % 2 == (if i % 2 == 0 {
        1int
    } else {
        0int
    }));
    if spec_run_both_ready(prefer_data, n)[i] == Source::Data {
        assert(spec_run_both_ready(prefer_data, n)[i + 1] == Source::Status);
    } else {
        assert(spec_run_both_ready(prefer_data, n)[i + 1] == Source::Data);
    }
}

} // verus!
