//! The finality-synchronisation state machine: waits until a source-chain
//! inclusion point is covered by a published head range.
//!
//! The machine only decides; fetching the current head range (or resolving a
//! beacon slot to a block height) and sleeping between polls belong to the
//! surrounding program, which feeds each observation in.  This keeps the
//! unbounded polling loop outside the core and makes the transition rule
//! testable without real delay.

use vstd::prelude::*;

verus! {

/// Fixed poll interval between head observations, in seconds.
pub const POLL_INTERVAL_SECS: u64 = 60;

/// The published range of source-chain blocks or slots currently provable on
/// the destination side, inclusive at both ends.  Replaced wholesale on each
/// poll; never mutated locally.
#[derive(Clone, Copy, Debug, PartialEq, Eq, Structural)]
pub struct HeadRange {
    pub start: u64,
    pub end: u64,
}

/// Whether `target` lies within `range`, inclusive at both ends.
pub open spec fn spec_covers(range: HeadRange, target: u64) -> bool {
    range.start <= target <= range.end
}

/// The two states of the synchronisation machine.  `Found` is terminal and
/// carries the head range that satisfied the inclusion test.
#[derive(Clone, Copy, Debug, PartialEq, Eq, Structural)]
pub enum SyncState {
    Polling,
    Found { range: HeadRange },
}

/// A finality-synchronisation instance for one inclusion point.  Two kinds
/// of instance exist: one keyed on a source-chain block height watching a
/// published head range, and one keyed on a beacon slot whose observations
/// arrive as externally resolved block heights.
#[derive(Clone, Copy, Debug, PartialEq, Eq, Structural)]
pub struct FinalitySync {
    pub target: u64,
    pub state: SyncState,
}

impl FinalitySync {
    /// The transition rule: a terminal state is kept; otherwise the machine
    /// moves to `Found` exactly when the observed range covers the target.
    pub open spec fn spec_observe(self, range: HeadRange) -> FinalitySync {
        if self.state is Found {
            self
        } else if spec_covers(range, self.target) {
            FinalitySync { target: self.target, state: SyncState::Found { range } }
        } else {
            self
        }
    }

    /// Starts polling for `target`.
    pub fn new(target: u64) -> (s: FinalitySync)
        ensures
            s.target == target,
            s.state is Polling,
    {
        FinalitySync { target, state: SyncState::Polling }
    }

    /// Feeds one observed head range to the machine and returns the next
    /// state.  The machine transitions to `Found` exactly when the range
    /// covers the target, boundaries included; otherwise it keeps polling.
    pub fn observe(self, range: HeadRange) -> (next: FinalitySync)
        ensures
            next == self.spec_observe(range),
            next.target == self.target,
            self.state is Polling && spec_covers(range, self.target) ==> next.state == (SyncState::Found { range }),
            self.state is Polling && !spec_covers(range, self.target) ==> next.state is Polling,
            self.state is Found ==> next == self,
    {
        match self.state {
            SyncState::Found { .. } => self,
            SyncState::Polling => {
                if range.start <= self.target && self.target <= range.end {
                    FinalitySync { target: self.target, state: SyncState::Found { range } }
                } else {
                    self
                }
            },
        }
    }

    /// Feeds one externally resolved head block height, as produced by the
    /// beacon-slot lookup: the head has reached the target exactly when the
    /// resolved height is at least the target, i.e. when the range from the
    /// chain's origin up to the resolved height covers it.
    pub fn observe_resolved_height(self, height: u64) -> (next: FinalitySync)
        ensures
            next == self.spec_observe(HeadRange { start: 0, end: height }),
            next.target == self.target,
            self.state is Polling && height >= self.target ==> next.state == (SyncState::Found {
                range: HeadRange { start: 0, end: height },
            }),
            self.state is Polling && height < self.target ==> next.state is Polling,
            self.state is Found ==> next == self,
    {
        self.observe(HeadRange { start: 0, end: height })
    }
}

/// Boundary behaviour of the transition rule, for every polling machine and
/// every head range: a range that starts or ends exactly at the target finds
/// it and returns that range; a range whose end lies just below the target,
/// or whose start lies just above it, leaves the machine polling.
pub proof fn lemma_finality_boundary(s: FinalitySync, range: HeadRange)
    requires
        s.state is Polling,
        range.start <= range.end,
    ensures
        s.target == range.start ==> s.spec_observe(range).state == (SyncState::Found { range }),
        s.target == range.end ==> s.spec_observe(range).state == (SyncState::Found { range }),
        s.target == range.start - 1 ==> s.spec_observe(range).state is Polling,
        s.target == range.end + 1 ==> s.spec_observe(range).state is Polling,
{
}

} // verus!
