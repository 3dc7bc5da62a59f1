//! The size guard: byte accounting for one direction of one exchange.
//!
//! A guard is given the limit of its direction with every event. A declared
//! length is compared with the limit and not counted; the bytes of a chunk
//! are added to the count, and the new count is compared. In both cases only
//! a value strictly above the limit is rejected. Without a limit nothing is
//! rejected and nothing needs counting.

use vstd::prelude::*;

verus! {

/// What a guard answers to one event.
#[derive(Clone, Copy, Debug, PartialEq, Eq, Structural)]
pub enum Verdict {
    /// The exchange goes on.
    Continue,
    /// The limit is exceeded: the exchange is to be terminated.
    Reject,
}

/// Accounting state of one direction of one exchange.
///
/// `accumulated_bytes` is the number of body bytes seen so far, capped at
/// `u64::MAX`. `terminated` is a latch: once set it stays set, and the guard
/// accepts everything that follows without looking at it.
#[derive(Clone, Copy, Debug, PartialEq, Eq, Structural)]
pub struct SizeGuard {
    pub accumulated_bytes: u64,
    pub terminated: bool,
}

/// Whether `value` is strictly above `limit`. No value is above an absent
/// limit.
pub open spec fn exceeds(limit: Option<u64>, value: int) -> bool {
    match limit {
        Some(l) => value > l,
        None => false,
    }
}

/// `value` capped at `u64::MAX`.
pub open spec fn capped(value: int) -> u64 {
    if value > u64::MAX {
        u64::MAX
    } else {
        value as u64
    }
}

impl SizeGuard {
    /// The guard of a direction on which nothing has happened yet.
    pub open spec fn fresh() -> SizeGuard {
        SizeGuard { accumulated_bytes: 0, terminated: false }
    }

    /// The guard has not rejected and what it has counted is within `limit`.
    pub open spec fn within(self, limit: Option<u64>) -> bool {
        !self.terminated && !exceeds(limit, self.accumulated_bytes as int)
    }

    /// State and answer after a declared-length event. A missing declaration
    /// never rejects; neither does one made to a guard that has terminated.
    pub open spec fn after_declared(self, limit: Option<u64>, declared: Option<u64>) -> (
        SizeGuard,
        Verdict,
    ) {
        match declared {
            Some(v) if !self.terminated && exceeds(limit, v as int) => (
                SizeGuard { accumulated_bytes: self.accumulated_bytes, terminated: true },
                Verdict::Reject,
            ),
            _ => (self, Verdict::Continue),
        }
    }

    /// State and answer after a chunk of `size` bytes. Without a limit, and
    /// after termination, nothing is counted.
    pub open spec fn after_chunk(self, limit: Option<u64>, size: u64) -> (SizeGuard, Verdict) {
        if self.terminated || limit is None {
            (self, Verdict::Continue)
        } else {
            let total = self.accumulated_bytes + size;
            (
                SizeGuard { accumulated_bytes: capped(total), terminated: exceeds(limit, total) },
                if exceeds(limit, total) {
                    Verdict::Reject
                } else {
                    Verdict::Continue
                },
            )
        }
    }

    /// The guard of a direction on which nothing has happened yet.
    pub fn new() -> (guard: SizeGuard)
        ensures
            guard == SizeGuard::fresh(),
    {
        SizeGuard { accumulated_bytes: 0, terminated: false }
    }

    /// The headers declare a body of `declared` bytes, or declare nothing
    /// that could be read.
    pub fn declared_length(&mut self, limit: Option<u64>, declared: Option<u64>) -> (verdict:
        Verdict)
        ensures
            (*final(self), verdict) == old(self).after_declared(limit, declared),
    {
        if self.terminated {
            return Verdict::Continue;
        }
        match (limit, declared) {
            (Some(l), Some(v)) => {
                if v > l {
                    self.terminated = true;
                    Verdict::Reject
                } else {
                    Verdict::Continue
                }
            },
            _ => Verdict::Continue,
        }
    }

    /// A chunk of `size` bytes passes. Where the count would not fit in 64
    /// bits it is above every limit: the chunk is rejected and the count
    /// stays at `u64::MAX`.
    pub fn chunk(&mut self, limit: Option<u64>, size: u64) -> (verdict: Verdict)
        ensures
            (*final(self), verdict) == old(self).after_chunk(limit, size),
    {
        if self.terminated {
            return Verdict::Continue;
        }
        match limit {
            None => Verdict::Continue,
            Some(l) => {
                match self.accumulated_bytes.checked_add(size) {
                    Some(total) => {
                        self.accumulated_bytes = total;
                        if total > l {
                            self.terminated = true;
                            Verdict::Reject
                        } else {
                            Verdict::Continue
                        }
                    },
                    None => {
                        self.accumulated_bytes = u64::MAX;
                        self.terminated = true;
                        Verdict::Reject
                    },
                }
            },
        }
    }
}

} // verus!
