//! The debounce clock: one 64-bit register that remembers when the window
//! was last hidden because it lost the input focus.
//!
//! The register is shared by handlers that may run on different threads, so
//! it is an atomic word, written with release and read with acquire
//! ordering. What a reading means is decided on plain values, by `elapsed`.

use std::sync::atomic::AtomicU64;
use std::sync::atomic::Ordering;
use vstd::prelude::*;

verus! {

/// The register's value while no focus-loss hide has been recorded.
pub const NEVER_HIDDEN: u64 = 0;

/// A tray click that comes sooner than this many milliseconds after a
/// focus-loss hide is fallout of that hide.
pub const DEBOUNCE_MILLIS: u64 = 200;

/// What a register holding `stored` reports at time `now`: nothing while no
/// hide was recorded, else the difference `now - stored`, taken in 64 bits.
pub open spec fn elapsed_between(stored: u64, now: u64) -> Option<u64> {
    if stored == NEVER_HIDDEN {
        None
    } else if stored <= now {
        Some((now - stored) as u64)
    } else {
        Some((now + 0x1_0000_0000_0000_0000 - stored) as u64)
    }
}

/// The register's value after the hides in `history` were recorded, oldest
/// first: each recording overwrites the one before it.
pub open spec fn stored_after(history: Seq<u64>) -> u64 {
    if history.len() == 0 {
        NEVER_HIDDEN
    } else {
        history.last()
    }
}

/// The time elapsed at `now` since the hide whose timestamp is `stored`.
pub fn elapsed(stored: u64, now: u64) -> (r: Option<u64>)
    ensures
        r == elapsed_between(stored, now),
{
    if stored == NEVER_HIDDEN {
        None
    } else {
        Some(now.wrapping_sub(stored))
    }
}

/// The shared register. Verus sees nothing of what an atomic word holds, so
/// the contracts below say only what holds of every value it may hand back.
pub struct DebounceClock {
    last_hide: AtomicU64,
}

impl DebounceClock {
    /// A clock on which no hide has been recorded yet.
    pub fn new() -> (clock: DebounceClock) {
        DebounceClock { last_hide: AtomicU64::new(NEVER_HIDDEN) }
    }

    /// Stores `now`, whatever was stored before, with release ordering.
    pub fn record_hide(&self, now: u64) {
        self.last_hide.store(now, Ordering::Release);
    }

    /// Reads the register with acquire ordering.
    pub fn snapshot(&self) -> (stored: u64) {
        self.last_hide.load(Ordering::Acquire)
    }

    /// The time elapsed at `now` since the hide that the register holds at
    /// the moment of the call.
    pub fn elapsed_since(&self, now: u64) -> (r: Option<u64>)
        ensures
            exists|stored: u64| r == elapsed_between(stored, now),
    {
        let stored = self.snapshot();
        elapsed(stored, now)
    }
}

} // verus!
