//! The access-decision cache (ADC) lifecycle.
//!
//! The cache is process-wide singleton state with two logical states,
//! `Uninitialized` and `Open`. This module keeps the lifecycle decisions in
//! one verified place: each operation first asks the state machine whether
//! the matching native call may be made, and reports the native status back
//! where the state depends on it. The driver performing the native calls must
//! follow that discipline; the contracts below then guarantee that a second
//! `open` without an intervening `destroy` is refused before any native call
//! (so the already open cache is never leaked), and that `reset` outside the
//! `Open` state is a deterministic, defined failure.

use crate::error::Error;
use vstd::prelude::*;

verus! {

/// The two logical states of the access-decision cache.
#[derive(Debug, Clone, Copy, PartialEq, Eq, Structural)]
pub enum AvcState {
    /// No cache exists; `open` must succeed before any other operation.
    Uninitialized,
    /// The cache is initialized and may serve decisions.
    Open,
}

/// The access-decision cache lifecycle, tracked explicitly so that
/// independent instances can be created and torn down without shared global
/// state. The tracker is deliberately not copyable: a duplicate could admit
/// a second native initialization while a cache is already open.
#[derive(Debug)]
pub struct Avc {
    state: AvcState,
}

impl Avc {
    /// The current lifecycle state.
    pub closed spec fn state(&self) -> AvcState {
        self.state
    }

    /// A fresh, uninitialized cache lifecycle.
    pub fn new() -> (r: Avc)
        ensures
            r.state() == AvcState::Uninitialized,
    {
        Avc { state: AvcState::Uninitialized }
    }

    /// Whether the cache is currently open.
    pub fn is_open(&self) -> (r: bool)
        ensures
            r == (self.state() == AvcState::Open),
    {
        self.state == AvcState::Open
    }

    /// Asks to open the cache with the given enforcing-mode flag. Returns the
    /// flag to hand to the native initialization call when the request is
    /// admissible; refuses when the cache is already open, so that the open
    /// cache's memory is never orphaned by a second initialization.
    pub fn open(&self, enforcing: bool) -> (r: Result<bool, Error>)
        ensures
            r == (if self.state() == AvcState::Uninitialized {
                Ok::<bool, Error>(enforcing)
            } else {
                Err::<bool, Error>(Error::GenericFailure)
            }),
    {
        if self.state == AvcState::Uninitialized {
            Ok(enforcing)
        } else {
            Err(Error::GenericFailure)
        }
    }

    /// Records the status of the native initialization call: on success the
    /// cache is open; on failure it stays uninitialized. A completion that
    /// arrives while the cache is already open is refused unchanged.
    pub fn open_done(&mut self, status: i32) -> (r: Result<(), Error>)
        ensures
            old(self).state() == AvcState::Open ==> final(self).state() == AvcState::Open
                && r == Err::<(), Error>(Error::GenericFailure),
            old(self).state() == AvcState::Uninitialized && status == 0 ==> final(self).state()
                == AvcState::Open && r == Ok::<(), Error>(()),
            old(self).state() == AvcState::Uninitialized && status != 0 ==> final(self).state()
                == AvcState::Uninitialized && r == Err::<(), Error>(Error::GenericFailure),
    {
        if self.state == AvcState::Open {
            Err(Error::GenericFailure)
        } else if status == 0 {
            self.state = AvcState::Open;
            Ok(())
        } else {
            Err(Error::GenericFailure)
        }
    }

    /// Releases the cache. Returns whether the native teardown call must now
    /// be made: true exactly when a cache was open. After this, the state is
    /// always `Uninitialized`, and `open` must succeed again before further
    /// cache operations.
    pub fn destroy(&mut self) -> (r: bool)
        ensures
            final(self).state() == AvcState::Uninitialized,
            r == (old(self).state() == AvcState::Open),
    {
        let was_open = self.state == AvcState::Open;
        self.state = AvcState::Uninitialized;
        was_open
    }

    /// Asks to flush cached decisions. Valid only while open; outside the
    /// `Open` state the request is a deterministic, defined failure and no
    /// native call may be made. The flush leaves the lifecycle state
    /// unchanged; the status of the native flush call itself carries no finer
    /// diagnostic and is mapped by `crate::error::handle_error`.
    pub fn reset(&self) -> (r: Result<(), Error>)
        ensures
            r == (if self.state() == AvcState::Open {
                Ok::<(), Error>(())
            } else {
                Err::<(), Error>(Error::GenericFailure)
            }),
    {
        if self.state == AvcState::Open {
            Ok(())
        } else {
            Err(Error::GenericFailure)
        }
    }

    /// Asks for a best-effort memory trim. Returns whether the native trim
    /// call may be made: only while open. Outside the `Open` state the trim
    /// is a defined no-op, never a failure, since it is never required for
    /// correctness.
    pub fn cleanup(&self) -> (r: bool)
        ensures
            r == (self.state() == AvcState::Open),
    {
        self.state == AvcState::Open
    }
}

} // verus!
