//! The native-handle guard: one handle, checked access, one-way invalidation.

use vstd::prelude::*;

use crate::error::Error;

verus! {

/// The two states a guard can be in.  A guard starts `Valid` around a
/// just-obtained, non-null handle token and moves to `Invalidated` exactly
/// when the handle is released back to the native layer; the transition is
/// one-way.
#[derive(Clone, Copy, Debug, PartialEq, Eq, Structural)]
pub enum GuardState {
    Valid(u64),
    Invalidated,
}

/// A lock around one native handle.  It is intentionally not a shared
/// reference count: it encodes a one-way "has this resource been released"
/// flag, because the native free functions are not safe to call twice and
/// dependent objects must detect release without owning the handle.
#[derive(Clone, Copy, Debug, PartialEq, Eq, Structural)]
pub struct Guard {
    pub state: GuardState,
}

impl Guard {
    /// Whether the guarded handle may still be used.
    pub open spec fn is_valid(&self) -> bool {
        self.state is Valid
    }

    /// The handle token, meaningful only while the guard is valid.
    pub open spec fn spec_handle(&self) -> u64 {
        self.state->Valid_0
    }

    /// A valid guard always wraps a non-null handle token.
    pub open spec fn wf(&self) -> bool {
        self.is_valid() ==> self.spec_handle() != 0
    }

    /// What `checked_access` returns: the handle while valid, `InvalidHandle`
    /// forever after invalidation.
    pub open spec fn access_of(&self) -> Result<u64, Error> {
        if self.is_valid() {
            Ok(self.spec_handle())
        } else {
            Err(Error::InvalidHandle)
        }
    }

    /// The state a guard is left in by `invalidate`, whatever it held before.
    pub open spec fn spec_invalidated() -> Guard {
        Guard { state: GuardState::Invalidated }
    }

    /// Wraps a just-obtained, non-null native handle token as `Valid`.
    pub fn new(handle: u64) -> (g: Guard)
        requires
            handle != 0,
        ensures
            g.is_valid(),
            g.spec_handle() == handle,
            g.wf(),
    {
        Guard { state: GuardState::Valid(handle) }
    }

    /// Returns the handle if the guard is still valid and `InvalidHandle`
    /// otherwise: purely a state check, it never dereferences anything.
    pub fn checked_access(&self) -> (r: Result<u64, Error>)
        ensures
            r == self.access_of(),
    {
        match self.state {
            GuardState::Valid(handle) => Ok(handle),
            GuardState::Invalidated => Err(Error::InvalidHandle),
        }
    }

    /// Transitions to `Invalidated` unconditionally.  Idempotent: a second
    /// call is safe and changes nothing.
    pub fn invalidate(&mut self)
        ensures
            *final(self) == Guard::spec_invalidated(),
            !final(self).is_valid(),
            final(self).wf(),
    {
        self.state = GuardState::Invalidated;
    }
}

/// Once a guard has been invalidated, every checked access yields
/// `InvalidHandle`, no matter how often `invalidate` ran before or runs
/// afterwards: `invalidate` always leaves the one `Invalidated` state, and an
/// invalid guard's access is pinned to the error.
pub proof fn lemma_invalidated_access_always_fails(g: Guard)
    requires
        !g.is_valid(),
    ensures
        g.access_of() == Err::<u64, Error>(Error::InvalidHandle),
        Guard::spec_invalidated().access_of() == Err::<u64, Error>(Error::InvalidHandle),
{
}

/// Invalidation is idempotent: invalidating an already-invalidated guard
/// leaves it in the same state.
pub proof fn lemma_invalidate_idempotent(g: Guard)
    requires
        g == Guard::spec_invalidated(),
    ensures
        !g.is_valid(),
        g.access_of() == Err::<u64, Error>(Error::InvalidHandle),
{
}

} // verus!
