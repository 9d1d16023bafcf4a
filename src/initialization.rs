//! One-shot initialization guard.

use vstd::prelude::*;

verus! {

/// Why an initialization was refused.
#[derive(Clone, Copy, Debug, PartialEq, Eq, Structural)]
pub enum InitializationError {
    /// The guarded contract was already initialized.
    AlreadyInitialized,
}

/// Signal that an initialization completed.
#[derive(Clone, Copy, Debug, PartialEq, Eq, Structural)]
pub struct Initialized {}

/// A flag that goes from `false` to `true` once and is never reset.
#[derive(Clone, Copy, Debug, PartialEq, Eq, Structural)]
pub struct Initialization {
    pub is_init: bool,
}

impl Initialization {
    /// A guard that has not been used.
    pub fn new() -> (r: Initialization)
        ensures
            !r.is_init,
    {
        Initialization { is_init: false }
    }

    /// Fails when the flag is already set; changes nothing either way.
    pub fn _check_init(&mut self) -> (r: Result<(), InitializationError>)
        ensures
            *final(self) == *old(self),
            r is Err <==> old(self).is_init,
            r is Err ==> r == Err::<(), InitializationError>(InitializationError::AlreadyInitialized),
    {
        if self.is_init {
            return Err(InitializationError::AlreadyInitialized);
        }
        Ok(())
    }

    /// Sets the flag and hands back the signal to emit.
    pub fn _set_init(&mut self, value: bool) -> (r: Initialized)
        ensures
            final(self).is_init == value,
    {
        self.is_init = value;
        Initialized {}
    }
}

} // verus!
