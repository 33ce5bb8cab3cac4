//! Setting the engine's platform up, once for the whole process.

use vstd::prelude::*;

verus! {

/// Whether the engine's platform has been set up in this process. The
/// process keeps one value of this type and hands it to `initialize`.
pub struct Platform {
    initialized: bool,
}

impl Platform {
    /// Whether the platform has been set up.
    pub closed spec fn is_initialized(&self) -> bool {
        self.initialized
    }

    /// The state of a process that has not set the platform up.
    pub fn new() -> (platform: Self)
        ensures
            !platform.is_initialized(),
    {
        Platform { initialized: false }
    }

    /// Whether the platform has been set up.
    pub fn initialized(&self) -> (initialized: bool)
        ensures
            initialized == self.is_initialized(),
    {
        self.initialized
    }
}

/// Guards the set-up of the platform so that it happens once. Returns `true`
/// on the first call for a platform: the caller then has to set the engine's
/// platform and runtime up. Every later call returns `false`, and the engine
/// is not to be set up again. Either way the platform counts as set up from
/// then on.
pub fn initialize(platform: &mut Platform) -> (first: bool)
    ensures
        final(platform).is_initialized(),
        first == !old(platform).is_initialized(),
{
    let first = !platform.initialized;
    platform.initialized = true;
    first
}

} // verus!
