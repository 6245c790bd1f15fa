//! Resource framework of a sensor gateway firmware: lazily initialised
//! singleton cells, reference-counted resource tokens and the arbiter that
//! switches the two clock oscillators on behalf of their clients.
//!
//! Every driver state lives in a value that its owner passes on explicitly;
//! nothing in this crate is global. The hardware itself is programmed by the
//! caller: the library hands the register block to a closure of the caller
//! where a driver is brought up, and says which action is due where an
//! oscillator is requested or released.

use vstd::prelude::*;

pub mod drivers;
pub mod singleton;
pub mod subsys;
pub mod token;

verus! {

/// Something that is brought up once before it is used.
pub trait Initialized: Sized {
    /// Whether the value has been brought up.
    spec fn initialized(&self) -> bool;

    /// Brings the value up. Doing so twice is a wiring mistake.
    fn init(&mut self)
        requires
            !old(self).initialized(),
        ensures
            final(self).initialized(),
    ;

    /// Whether the value has been brought up.
    fn is_initialized(&self) -> (initialized: bool)
        ensures
            initialized == self.initialized(),
    ;

    /// Brings the value up as `init` does unless that has been done
    /// already: then the value stays as it is.
    fn ensure_is_initialized(&mut self)
        ensures
            final(self).initialized(),
            old(self).initialized() ==> *final(self) == *old(self),
            !old(self).initialized() ==> exists|this: &mut Self|
                *this == *old(self) && *final(this) == *final(self) && call_ensures(
                    Self::init,
                    (this,),
                    (),
                ),
    {
        if !self.is_initialized() {
            self.init();
        }
    }
}

/// A claim on one entry of a registry: the entry is moved out and handed to
/// the claimant, and is gone from the registry afterwards.
pub trait WithDependency<Registry, Dependency> {
    /// Whether the entry is still in the registry.
    spec fn available(registry: Registry) -> bool;

    /// The entry that the claim moves out.
    spec fn dependency(registry: Registry) -> Dependency;

    /// The registry without the entry.
    spec fn remaining(registry: Registry) -> Registry;

    /// An entry can be claimed once only.
    proof fn lemma_claimed_once(registry: Registry)
        requires
            Self::available(registry),
        ensures
            !Self::available(Self::remaining(registry)),
    ;

    /// Moves the entry out of the registry and runs `f` on it.
    fn with_dependency<Output, F: FnOnce(Dependency) -> Output>(
        registry: &mut Registry,
        f: F,
    ) -> (output: Output)
        requires
            Self::available(*old(registry)),
            f.requires((Self::dependency(*old(registry)),)),
        ensures
            *final(registry) == Self::remaining(*old(registry)),
            f.ensures((Self::dependency(*old(registry)),), output),
    ;
}

} // verus!
