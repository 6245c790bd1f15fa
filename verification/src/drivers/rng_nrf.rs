//! The random number generator of the nRF52840.

use crate::drivers::api::DriverStateHolder;
use crate::drivers::resources_nrf::{NrfResources, RegisterBlocks};
use crate::WithDependency;
use vstd::prelude::*;

verus! {

/// State of the driver: the generator, made from the register block that
/// the driver owns.
pub struct NrfRngState<Rng> {
    pub rng: Rng,
}

impl<B: RegisterBlocks, Rng> WithDependency<NrfResources<B>, B::Rng> for NrfRngState<Rng> {
    open spec fn available(registry: NrfResources<B>) -> bool {
        registry.rng is Some
    }

    open spec fn dependency(registry: NrfResources<B>) -> B::Rng {
        registry.rng->0
    }

    open spec fn remaining(registry: NrfResources<B>) -> NrfResources<B> {
        NrfResources { rng: None, ..registry }
    }

    proof fn lemma_claimed_once(registry: NrfResources<B>) {
    }

    fn with_dependency<Output, F: FnOnce(B::Rng) -> Output>(
        registry: &mut NrfResources<B>,
        f: F,
    ) -> (output: Output) {
        f(registry.rng.take().unwrap())
    }
}

/// The driver of the random number generator.
pub struct NrfRngDriver;

impl NrfRngDriver {
    pub fn new() -> NrfRngDriver {
        NrfRngDriver
    }

    /// Brings the driver up: `enable` makes the generator from the register
    /// block, which leaves the registry, and the state of the driver is
    /// built around it.
    pub fn init<B: RegisterBlocks, Rng, F: FnOnce(B::Rng) -> Rng>(
        holder: &mut DriverStateHolder<NrfRngState<Rng>>,
        resources: &mut NrfResources<B>,
        enable: F,
    )
        requires
            old(holder)@ is None,
            old(resources).rng is Some,
            enable.requires((old(resources).rng->0,)),
        ensures
            final(holder)@ is Some,
            enable.ensures((old(resources).rng->0,), final(holder)@->0.rng),
            *final(resources) == (NrfResources { rng: None, ..*old(resources) }),
    {
        let construct = move |resources: &mut NrfResources<B>| -> (state: NrfRngState<Rng>)
            requires
                old(resources).rng is Some,
                enable.requires((old(resources).rng->0,)),
            ensures
                enable.ensures((old(resources).rng->0,), state.rng),
                *final(resources) == (NrfResources { rng: None, ..*old(resources) }),
        {
            let wrap = move |block: B::Rng| -> (state: NrfRngState<Rng>)
                requires
                    enable.requires((block,)),
                ensures
                    enable.ensures((block,), state.rng),
            {
                NrfRngState { rng: enable(block) }
            };
            <NrfRngState<Rng> as WithDependency<NrfResources<B>, B::Rng>>::with_dependency(
                resources,
                wrap,
            )
        };
        holder.init_once(resources, construct);
    }

    pub fn is_initialized<Rng>(holder: &DriverStateHolder<NrfRngState<Rng>>) -> (initialized: bool)
        ensures
            initialized == (holder@ is Some),
    {
        holder.is_initialized()
    }
}

} // verus!
