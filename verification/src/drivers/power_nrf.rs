//! Power management of the nRF52840.

use crate::drivers::api::StatelessDriver;
use crate::drivers::resources_nrf::{NrfResources, RegisterBlocks};
use crate::{Initialized, WithDependency};
use vstd::prelude::*;

verus! {

/// The driver of the power management block. It keeps no state: bringing it
/// up comes to switching the DC/DC converter on.
pub struct NrfPowerDriver(StatelessDriver);

impl<B: RegisterBlocks> WithDependency<NrfResources<B>, B::Power> for NrfPowerDriver {
    open spec fn available(registry: NrfResources<B>) -> bool {
        registry.power is Some
    }

    open spec fn dependency(registry: NrfResources<B>) -> B::Power {
        registry.power->0
    }

    open spec fn remaining(registry: NrfResources<B>) -> NrfResources<B> {
        NrfResources { power: None, ..registry }
    }

    proof fn lemma_claimed_once(registry: NrfResources<B>) {
    }

    fn with_dependency<Output, F: FnOnce(B::Power) -> Output>(
        registry: &mut NrfResources<B>,
        f: F,
    ) -> (output: Output) {
        f(registry.power.take().unwrap())
    }
}

impl NrfPowerDriver {
    /// Whether the driver has been brought up.
    pub closed spec fn initialized(&self) -> bool {
        self.0.initialized()
    }

    /// A driver that has not been brought up.
    pub fn new() -> (driver: NrfPowerDriver)
        ensures
            !driver.initialized(),
    {
        NrfPowerDriver(StatelessDriver::new())
    }

    /// Brings the driver up and runs `enable_dcdc`, which is to switch the
    /// DC/DC converter on, on the register block. The block leaves the
    /// registry.
    pub fn init<B: RegisterBlocks, F: FnOnce(B::Power)>(
        &mut self,
        resources: &mut NrfResources<B>,
        enable_dcdc: F,
    )
        requires
            old(resources).power is Some,
            enable_dcdc.requires((old(resources).power->0,)),
        ensures
            final(self).initialized(),
            *final(resources) == (NrfResources { power: None, ..*old(resources) }),
            enable_dcdc.ensures((old(resources).power->0,), ()),
    {
        self.0.ensure_is_initialized();
        <NrfPowerDriver as WithDependency<NrfResources<B>, B::Power>>::with_dependency(
            resources,
            enable_dcdc,
        );
    }

    pub fn is_initialized(&self) -> (initialized: bool)
        ensures
            initialized == self.initialized(),
    {
        self.0.is_initialized()
    }
}

} // verus!
