//! The monotonic timer, which counts on real-time counter 0.

use crate::drivers::api::osc::{OscAction, OscillatorDriver};
use crate::drivers::api::{DriverStateHolder, StatelessDriver};
use crate::drivers::osc_model::OscRequest;
use crate::drivers::osc_nrf::{
    arbiter_of,
    NrfOscDriverState,
    NrfSleepOscToken,
    NrfSleepOscillatorDriver,
};
use crate::drivers::resources_nrf::{NrfResources, RegisterBlocks};
use crate::{Initialized, WithDependency};
use vstd::prelude::*;

verus! {

/// The driver of the monotonic timer. The counter runs off the
/// low-frequency oscillator, which the driver requests for as long as the
/// holder of its token keeps it.
pub struct NrfRticMonoDriver(StatelessDriver);

impl<B: RegisterBlocks> WithDependency<NrfResources<B>, B::Rtc0> for NrfRticMonoDriver {
    open spec fn available(registry: NrfResources<B>) -> bool {
        registry.rtc0 is Some
    }

    open spec fn dependency(registry: NrfResources<B>) -> B::Rtc0 {
        registry.rtc0->0
    }

    open spec fn remaining(registry: NrfResources<B>) -> NrfResources<B> {
        NrfResources { rtc0: None, ..registry }
    }

    proof fn lemma_claimed_once(registry: NrfResources<B>) {
    }

    fn with_dependency<Output, F: FnOnce(B::Rtc0) -> Output>(
        registry: &mut NrfResources<B>,
        f: F,
    ) -> (output: Output) {
        f(registry.rtc0.take().unwrap())
    }
}

impl NrfRticMonoDriver {
    /// Whether the driver has been brought up.
    pub closed spec fn initialized(&self) -> bool {
        self.0.initialized()
    }

    /// A driver that has not been brought up.
    pub fn new() -> (driver: NrfRticMonoDriver)
        ensures
            !driver.initialized(),
    {
        NrfRticMonoDriver(StatelessDriver::new())
    }

    /// Brings the driver up: requests the low-frequency oscillator from the
    /// arbiter, which has to be there, and runs `start` on what is to be
    /// done to the oscillator and on the counter, which leaves the
    /// registry. Hands out the token of the request.
    pub fn init<B: RegisterBlocks, F: FnOnce(OscAction, B::Rtc0)>(
        &mut self,
        resources: &mut NrfResources<B>,
        osc: &mut DriverStateHolder<NrfOscDriverState>,
        start: F,
    ) -> (token: NrfSleepOscToken)
        requires
            old(resources).rtc0 is Some,
            old(osc)@ is Some,
            arbiter_of(*old(osc)).admits(OscRequest::RequestLf),
            start.requires(
                (arbiter_of(*old(osc)).action(OscRequest::RequestLf), old(resources).rtc0->0),
            ),
        ensures
            final(self).initialized(),
            *final(resources) == (NrfResources { rtc0: None, ..*old(resources) }),
            final(osc)@ is Some,
            arbiter_of(*final(osc)) == arbiter_of(*old(osc)).step(OscRequest::RequestLf),
            start.ensures(
                (arbiter_of(*old(osc)).action(OscRequest::RequestLf), old(resources).rtc0->0),
                (),
            ),
    {
        self.0.ensure_is_initialized();
        let (token, action) = NrfSleepOscillatorDriver::request(osc).unwrap();
        let run = move |rtc0: B::Rtc0|
            requires
                start.requires((action, rtc0)),
            ensures
                start.ensures((action, rtc0), ()),
        {
            start(action, rtc0)
        };
        <NrfRticMonoDriver as WithDependency<NrfResources<B>, B::Rtc0>>::with_dependency(
            resources,
            run,
        );
        token
    }

    pub fn is_initialized(&self) -> (initialized: bool)
        ensures
            initialized == self.initialized(),
    {
        self.0.is_initialized()
    }
}

} // verus!
