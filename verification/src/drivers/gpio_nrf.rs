//! General purpose pins of the nRF52840.

use crate::drivers::api::gpio::{GpioDriver, GpioOutputPin};
use crate::drivers::api::DriverStateHolder;
use crate::drivers::resources_nrf::{NrfResources, RegisterBlocks};
use crate::WithDependency;
use vstd::prelude::*;

verus! {

/// State of the driver: the pins in use, made from the port that the driver
/// owns.
pub struct NrfGpioState<Pin> {
    pub led: Pin,
}

impl<Pin> NrfGpioState<Pin> {
    /// The output pin of that name.
    pub fn output_pin(&self, name: GpioOutputPin) -> (pin: &Pin)
        ensures
            *pin == self.led,
    {
        match name {
            GpioOutputPin::LED => &self.led,
        }
    }
}

impl<B: RegisterBlocks, Pin> WithDependency<NrfResources<B>, B::P0> for NrfGpioState<Pin> {
    open spec fn available(registry: NrfResources<B>) -> bool {
        registry.p0 is Some
    }

    open spec fn dependency(registry: NrfResources<B>) -> B::P0 {
        registry.p0->0
    }

    open spec fn remaining(registry: NrfResources<B>) -> NrfResources<B> {
        NrfResources { p0: None, ..registry }
    }

    proof fn lemma_claimed_once(registry: NrfResources<B>) {
    }

    fn with_dependency<Output, F: FnOnce(B::P0) -> Output>(
        registry: &mut NrfResources<B>,
        f: F,
    ) -> (output: Output) {
        f(registry.p0.take().unwrap())
    }
}

impl<Pin> GpioDriver for DriverStateHolder<NrfGpioState<Pin>> {
    type Pin = Pin;

    open spec fn ready(&self) -> bool {
        self@ is Some
    }

    open spec fn pin(&self, name: GpioOutputPin) -> Pin {
        self@->0.led
    }

    fn with_output_pin<F: FnOnce(&Pin)>(&self, name: GpioOutputPin, f: F) {
        let run = |state: &NrfGpioState<Pin>|
            requires
                f.requires((&state.led,)),
            ensures
                f.ensures((&state.led,), ()),
        {
            f(state.output_pin(name))
        };
        self.with_ref(run)
    }

    fn with_output_pin_mut<F: FnOnce(&mut Pin)>(&mut self, name: GpioOutputPin, f: F) {
        let run = |state: NrfGpioState<Pin>| -> (out: (NrfGpioState<Pin>, ()))
            requires
                forall|pin: &mut Pin| *pin == state.led ==> f.requires((pin,)),
            ensures
                exists|pin: &mut Pin| *pin == state.led && *final(pin) == out.0.led && f.ensures(
                    (pin,),
                    (),
                ),
        {
            let mut led = match name {
                GpioOutputPin::LED => state.led,
            };
            f(&mut led);
            (NrfGpioState { led }, ())
        };
        self.with(run)
    }
}

/// The driver of the pins.
pub struct NrfGpioDriver;

impl NrfGpioDriver {
    pub fn new() -> NrfGpioDriver {
        NrfGpioDriver
    }

    /// Brings the driver up: `configure` makes the LED's pin from the port,
    /// which leaves the registry, and the state of the driver is built
    /// around it.
    pub fn init<B: RegisterBlocks, Pin, F: FnOnce(B::P0) -> Pin>(
        holder: &mut DriverStateHolder<NrfGpioState<Pin>>,
        resources: &mut NrfResources<B>,
        configure: F,
    )
        requires
            old(holder)@ is None,
            old(resources).p0 is Some,
            configure.requires((old(resources).p0->0,)),
        ensures
            final(holder)@ is Some,
            configure.ensures((old(resources).p0->0,), final(holder)@->0.led),
            *final(resources) == (NrfResources { p0: None, ..*old(resources) }),
    {
        let construct = move |resources: &mut NrfResources<B>| -> (state: NrfGpioState<Pin>)
            requires
                old(resources).p0 is Some,
                configure.requires((old(resources).p0->0,)),
            ensures
                configure.ensures((old(resources).p0->0,), state.led),
                *final(resources) == (NrfResources { p0: None, ..*old(resources) }),
        {
            let wrap = move |port: B::P0| -> (state: NrfGpioState<Pin>)
                requires
                    configure.requires((port,)),
                ensures
                    configure.ensures((port,), state.led),
            {
                NrfGpioState { led: configure(port) }
            };
            <NrfGpioState<Pin> as WithDependency<NrfResources<B>, B::P0>>::with_dependency(
                resources,
                wrap,
            )
        };
        holder.init_once(resources, construct);
    }

    pub fn is_initialized<Pin>(holder: &DriverStateHolder<NrfGpioState<Pin>>) -> (initialized: bool)
        ensures
            initialized == (holder@ is Some),
    {
        holder.is_initialized()
    }
}

} // verus!
