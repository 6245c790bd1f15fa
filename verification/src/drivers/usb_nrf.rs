//! The USB device controller of the nRF52840.

use crate::drivers::api::osc::{OscAction, OscillatorDriver};
use crate::drivers::api::usb::UsbDriver;
use crate::drivers::api::DriverStateHolder;
use crate::drivers::osc_model::OscRequest;
use crate::drivers::osc_nrf::{
    arbiter_of,
    NrfHighAccOscToken,
    NrfHighAccOscillatorDriver,
    NrfOscDriverState,
};
use crate::drivers::resources_nrf::{NrfResources, RegisterBlocks};
use crate::WithDependency;
use vstd::prelude::*;

verus! {

/// State of the driver: the bus, made from the controller that the driver
/// owns, and the driver's claim on the high-accuracy oscillator, which USB
/// cannot do without.
pub struct NrfUsbState<Bus> {
    pub bus: Bus,
    pub clocks: NrfHighAccOscToken,
}

impl<B: RegisterBlocks, Bus> WithDependency<NrfResources<B>, B::Usbd> for NrfUsbState<Bus> {
    open spec fn available(registry: NrfResources<B>) -> bool {
        registry.usbd is Some
    }

    open spec fn dependency(registry: NrfResources<B>) -> B::Usbd {
        registry.usbd->0
    }

    open spec fn remaining(registry: NrfResources<B>) -> NrfResources<B> {
        NrfResources { usbd: None, ..registry }
    }

    proof fn lemma_claimed_once(registry: NrfResources<B>) {
    }

    fn with_dependency<Output, F: FnOnce(B::Usbd) -> Output>(
        registry: &mut NrfResources<B>,
        f: F,
    ) -> (output: Output) {
        f(registry.usbd.take().unwrap())
    }
}

impl<B: 'static> UsbDriver<B> for DriverStateHolder<NrfUsbState<&'static B>> {
    open spec fn attached(&self) -> bool {
        self@ is Some
    }

    open spec fn attached_bus(&self) -> &'static B {
        self@->0.bus
    }

    fn bus(&self) -> (bus: &'static B) {
        let read = |state: &NrfUsbState<&'static B>| -> (bus: &'static B)
            ensures
                bus == state.bus,
        {
            state.bus
        };
        self.with_ref(read)
    }
}

/// The driver of the USB device controller.
pub struct NrfUsbDriver;

impl NrfUsbDriver {
    pub fn new() -> NrfUsbDriver {
        NrfUsbDriver
    }

    /// Brings the driver up: requests the high-accuracy oscillator from the
    /// arbiter, which has to be there; `attach` then makes the bus
    /// from what is to be done to the oscillator and from the controller,
    /// which leaves the registry, and the state of the driver is built
    /// around the bus and the token of the request.
    pub fn init<B: RegisterBlocks, Bus, F: FnOnce(OscAction, B::Usbd) -> Bus>(
        holder: &mut DriverStateHolder<NrfUsbState<Bus>>,
        resources: &mut NrfResources<B>,
        osc: &mut DriverStateHolder<NrfOscDriverState>,
        attach: F,
    )
        requires
            old(holder)@ is None,
            old(resources).usbd is Some,
            old(osc)@ is Some,
            arbiter_of(*old(osc)).admits(OscRequest::RequestHf),
            attach.requires(
                (arbiter_of(*old(osc)).action(OscRequest::RequestHf), old(resources).usbd->0),
            ),
        ensures
            final(holder)@ is Some,
            attach.ensures(
                (arbiter_of(*old(osc)).action(OscRequest::RequestHf), old(resources).usbd->0),
                final(holder)@->0.bus,
            ),
            *final(resources) == (NrfResources { usbd: None, ..*old(resources) }),
            final(osc)@ is Some,
            arbiter_of(*final(osc)) == arbiter_of(*old(osc)).step(OscRequest::RequestHf),
    {
        let (clocks, action) = NrfHighAccOscillatorDriver::request(osc).unwrap();
        let construct = move |resources: &mut NrfResources<B>| -> (state: NrfUsbState<Bus>)
            requires
                old(resources).usbd is Some,
                attach.requires((action, old(resources).usbd->0)),
            ensures
                attach.ensures((action, old(resources).usbd->0), state.bus),
                *final(resources) == (NrfResources { usbd: None, ..*old(resources) }),
        {
            let wrap = move |usbd: B::Usbd| -> (state: NrfUsbState<Bus>)
                requires
                    attach.requires((action, usbd)),
                ensures
                    attach.ensures((action, usbd), state.bus),
            {
                NrfUsbState { bus: attach(action, usbd), clocks }
            };
            <NrfUsbState<Bus> as WithDependency<NrfResources<B>, B::Usbd>>::with_dependency(
                resources,
                wrap,
            )
        };
        holder.init_once(resources, construct);
    }

    pub fn is_initialized<Bus>(holder: &DriverStateHolder<NrfUsbState<Bus>>) -> (initialized: bool)
        ensures
            initialized == (holder@ is Some),
    {
        holder.is_initialized()
    }
}

} // verus!
