//! Drivers built on the resource framework, and their bring-up.

use crate::drivers::api::osc::OscAction;
use crate::drivers::api::DriverStateHolder;
use crate::drivers::gpio_nrf::{NrfGpioDriver, NrfGpioState};
use crate::drivers::mono_nrf_rtic::NrfRticMonoDriver;
use crate::drivers::osc_model::OscModel;
use crate::drivers::osc_nrf::{arbiter_of, NrfOscDriverState, NrfOscState, NrfSleepOscToken};
use crate::drivers::power_nrf::NrfPowerDriver;
use crate::drivers::resources_nrf::{NrfResources, RegisterBlocks};
use crate::drivers::rng_nrf::{NrfRngDriver, NrfRngState};
use crate::drivers::usb_nrf::{NrfUsbDriver, NrfUsbState};
use crate::singleton::SingletonHolderImpl;
use vstd::prelude::*;

pub mod api;
pub mod gpio_nrf;
pub mod mono_nrf_rtic;
pub mod osc_model;
pub mod osc_nrf;
pub mod power_nrf;
pub mod resources_nrf;
pub mod rng_nrf;
pub mod usb_nrf;

verus! {

/// The drivers of the gateway, brought up.
pub struct Drivers<Rng, Pin, Bus> {
    /// The arbiter of the oscillators.
    pub osc: DriverStateHolder<NrfOscDriverState>,
    pub rng: DriverStateHolder<NrfRngState<Rng>>,
    pub mono: NrfRticMonoDriver,
    /// The claim of the monotonic timer on the low-frequency oscillator.
    pub sleep_osc: NrfSleepOscToken,
    pub gpio: DriverStateHolder<NrfGpioState<Pin>>,
    pub usb: DriverStateHolder<NrfUsbState<Bus>>,
}

/// Instantiates the drivers, which take ownership of the register blocks:
/// each block goes to one driver.
///
/// The hardware is programmed by the closures, each on the block of its
/// driver and in this order: `enable_dcdc`, `configure_clock`, `enable_rng`,
/// `start_mono`, `configure_led`, `attach_usb`. The monotonic timer and USB
/// request an oscillator each before their closure runs, and the closure is
/// told to start it. In the end both oscillators are in use by one client
/// each.
pub fn init<
    B: RegisterBlocks,
    Rng,
    Pin,
    Bus,
    EnableDcdc: FnOnce(B::Power),
    ConfigureClock: FnOnce(B::Clock),
    EnableRng: FnOnce(B::Rng) -> Rng,
    StartMono: FnOnce(OscAction, B::Rtc0),
    ConfigureLed: FnOnce(B::P0) -> Pin,
    AttachUsb: FnOnce(OscAction, B::Usbd) -> Bus,
>(
    resources: NrfResources<B>,
    enable_dcdc: EnableDcdc,
    configure_clock: ConfigureClock,
    enable_rng: EnableRng,
    start_mono: StartMono,
    configure_led: ConfigureLed,
    attach_usb: AttachUsb,
) -> (drivers: Drivers<Rng, Pin, Bus>)
    requires
        resources.unclaimed() == 6,
        enable_dcdc.requires((resources.power->0,)),
        configure_clock.requires((resources.clock->0,)),
        enable_rng.requires((resources.rng->0,)),
        start_mono.requires((OscAction::Start, resources.rtc0->0)),
        configure_led.requires((resources.p0->0,)),
        attach_usb.requires((OscAction::Start, resources.usbd->0)),
    ensures
        enable_dcdc.ensures((resources.power->0,), ()),
        configure_clock.ensures((resources.clock->0,), ()),
        drivers.rng@ is Some && enable_rng.ensures((resources.rng->0,), drivers.rng@->0.rng),
        start_mono.ensures((OscAction::Start, resources.rtc0->0), ()),
        drivers.gpio@ is Some && configure_led.ensures((resources.p0->0,), drivers.gpio@->0.led),
        drivers.usb@ is Some && attach_usb.ensures(
            (OscAction::Start, resources.usbd->0),
            drivers.usb@->0.bus,
        ),
        drivers.mono.initialized(),
        drivers.osc@ is Some,
        arbiter_of(drivers.osc) == (OscModel {
            state: NrfOscState::OnOn,
            lf_tokens: 1,
            hf_tokens: 1,
        }),
{
    let mut resources = resources;

    let mut power = NrfPowerDriver::new();
    power.init(&mut resources, enable_dcdc);

    let mut osc: DriverStateHolder<NrfOscDriverState> = SingletonHolderImpl::new();
    let configured = crate::drivers::osc_nrf::init(&mut osc, &mut resources, configure_clock);
    assert(configured is Ok);

    let mut rng: DriverStateHolder<NrfRngState<Rng>> = SingletonHolderImpl::new();
    NrfRngDriver::init(&mut rng, &mut resources, enable_rng);

    let mut mono = NrfRticMonoDriver::new();
    let sleep_osc = mono.init(&mut resources, &mut osc, start_mono);

    let mut gpio: DriverStateHolder<NrfGpioState<Pin>> = SingletonHolderImpl::new();
    NrfGpioDriver::init(&mut gpio, &mut resources, configure_led);

    let mut usb: DriverStateHolder<NrfUsbState<Bus>> = SingletonHolderImpl::new();
    NrfUsbDriver::init(&mut usb, &mut resources, &mut osc, attach_usb);
    assert(resources.unclaimed() == 0);

    Drivers { osc, rng, mono, sleep_osc, gpio, usb }
}

} // verus!
