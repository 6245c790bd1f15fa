use co2_sensor::drivers::api::gpio::{GpioDriver, GpioOutputPin};
use co2_sensor::drivers::api::usb::UsbDriver;
use co2_sensor::drivers::api::osc::{
    Hertz, OscAction, Oscillator, OscillatorDriver, Oscillators, OscillatorsDriver, Ppm,
    RequestOsc,
};
use co2_sensor::drivers::api::DriverStateHolder;
use co2_sensor::drivers::gpio_nrf::{NrfGpioDriver, NrfGpioState};
use co2_sensor::drivers::mono_nrf_rtic::NrfRticMonoDriver;
use co2_sensor::drivers::osc_nrf::{
    NrfHighAccOscillatorDriver, NrfOscDriverState, NrfOscState, NrfSleepOscillatorDriver,
};
use co2_sensor::drivers::power_nrf::NrfPowerDriver;
use co2_sensor::drivers::resources_nrf::{transfer, NrfResources, RegisterBlocks};
use co2_sensor::drivers::rng_nrf::{NrfRngDriver, NrfRngState};
use co2_sensor::drivers::usb_nrf::{NrfUsbDriver, NrfUsbState};
use co2_sensor::drivers::{init, Drivers};
use co2_sensor::singleton::SingletonHolderImpl;
use co2_sensor::WithDependency;

struct Board;

impl RegisterBlocks for Board {
    type Power = &'static str;
    type Clock = &'static str;
    type Rng = &'static str;
    type P0 = &'static str;
    type Rtc0 = &'static str;
    type Usbd = &'static str;
}

fn registry() -> NrfResources<Board> {
    transfer::<Board>("POWER", "CLOCK", "RNG", "P0", "RTC0", "USBD")
}

#[test]
fn transfer_fills_one_slot_per_block() {
    let resources = registry();
    assert_eq!(resources.power, Some("POWER"));
    assert_eq!(resources.clock, Some("CLOCK"));
    assert_eq!(resources.rng, Some("RNG"));
    assert_eq!(resources.p0, Some("P0"));
    assert_eq!(resources.rtc0, Some("RTC0"));
    assert_eq!(resources.usbd, Some("USBD"));
}

#[test]
fn register_block_set_is_claimed_once() {
    let mut claimed: SingletonHolderImpl<NrfResources<Board>> = SingletonHolderImpl::new();
    assert!(!claimed.is_initialized());
    claimed.init_once((), |_| registry());
    assert!(claimed.is_initialized());

    let mut constructed_again = false;
    claimed.ensure((), |_| {
        constructed_again = true;
        registry()
    });
    assert!(!constructed_again);

    let mut mono = NrfRticMonoDriver::new();
    let mut osc: DriverStateHolder<NrfOscDriverState> = SingletonHolderImpl::new();
    let mut started = None;
    let _token = claimed.with_ref_mut(|resources| {
        co2_sensor::drivers::osc_nrf::init(&mut osc, resources, |_| ()).unwrap();
        mono.init(resources, &mut osc, |action, rtc0| {
            started = Some((action, rtc0))
        })
    });
    assert_eq!(started, Some((OscAction::Start, "RTC0")));
    assert!(mono.is_initialized());

    let left = claimed.with_ref(|resources| {
        (
            resources.rtc0.is_none(),
            resources.power.is_some(),
            resources.clock.is_none(),
            resources.rng.is_some(),
            resources.p0.is_some(),
            resources.usbd.is_some(),
        )
    });
    assert_eq!(left, (true, true, true, true, true, true));
    assert!(claimed.with_ref_mut(|resources| resources.rtc0.take()).is_none());
}

#[test]
fn a_claim_moves_its_block_out() {
    let mut resources = registry();
    let seen = <NrfPowerDriver as WithDependency<NrfResources<Board>, &'static str>>::with_dependency(
        &mut resources,
        |power| power.len(),
    );
    assert_eq!(seen, 5);
    assert!(resources.power.is_none());
    assert!(resources.clock.is_some());

    let clock = <NrfOscDriverState as WithDependency<NrfResources<Board>, &'static str>>::with_dependency(
        &mut resources,
        |clock| clock,
    );
    assert_eq!(clock, "CLOCK");
    assert!(resources.clock.is_none());

    let rng = <NrfRngState<u8> as WithDependency<NrfResources<Board>, &'static str>>::with_dependency(
        &mut resources,
        |rng| rng,
    );
    let p0 = <NrfGpioState<u8> as WithDependency<NrfResources<Board>, &'static str>>::with_dependency(
        &mut resources,
        |p0| p0,
    );
    let usbd = <NrfUsbState<u8> as WithDependency<NrfResources<Board>, &'static str>>::with_dependency(
        &mut resources,
        |usbd| usbd,
    );
    let rtc0 = <NrfRticMonoDriver as WithDependency<NrfResources<Board>, &'static str>>::with_dependency(
        &mut resources,
        |rtc0| rtc0,
    );
    assert_eq!((rng, p0, usbd, rtc0), ("RNG", "P0", "USBD", "RTC0"));
    assert!(resources.rng.is_none());
    assert!(resources.p0.is_none());
    assert!(resources.usbd.is_none());
    assert!(resources.rtc0.is_none());
}

#[test]
fn power_driver_enables_the_converter_on_its_block() {
    let mut resources = registry();
    let mut driver = NrfPowerDriver::new();
    assert!(!driver.is_initialized());
    let mut enabled_on = None;
    driver.init(&mut resources, |power| enabled_on = Some(power));
    assert_eq!(enabled_on, Some("POWER"));
    assert!(driver.is_initialized());
    assert!(resources.power.is_none());
}

#[test]
fn osc_driver_is_brought_up_once() {
    let mut resources = registry();
    let mut osc: DriverStateHolder<NrfOscDriverState> = SingletonHolderImpl::new();
    assert!(!osc.is_initialized());
    assert!(resources.clock.is_some());
    let mut configured = Vec::new();
    let first = co2_sensor::drivers::osc_nrf::init(&mut osc, &mut resources, |clock| {
        configured.push(clock)
    });
    assert!(first.is_ok());
    assert_eq!(configured, vec!["CLOCK"]);
    assert_eq!(osc.with_ref(|arbiter| arbiter.state()), NrfOscState::OffOff);

    // What a caller tests before it brings the driver up: neither holds
    // any more, so that there is no second bring-up.
    assert!(osc.is_initialized());
    assert!(resources.clock.is_none());
}

#[test]
fn an_arbiter_that_is_there_is_left_alone() {
    let mut resources = registry();
    let mut osc: DriverStateHolder<NrfOscDriverState> = SingletonHolderImpl::new();
    assert!(co2_sensor::drivers::osc_nrf::init(&mut osc, &mut resources, |_| ()).is_ok());
    let (token, _) = NrfSleepOscillatorDriver::request(&mut osc).unwrap();

    // Another register set turns up, with its clock block still in place.
    let mut again = registry();
    let mut configured = false;
    NrfSleepOscillatorDriver::init(&mut osc, &mut again, |_| configured = true);
    NrfHighAccOscillatorDriver::init(&mut osc, &mut again, |_| configured = true);
    assert!(!configured);
    assert_eq!(again.clock, Some("CLOCK"));
    assert_eq!(osc.with_ref(|arbiter| arbiter.state()), NrfOscState::OffOn);
    assert_eq!(osc.with_ref(|arbiter| arbiter.sleep_osc_tokens()), 1);
    assert_eq!(
        NrfSleepOscillatorDriver::release(&mut osc, token),
        OscAction::Stop
    );
}

#[test]
fn either_oscillator_driver_brings_the_arbiter_up() {
    let mut resources = registry();
    let mut osc: DriverStateHolder<NrfOscDriverState> = SingletonHolderImpl::new();
    let mut configured = Vec::new();
    NrfHighAccOscillatorDriver::init(&mut osc, &mut resources, |clock| configured.push(clock));
    assert_eq!(configured, vec!["CLOCK"]);
    assert!(resources.clock.is_none());
    assert_eq!(osc.with_ref(|arbiter| arbiter.state()), NrfOscState::OffOff);
    NrfSleepOscillatorDriver::init(&mut osc, &mut resources, |clock| configured.push(clock));
    assert_eq!(configured, vec!["CLOCK"]);
}

#[test]
fn the_driver_leads_to_its_oscillators() {
    let mut resources = registry();
    let mut osc: DriverStateHolder<NrfOscDriverState> = SingletonHolderImpl::new();
    let driver = co2_sensor::drivers::osc_nrf::init(&mut osc, &mut resources, |_| ()).unwrap();
    let Oscillators {
        lf_osc,
        high_acc_hf_osc,
    } = driver.oscillators();
    assert_eq!(lf_osc.freq(), Hertz(32_768));
    assert_eq!(lf_osc.freq_drift(), Ppm(50));
    assert_eq!(high_acc_hf_osc.freq(), Hertz(64_000_000));
    assert_eq!(high_acc_hf_osc.freq_drift(), Ppm(30));

    let (sleep, action) = lf_osc.request(&mut osc).unwrap();
    assert_eq!(action, OscAction::Start);
    let (_high_acc, action) = high_acc_hf_osc.request(&mut osc).unwrap();
    assert_eq!(action, OscAction::Start);
    let (_second, action) = high_acc_hf_osc.request(&mut osc).unwrap();
    assert_eq!(action, OscAction::Keep);
    assert_eq!(osc.with_ref(|arbiter| arbiter.state()), NrfOscState::OnOn);
    assert_eq!(osc.with_ref(|arbiter| arbiter.high_acc_osc_tokens()), 2);
    assert_eq!(
        NrfSleepOscillatorDriver::release(&mut osc, sleep),
        OscAction::Stop
    );
    assert_eq!(osc.with_ref(|arbiter| arbiter.state()), NrfOscState::OnOff);
}

#[test]
fn stateful_drivers_are_built_from_their_blocks() {
    let mut resources = registry();
    let mut rng: DriverStateHolder<NrfRngState<String>> = SingletonHolderImpl::new();
    let _ = NrfRngDriver::new();
    assert!(!NrfRngDriver::is_initialized(&rng));
    NrfRngDriver::init(&mut rng, &mut resources, |block| format!("generator on {}", block));
    assert!(NrfRngDriver::is_initialized(&rng));
    assert_eq!(rng.with_ref(|state| state.rng.clone()), "generator on RNG");
    assert!(resources.rng.is_none());

    let mut gpio: DriverStateHolder<NrfGpioState<String>> = SingletonHolderImpl::new();
    let _ = NrfGpioDriver::new();
    NrfGpioDriver::init(&mut gpio, &mut resources, |port| format!("pin 13 of {}", port));
    assert!(NrfGpioDriver::is_initialized(&gpio));
    assert_eq!(
        gpio.with_ref(|state| state.output_pin(GpioOutputPin::LED).clone()),
        "pin 13 of P0"
    );
    assert!(resources.p0.is_none());

    let mut osc: DriverStateHolder<NrfOscDriverState> = SingletonHolderImpl::new();
    co2_sensor::drivers::osc_nrf::init(&mut osc, &mut resources, |_| ()).unwrap();
    let mut usb: DriverStateHolder<NrfUsbState<String>> = SingletonHolderImpl::new();
    let _ = NrfUsbDriver::new();
    NrfUsbDriver::init(&mut usb, &mut resources, &mut osc, |action, usbd| {
        format!("{:?}, then bus on {}", action, usbd)
    });
    assert!(NrfUsbDriver::is_initialized(&usb));
    assert_eq!(usb.with_ref(|state| state.bus.clone()), "Start, then bus on USBD");
    assert!(resources.usbd.is_none());
    assert_eq!(osc.with_ref(|arbiter| arbiter.state()), NrfOscState::OnOff);
    assert_eq!(osc.with_ref(|arbiter| arbiter.high_acc_osc_tokens()), 1);
}

#[test]
fn pins_are_reached_by_name() {
    let mut resources = registry();
    let mut gpio: DriverStateHolder<NrfGpioState<Vec<bool>>> = SingletonHolderImpl::new();
    NrfGpioDriver::init(&mut gpio, &mut resources, |_| Vec::new());
    gpio.with_output_pin_mut(GpioOutputPin::LED, |led| led.push(true));
    gpio.with_output_pin_mut(GpioOutputPin::LED, |led| led.push(false));
    let mut seen = Vec::new();
    gpio.with_output_pin(GpioOutputPin::LED, |led| seen = led.clone());
    assert_eq!(seen, vec![true, false]);
    assert!(gpio.is_initialized());
}

#[test]
fn the_bus_is_handed_out_by_reference() {
    static BUS: &str = "bus";
    let mut resources = registry();
    let mut osc: DriverStateHolder<NrfOscDriverState> = SingletonHolderImpl::new();
    co2_sensor::drivers::osc_nrf::init(&mut osc, &mut resources, |_| ()).unwrap();
    let mut usb: DriverStateHolder<NrfUsbState<&'static &'static str>> = SingletonHolderImpl::new();
    NrfUsbDriver::init(&mut usb, &mut resources, &mut osc, |_, _| &BUS);
    assert_eq!(*usb.bus(), "bus");
}

#[test]
fn usb_reuses_a_running_oscillator() {
    let mut resources = registry();
    let mut osc: DriverStateHolder<NrfOscDriverState> = SingletonHolderImpl::new();
    osc.init_once(&mut resources, |resources| {
        NrfOscDriverState::new(resources, |_| ())
            .request_high_acc_osc()
            .0
    });
    let mut usb: DriverStateHolder<NrfUsbState<OscAction>> = SingletonHolderImpl::new();
    NrfUsbDriver::init(&mut usb, &mut resources, &mut osc, |action, _| action);
    assert_eq!(usb.with_ref(|state| state.bus), OscAction::Keep);
    assert_eq!(osc.with_ref(|arbiter| arbiter.high_acc_osc_tokens()), 2);
}

#[test]
fn mono_reuses_a_running_oscillator() {
    let mut resources = registry();
    let mut osc: DriverStateHolder<NrfOscDriverState> = SingletonHolderImpl::new();
    osc.init_once(&mut resources, |resources| {
        NrfOscDriverState::new(resources, |_| ()).request_sleep_osc().0
    });
    let mut mono = NrfRticMonoDriver::new();
    let mut told = None;
    let _token = mono.init(&mut resources, &mut osc, |action, _| told = Some(action));
    assert_eq!(told, Some(OscAction::Keep));
    assert_eq!(osc.with_ref(|arbiter| arbiter.sleep_osc_tokens()), 2);
    assert_eq!(osc.with_ref(|arbiter| arbiter.state()), NrfOscState::OffOn);
}

#[test]
fn bring_up_hands_each_block_to_one_driver() {
    let order = std::cell::RefCell::new(Vec::new());
    let drivers: Drivers<String, String, String> = init(
        registry(),
        |power| order.borrow_mut().push(format!("dcdc on {}", power)),
        |clock| order.borrow_mut().push(format!("sources on {}", clock)),
        |rng| {
            order.borrow_mut().push(format!("generator on {}", rng));
            format!("generator on {}", rng)
        },
        |action, rtc0| {
            order
                .borrow_mut()
                .push(format!("{:?} sleep, count on {}", action, rtc0))
        },
        |p0| {
            order.borrow_mut().push(format!("led on {}", p0));
            format!("led on {}", p0)
        },
        |action, usbd| {
            order
                .borrow_mut()
                .push(format!("{:?} high accuracy, bus on {}", action, usbd));
            format!("bus on {}", usbd)
        },
    );
    assert!(drivers.mono.is_initialized());
    assert_eq!(drivers.rng.with_ref(|state| state.rng.clone()), "generator on RNG");
    assert_eq!(drivers.gpio.with_ref(|state| state.led.clone()), "led on P0");
    assert_eq!(drivers.usb.with_ref(|state| state.bus.clone()), "bus on USBD");
    let (state, sleep, high_acc) = drivers.osc.with_ref(|arbiter| {
        (
            arbiter.state(),
            arbiter.sleep_osc_tokens(),
            arbiter.high_acc_osc_tokens(),
        )
    });
    assert_eq!((state, sleep, high_acc), (NrfOscState::OnOn, 1, 1));
    assert_eq!(
        order.into_inner(),
        vec![
            "dcdc on POWER".to_string(),
            "sources on CLOCK".to_string(),
            "generator on RNG".to_string(),
            "Start sleep, count on RTC0".to_string(),
            "led on P0".to_string(),
            "Start high accuracy, bus on USBD".to_string(),
        ]
    );
}
