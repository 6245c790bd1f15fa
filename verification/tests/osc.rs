use co2_sensor::drivers::api::osc::{Hertz, OscAction, OscillatorDriver, Ppm};
use co2_sensor::drivers::api::DriverStateHolder;
use co2_sensor::drivers::osc_nrf::{
    NrfHighAccOscillatorDriver, NrfOscDriverState, NrfOscState, NrfSleepOscillatorDriver,
};
use co2_sensor::drivers::resources_nrf::{transfer, NrfResources, RegisterBlocks};
use co2_sensor::singleton::SingletonHolderImpl;

struct Board;

impl RegisterBlocks for Board {
    type Power = &'static str;
    type Clock = &'static str;
    type Rng = &'static str;
    type P0 = &'static str;
    type Rtc0 = &'static str;
    type Usbd = &'static str;
}

fn registry() -> NrfResources<Board> {
    transfer::<Board>("POWER", "CLOCK", "RNG", "P0", "RTC0", "USBD")
}

fn arbiter() -> NrfOscDriverState {
    NrfOscDriverState::new(&mut registry(), |_| ())
}

fn state_of(holder: &DriverStateHolder<NrfOscDriverState>) -> (NrfOscState, usize, usize) {
    holder.with_ref(|arbiter| {
        (
            arbiter.state(),
            arbiter.sleep_osc_tokens(),
            arbiter.high_acc_osc_tokens(),
        )
    })
}

#[test]
fn arbiter_starts_with_both_oscillators_off() {
    let arbiter = arbiter();
    assert_eq!(arbiter.state(), NrfOscState::OffOff);
    assert_eq!(arbiter.sleep_osc_tokens(), 0);
    assert_eq!(arbiter.high_acc_osc_tokens(), 0);
}

#[test]
fn the_arbiter_is_made_from_the_clock_block() {
    let mut resources = registry();
    let mut configured = None;
    let arbiter = NrfOscDriverState::new(&mut resources, |clock| configured = Some(clock));
    assert_eq!(configured, Some("CLOCK"));
    assert!(resources.clock.is_none());
    assert!(resources.power.is_some());
    assert!(resources.rtc0.is_some());
    assert_eq!(arbiter.state(), NrfOscState::OffOff);
}

#[test]
fn sleep_osc_runs_while_a_token_is_outstanding() {
    let arbiter = arbiter();
    let (arbiter, (first, action)) = arbiter.request_sleep_osc();
    assert_eq!(action, OscAction::Start);
    assert_eq!(arbiter.state(), NrfOscState::OffOn);
    assert_eq!(arbiter.sleep_osc_tokens(), 1);

    let (arbiter, (second, action)) = arbiter.request_sleep_osc();
    assert_eq!(action, OscAction::Keep);
    assert_eq!(arbiter.state(), NrfOscState::OffOn);
    assert_eq!(arbiter.sleep_osc_tokens(), 2);

    let (arbiter, action) = arbiter.release_sleep_osc(first);
    assert_eq!(action, OscAction::Keep);
    assert_eq!(arbiter.state(), NrfOscState::OffOn);
    assert_eq!(arbiter.sleep_osc_tokens(), 1);

    let (arbiter, action) = arbiter.release_sleep_osc(second);
    assert_eq!(action, OscAction::Stop);
    assert_eq!(arbiter.state(), NrfOscState::OffOff);
    assert_eq!(arbiter.sleep_osc_tokens(), 0);
}

#[test]
fn nested_requests_return_to_off_off() {
    let arbiter = arbiter();
    let (arbiter, (high_acc, action)) = arbiter.request_high_acc_osc();
    assert_eq!(action, OscAction::Start);
    assert_eq!(arbiter.state(), NrfOscState::OnOff);
    let (arbiter, (sleep, action)) = arbiter.request_sleep_osc();
    assert_eq!(action, OscAction::Start);
    assert_eq!(arbiter.state(), NrfOscState::OnOn);
    let (arbiter, action) = arbiter.release_sleep_osc(sleep);
    assert_eq!(action, OscAction::Stop);
    assert_eq!(arbiter.state(), NrfOscState::OnOff);
    let (arbiter, action) = arbiter.release_high_acc_osc(high_acc);
    assert_eq!(action, OscAction::Stop);
    assert_eq!(arbiter.state(), NrfOscState::OffOff);
    assert_eq!(arbiter.sleep_osc_tokens(), 0);
    assert_eq!(arbiter.high_acc_osc_tokens(), 0);
}

#[test]
fn requests_on_the_two_oscillators_commute() {
    let (a, _) = arbiter().request_sleep_osc();
    let (a, _) = a.request_high_acc_osc();
    let (b, _) = arbiter().request_high_acc_osc();
    let (b, _) = b.request_sleep_osc();
    assert_eq!(a.state(), NrfOscState::OnOn);
    assert_eq!(a.state(), b.state());
    assert_eq!(a.sleep_osc_tokens(), b.sleep_osc_tokens());
    assert_eq!(a.high_acc_osc_tokens(), b.high_acc_osc_tokens());
}

#[test]
fn flag_equals_outstanding_tokens_through_an_interleaving() {
    let mut arbiter = arbiter();
    let mut sleep = Vec::new();
    let mut high_acc = Vec::new();
    let script = [0u8, 2, 0, 1, 2, 3, 1, 0, 3, 1];
    for step in script {
        arbiter = match step {
            0 => {
                let (next, (token, _)) = arbiter.request_sleep_osc();
                sleep.push(token);
                next
            }
            1 => arbiter.release_sleep_osc(sleep.pop().unwrap()).0,
            2 => {
                let (next, (token, _)) = arbiter.request_high_acc_osc();
                high_acc.push(token);
                next
            }
            _ => arbiter.release_high_acc_osc(high_acc.pop().unwrap()).0,
        };
        assert_eq!(arbiter.sleep_osc_tokens(), sleep.len());
        assert_eq!(arbiter.high_acc_osc_tokens(), high_acc.len());
        assert_eq!(arbiter.state().is_sleep_started(), !sleep.is_empty());
        assert_eq!(arbiter.state().is_high_acc_enabled(), !high_acc.is_empty());
    }
    assert_eq!(arbiter.state(), NrfOscState::OffOff);
}

#[test]
fn stop_moves_one_oscillator() {
    let mut state = NrfOscState::OnOn;
    NrfOscDriverState::stop_sleep_osc(&mut state);
    assert_eq!(state, NrfOscState::OnOff);
    NrfOscDriverState::stop_high_acc_osc(&mut state);
    assert_eq!(state, NrfOscState::OffOff);
    let mut state = NrfOscState::OffOn;
    NrfOscDriverState::stop_sleep_osc(&mut state);
    assert_eq!(state, NrfOscState::OffOff);
    let mut state = NrfOscState::OnOn;
    NrfOscDriverState::stop_high_acc_osc(&mut state);
    assert_eq!(state, NrfOscState::OffOn);
}

#[test]
fn drivers_share_one_arbiter() {
    let mut resources = registry();
    let mut configured = Vec::new();
    let mut holder: DriverStateHolder<NrfOscDriverState> = SingletonHolderImpl::new();
    assert!(!NrfSleepOscillatorDriver::is_initialized(&holder));
    NrfSleepOscillatorDriver::init(&mut holder, &mut resources, |clock| {
        configured.push(clock)
    });
    assert!(NrfHighAccOscillatorDriver::is_initialized(&holder));
    assert!(resources.clock.is_none());

    let (sleep, action) = NrfSleepOscillatorDriver::request(&mut holder).unwrap();
    assert_eq!(action, OscAction::Start);
    NrfHighAccOscillatorDriver::init(&mut holder, &mut resources, |clock| {
        configured.push(clock)
    });
    assert_eq!(configured, vec!["CLOCK"]);
    assert_eq!(state_of(&holder), (NrfOscState::OffOn, 1, 0));

    let (high_acc, action) = NrfHighAccOscillatorDriver::request(&mut holder).unwrap();
    assert_eq!(action, OscAction::Start);
    assert_eq!(state_of(&holder), (NrfOscState::OnOn, 1, 1));

    let (second, action) = NrfHighAccOscillatorDriver::request(&mut holder).unwrap();
    assert_eq!(action, OscAction::Keep);
    assert_eq!(state_of(&holder), (NrfOscState::OnOn, 1, 2));

    assert_eq!(
        NrfSleepOscillatorDriver::release(&mut holder, sleep),
        OscAction::Stop
    );
    assert_eq!(state_of(&holder), (NrfOscState::OnOff, 0, 2));
    assert_eq!(
        NrfHighAccOscillatorDriver::release(&mut holder, high_acc),
        OscAction::Keep
    );
    assert_eq!(
        NrfHighAccOscillatorDriver::release(&mut holder, second),
        OscAction::Stop
    );
    assert_eq!(state_of(&holder), (NrfOscState::OffOff, 0, 0));
}

#[test]
fn oscillators_have_their_nominal_frequencies() {
    let _ = NrfSleepOscillatorDriver::new();
    let _ = NrfHighAccOscillatorDriver::new();
    assert_eq!(NrfSleepOscillatorDriver::freq(), Hertz(32_768));
    assert_eq!(NrfSleepOscillatorDriver::freq_drift(), Ppm(50));
    assert_eq!(NrfHighAccOscillatorDriver::freq(), Hertz(64_000_000));
    assert_eq!(NrfHighAccOscillatorDriver::freq_drift(), Ppm(30));
}
