//! The arbiter of the two clock oscillators of the nRF52840.
//!
//! The low-frequency oscillator (32.768 kHz) keeps time while the chip
//! sleeps; the high-accuracy oscillator (64 MHz crystal) is needed by the
//! radio and by USB. Each runs exactly while at least one client holds a
//! token for it.

use crate::drivers::api::osc::{
    Hertz,
    OscAction,
    Oscillator,
    OscillatorDriver,
    Oscillators,
    OscillatorsDriver,
    Ppm,
    RequestOsc,
};
use crate::drivers::api::{ApiError, DriverStateHolder};
use crate::drivers::osc_model::{OscModel, OscRequest};
use crate::drivers::resources_nrf::{NrfResources, RegisterBlocks};
use crate::token::{Release, SharedToken};
use crate::WithDependency;
use std::marker::PhantomData;
use vstd::prelude::*;

verus! {

/// Accuracy of the crystal of the high-accuracy oscillator, in parts per
/// million.
pub const HFXO_ACCURACY: u16 = 30;

/// Accuracy of the crystal of the low-frequency oscillator, in parts per
/// million.
pub const LFXO_ACCURACY: u16 = 50;

/// Frequency of the low-frequency clock, in hertz.
///
/// Reads the constant `nrf52840_hal::clocks::LFCLK_FREQ`, which is 32 768.
#[verifier::external_body]
fn lfclk_freq() -> (freq: u32)
    ensures
        freq == 32_768,
{
    nrf52840_hal::clocks::LFCLK_FREQ
}

/// Frequency of the high-frequency clock, in hertz.
///
/// Reads the constant `nrf52840_hal::clocks::HFCLK_FREQ`, which is
/// 64 000 000 on every chip but the nRF51.
#[verifier::external_body]
fn hfclk_freq() -> (freq: u32)
    ensures
        freq == 64_000_000,
{
    nrf52840_hal::clocks::HFCLK_FREQ
}

/// Which of the two oscillators run: the first word is the high-accuracy
/// oscillator, the second the low-frequency oscillator.
#[derive(Debug, Clone, Copy, PartialEq, Eq, Structural)]
pub enum NrfOscState {
    OffOff,
    OffOn,
    OnOff,
    OnOn,
}

impl NrfOscState {
    /// The state in which the oscillators run as the two flags say.
    pub open spec fn of(high_acc: bool, sleep: bool) -> NrfOscState {
        if high_acc {
            if sleep {
                NrfOscState::OnOn
            } else {
                NrfOscState::OnOff
            }
        } else {
            if sleep {
                NrfOscState::OffOn
            } else {
                NrfOscState::OffOff
            }
        }
    }

    /// Whether the high-accuracy oscillator runs.
    pub open spec fn high_acc_enabled(self) -> bool {
        self is OnOff || self is OnOn
    }

    /// Whether the low-frequency oscillator runs.
    pub open spec fn sleep_started(self) -> bool {
        self is OffOn || self is OnOn
    }

    /// Whether the high-accuracy oscillator runs.
    pub fn is_high_acc_enabled(&self) -> (enabled: bool)
        ensures
            enabled == self.high_acc_enabled(),
    {
        match self {
            NrfOscState::OnOff | NrfOscState::OnOn => true,
            NrfOscState::OffOff | NrfOscState::OffOn => false,
        }
    }

    /// Whether the low-frequency oscillator runs.
    pub fn is_sleep_started(&self) -> (started: bool)
        ensures
            started == self.sleep_started(),
    {
        match self {
            NrfOscState::OffOn | NrfOscState::OnOn => true,
            NrfOscState::OffOff | NrfOscState::OnOff => false,
        }
    }
}

/// What the counter of the low-frequency oscillator copies its handles
/// from. Nothing outside this module can make one.
#[derive(Debug, Clone)]
struct SleepOscMarker;

/// What the counter of the high-accuracy oscillator copies its handles
/// from. Nothing outside this module can make one.
#[derive(Debug, Clone)]
struct HighAccOscMarker;

/// A client's claim on the low-frequency oscillator. The arbiter hands one
/// out for each request and takes it back with the release; there is no
/// other way to come by one, nor to copy one.
#[derive(Debug)]
pub struct NrfSleepOscToken(SleepOscMarker);

/// A client's claim on the high-accuracy oscillator. The arbiter hands one
/// out for each request and takes it back with the release; there is no
/// other way to come by one, nor to copy one.
#[derive(Debug)]
pub struct NrfHighAccOscToken(HighAccOscMarker);

impl Release<NrfOscState> for SleepOscMarker {
    open spec fn can_release(&self, resource: NrfOscState) -> bool {
        resource.sleep_started()
    }

    /// The low-frequency oscillator, which runs, stops.
    fn release(&self, resource: &mut NrfOscState)
        ensures
            *final(resource) == NrfOscState::of(old(resource).high_acc_enabled(), false),
    {
        NrfOscDriverState::stop_sleep_osc(resource);
    }
}

impl Release<NrfOscState> for HighAccOscMarker {
    open spec fn can_release(&self, resource: NrfOscState) -> bool {
        resource.high_acc_enabled()
    }

    /// The high-accuracy oscillator, which runs, stops.
    fn release(&self, resource: &mut NrfOscState)
        ensures
            *final(resource) == NrfOscState::of(false, old(resource).sleep_started()),
    {
        NrfOscDriverState::stop_high_acc_osc(resource);
    }
}

/// The arbiter: the state of the oscillators with the use counters of their
/// tokens.
pub struct NrfOscDriverState {
    state: NrfOscState,
    sleep: SharedToken<SleepOscMarker>,
    high_acc: SharedToken<HighAccOscMarker>,
}

impl View for NrfOscDriverState {
    type V = OscModel;

    closed spec fn view(&self) -> OscModel {
        OscModel {
            state: self.state,
            lf_tokens: self.sleep.uses(),
            hf_tokens: self.high_acc.uses(),
        }
    }
}

impl NrfOscDriverState {
    #[verifier::type_invariant]
    spec fn consistent(self) -> bool {
        self@.consistent()
    }

    /// The arbiter as it is made when the clock control block is claimed:
    /// `configure`, which is to select the clock sources, runs on the block,
    /// which leaves the registry, and both oscillators are off. There is no
    /// arbiter without the block.
    pub fn new<B: RegisterBlocks, F: FnOnce(B::Clock)>(
        resources: &mut NrfResources<B>,
        configure: F,
    ) -> (arbiter: NrfOscDriverState)
        requires
            old(resources).clock is Some,
            configure.requires((old(resources).clock->0,)),
        ensures
            arbiter@ == OscModel::initial(),
            *final(resources) == (NrfResources { clock: None, ..*old(resources) }),
            configure.ensures((old(resources).clock->0,), ()),
    {
        let construct = move |clock: B::Clock| -> (arbiter: NrfOscDriverState)
            requires
                configure.requires((clock,)),
            ensures
                configure.ensures((clock,), ()),
                arbiter@ == OscModel::initial(),
        {
            configure(clock);
            NrfOscDriverState {
                state: NrfOscState::OffOff,
                sleep: SharedToken::new(SleepOscMarker),
                high_acc: SharedToken::new(HighAccOscMarker),
            }
        };
        <NrfOscDriverState as WithDependency<NrfResources<B>, B::Clock>>::with_dependency(
            resources,
            construct,
        )
    }

    /// The oscillators that run. Each of them runs exactly while a token for
    /// it is outstanding.
    pub fn state(&self) -> (state: NrfOscState)
        ensures
            state == self@.state,
            self@.consistent(),
    {
        proof {
            use_type_invariant(self);
        }
        self.state
    }

    /// Number of tokens that are outstanding for the low-frequency
    /// oscillator.
    pub fn sleep_osc_tokens(&self) -> (tokens: usize)
        ensures
            tokens == self@.lf_tokens,
    {
        self.sleep.count()
    }

    /// Number of tokens that are outstanding for the high-accuracy
    /// oscillator.
    pub fn high_acc_osc_tokens(&self) -> (tokens: usize)
        ensures
            tokens == self@.hf_tokens,
    {
        self.high_acc.count()
    }

    /// Accounts for one more client of the low-frequency oscillator, which
    /// is to be started if it does not run yet.
    pub fn request_sleep_osc(self) -> (granted: (NrfOscDriverState, (NrfSleepOscToken, OscAction)))
        requires
            self@.admits(OscRequest::RequestLf),
        ensures
            granted.0@ == self@.step(OscRequest::RequestLf),
            granted.1.1 == self@.action(OscRequest::RequestLf),
            granted.0@.lf_tokens == self@.lf_tokens + 1,
            granted.0@.state.sleep_started(),
            granted.0@.state.high_acc_enabled() == self@.state.high_acc_enabled(),
            granted.0@.consistent(),
    {
        proof {
            use_type_invariant(&self);
        }
        let NrfOscDriverState { state, sleep, high_acc } = self;
        let mut sleep = sleep;
        let (next, action) = match state {
            NrfOscState::OffOff => (NrfOscState::OffOn, OscAction::Start),
            NrfOscState::OnOff => (NrfOscState::OnOn, OscAction::Start),
            NrfOscState::OffOn => (NrfOscState::OffOn, OscAction::Keep),
            NrfOscState::OnOn => (NrfOscState::OnOn, OscAction::Keep),
        };
        let token = NrfSleepOscToken(sleep.acquire());
        (NrfOscDriverState { state: next, sleep, high_acc }, (token, action))
    }

    /// Takes back the token of a client of the low-frequency oscillator,
    /// which is to be stopped if that was its last client.
    pub fn release_sleep_osc(self, token: NrfSleepOscToken) -> (released: (
        NrfOscDriverState,
        OscAction,
    ))
        requires
            self@.admits(OscRequest::ReleaseLf),
        ensures
            released.0@ == self@.step(OscRequest::ReleaseLf),
            released.1 == self@.action(OscRequest::ReleaseLf),
    {
        proof {
            use_type_invariant(&self);
        }
        let NrfOscDriverState { state, sleep, high_acc } = self;
        let mut state = state;
        let mut sleep = sleep;
        let action = if sleep.release(token.0, &mut state) {
            OscAction::Stop
        } else {
            OscAction::Keep
        };
        (NrfOscDriverState { state, sleep, high_acc }, action)
    }

    /// The low-frequency oscillator, which runs, stops: its last client has
    /// released it.
    pub fn stop_sleep_osc(state: &mut NrfOscState)
        requires
            old(state).sleep_started(),
        ensures
            *final(state) == NrfOscState::of(old(state).high_acc_enabled(), false),
    {
        let next = match *state {
            NrfOscState::OffOn => NrfOscState::OffOff,
            NrfOscState::OnOn => NrfOscState::OnOff,
            NrfOscState::OffOff | NrfOscState::OnOff => unreached(),
        };
        *state = next;
    }

    /// Accounts for one more client of the high-accuracy oscillator, which
    /// is to be enabled if it does not run yet.
    pub fn request_high_acc_osc(self) -> (granted: (
        NrfOscDriverState,
        (NrfHighAccOscToken, OscAction),
    ))
        requires
            self@.admits(OscRequest::RequestHf),
        ensures
            granted.0@ == self@.step(OscRequest::RequestHf),
            granted.1.1 == self@.action(OscRequest::RequestHf),
            granted.0@.hf_tokens == self@.hf_tokens + 1,
            granted.0@.state.high_acc_enabled(),
            granted.0@.state.sleep_started() == self@.state.sleep_started(),
            granted.0@.consistent(),
    {
        proof {
            use_type_invariant(&self);
        }
        let NrfOscDriverState { state, sleep, high_acc } = self;
        let mut high_acc = high_acc;
        let (next, action) = match state {
            NrfOscState::OffOff => (NrfOscState::OnOff, OscAction::Start),
            NrfOscState::OffOn => (NrfOscState::OnOn, OscAction::Start),
            NrfOscState::OnOff => (NrfOscState::OnOff, OscAction::Keep),
            NrfOscState::OnOn => (NrfOscState::OnOn, OscAction::Keep),
        };
        let token = NrfHighAccOscToken(high_acc.acquire());
        (NrfOscDriverState { state: next, sleep, high_acc }, (token, action))
    }

    /// Takes back the token of a client of the high-accuracy oscillator,
    /// which is to be disabled if that was its last client.
    pub fn release_high_acc_osc(self, token: NrfHighAccOscToken) -> (released: (
        NrfOscDriverState,
        OscAction,
    ))
        requires
            self@.admits(OscRequest::ReleaseHf),
        ensures
            released.0@ == self@.step(OscRequest::ReleaseHf),
            released.1 == self@.action(OscRequest::ReleaseHf),
    {
        proof {
            use_type_invariant(&self);
        }
        let NrfOscDriverState { state, sleep, high_acc } = self;
        let mut state = state;
        let mut high_acc = high_acc;
        let action = if high_acc.release(token.0, &mut state) {
            OscAction::Stop
        } else {
            OscAction::Keep
        };
        (NrfOscDriverState { state, sleep, high_acc }, action)
    }

    /// The high-accuracy oscillator, which runs, stops: its last client has
    /// released it.
    pub fn stop_high_acc_osc(state: &mut NrfOscState)
        requires
            old(state).high_acc_enabled(),
        ensures
            *final(state) == NrfOscState::of(false, old(state).sleep_started()),
    {
        let next = match *state {
            NrfOscState::OnOff => NrfOscState::OffOff,
            NrfOscState::OnOn => NrfOscState::OffOn,
            NrfOscState::OffOff | NrfOscState::OffOn => unreached(),
        };
        *state = next;
    }
}

/// The arbiter in its cell, if the cell has been filled.
pub open spec fn arbiter_of(holder: DriverStateHolder<NrfOscDriverState>) -> OscModel
    recommends
        holder@ is Some,
{
    holder@->0@
}

impl<B: RegisterBlocks> WithDependency<NrfResources<B>, B::Clock> for NrfOscDriverState {
    open spec fn available(registry: NrfResources<B>) -> bool {
        registry.clock is Some
    }

    open spec fn dependency(registry: NrfResources<B>) -> B::Clock {
        registry.clock->0
    }

    open spec fn remaining(registry: NrfResources<B>) -> NrfResources<B> {
        NrfResources { clock: None, ..registry }
    }

    proof fn lemma_claimed_once(registry: NrfResources<B>) {
    }

    fn with_dependency<Output, F: FnOnce(B::Clock) -> Output>(
        registry: &mut NrfResources<B>,
        f: F,
    ) -> (output: Output) {
        f(registry.clock.take().unwrap())
    }
}

/// Brings the oscillators' driver up and hands it out: the arbiter is made
/// from the clock control block, on which `configure` runs, and put into its
/// cell. The block leaves the registry.
///
/// The driver is brought up once: to bring it up where the cell holds an
/// arbiter already, or where the block has left the registry, is a wiring
/// mistake in the bring-up sequence.
pub fn init<B: RegisterBlocks, F: FnOnce(B::Clock)>(
    holder: &mut DriverStateHolder<NrfOscDriverState>,
    resources: &mut NrfResources<B>,
    configure: F,
) -> (result: Result<NrfOscillatorsDriver<NrfLfOscillator, NrfHfOscillator>, ApiError>)
    requires
        old(holder)@ is None,
        old(resources).clock is Some,
        configure.requires((old(resources).clock->0,)),
    ensures
        result is Ok,
        *final(resources) == (NrfResources { clock: None, ..*old(resources) }),
        configure.ensures((old(resources).clock->0,), ()),
        final(holder)@ is Some,
        arbiter_of(*final(holder)) == OscModel::initial(),
{
    ensure_arbiter(holder, resources, configure);
    Ok(NrfOscillatorsDriver::new())
}

/// Makes the arbiter from the clock control block and puts it into the
/// cell, unless the cell holds an arbiter already: then nothing runs, and
/// cell and registry stay as they are.
fn ensure_arbiter<B: RegisterBlocks, F: FnOnce(B::Clock)>(
    holder: &mut DriverStateHolder<NrfOscDriverState>,
    resources: &mut NrfResources<B>,
    configure: F,
)
    requires
        old(holder)@ is None ==> old(resources).clock is Some && configure.requires(
            (old(resources).clock->0,),
        ),
    ensures
        final(holder)@ is Some,
        old(holder)@ is Some ==> *final(holder) == *old(holder) && *final(resources) == *old(
            resources,
        ),
        old(holder)@ is None ==> {
            &&& arbiter_of(*final(holder)) == OscModel::initial()
            &&& *final(resources) == (NrfResources { clock: None, ..*old(resources) })
            &&& configure.ensures((old(resources).clock->0,), ())
        },
{
    if !holder.is_initialized() {
        let construct = move |resources: &mut NrfResources<B>| -> (arbiter: NrfOscDriverState)
            requires
                old(resources).clock is Some,
                configure.requires((old(resources).clock->0,)),
            ensures
                arbiter@ == OscModel::initial(),
                *final(resources) == (NrfResources { clock: None, ..*old(resources) }),
                configure.ensures((old(resources).clock->0,), ()),
        {
            NrfOscDriverState::new(resources, configure)
        };
        holder.init_once(resources, construct);
    }
}

/// The 32.768 kHz crystal oscillator, which keeps time while the chip
/// sleeps.
#[derive(Debug, Clone, Copy, PartialEq, Eq, Structural)]
pub struct NrfLfOscillator;

/// The 64 MHz crystal oscillator, which USB and the radio need.
#[derive(Debug, Clone, Copy, PartialEq, Eq, Structural)]
pub struct NrfHfOscillator;

impl Oscillator for NrfLfOscillator {
    open spec fn nominal_freq(&self) -> Hertz {
        Hertz(32_768)
    }

    open spec fn nominal_freq_drift(&self) -> Ppm {
        Ppm(LFXO_ACCURACY)
    }

    fn freq(&self) -> (freq: Hertz) {
        Hertz(lfclk_freq())
    }

    fn freq_drift(&self) -> (drift: Ppm) {
        Ppm(LFXO_ACCURACY)
    }
}

impl Oscillator for NrfHfOscillator {
    open spec fn nominal_freq(&self) -> Hertz {
        Hertz(64_000_000)
    }

    open spec fn nominal_freq_drift(&self) -> Ppm {
        Ppm(HFXO_ACCURACY)
    }

    fn freq(&self) -> (freq: Hertz) {
        Hertz(hfclk_freq())
    }

    fn freq_drift(&self) -> (drift: Ppm) {
        Ppm(HFXO_ACCURACY)
    }
}

impl RequestOsc<NrfSleepOscToken> for NrfLfOscillator {
    type State = DriverStateHolder<NrfOscDriverState>;

    open spec fn admits_request(&self, state: DriverStateHolder<NrfOscDriverState>) -> bool {
        NrfSleepOscillatorDriver::admits_request(state)
    }

    open spec fn requested(
        &self,
        before: DriverStateHolder<NrfOscDriverState>,
        after: DriverStateHolder<NrfOscDriverState>,
        action: OscAction,
    ) -> bool {
        NrfSleepOscillatorDriver::requested(before, after, action)
    }

    /// Always succeeds. The oscillator is to be started if this is its
    /// first client.
    fn request(&self, state: &mut DriverStateHolder<NrfOscDriverState>) -> (granted: Result<
        (NrfSleepOscToken, OscAction),
        ApiError,
    >)
        ensures
            granted is Ok,
    {
        NrfSleepOscillatorDriver::request(state)
    }
}

impl RequestOsc<NrfHighAccOscToken> for NrfHfOscillator {
    type State = DriverStateHolder<NrfOscDriverState>;

    open spec fn admits_request(&self, state: DriverStateHolder<NrfOscDriverState>) -> bool {
        NrfHighAccOscillatorDriver::admits_request(state)
    }

    open spec fn requested(
        &self,
        before: DriverStateHolder<NrfOscDriverState>,
        after: DriverStateHolder<NrfOscDriverState>,
        action: OscAction,
    ) -> bool {
        NrfHighAccOscillatorDriver::requested(before, after, action)
    }

    /// Always succeeds. The oscillator is to be enabled if this is its
    /// first client.
    fn request(&self, state: &mut DriverStateHolder<NrfOscDriverState>) -> (granted: Result<
        (NrfHighAccOscToken, OscAction),
        ApiError,
    >)
        ensures
            granted is Ok,
    {
        NrfHighAccOscillatorDriver::request(state)
    }
}

/// The driver of the oscillators, as `init` hands it out: the way to the
/// two oscillators, whose requests go to the arbiter.
#[derive(Debug)]
pub struct NrfOscillatorsDriver<Osc1, Osc2> {
    _osc1: PhantomData<Osc1>,
    _osc2: PhantomData<Osc2>,
}

impl NrfOscillatorsDriver<NrfLfOscillator, NrfHfOscillator> {
    fn new() -> Self {
        NrfOscillatorsDriver { _osc1: PhantomData, _osc2: PhantomData }
    }
}

impl OscillatorsDriver<NrfLfOscillator, NrfHfOscillator> for NrfOscillatorsDriver<
    NrfLfOscillator,
    NrfHfOscillator,
> {
    open spec fn driven(&self) -> Oscillators<NrfLfOscillator, NrfHfOscillator> {
        Oscillators { lf_osc: NrfLfOscillator, high_acc_hf_osc: NrfHfOscillator }
    }

    fn oscillators(&self) -> (oscillators: Oscillators<NrfLfOscillator, NrfHfOscillator>) {
        Oscillators { lf_osc: NrfLfOscillator, high_acc_hf_osc: NrfHfOscillator }
    }
}

/// The low-frequency oscillator.
pub struct NrfSleepOscillatorDriver;

impl NrfSleepOscillatorDriver {
    pub fn new() -> NrfSleepOscillatorDriver {
        NrfSleepOscillatorDriver
    }

    /// Brings the arbiter up, as the bring-up of the oscillators' driver
    /// does, unless that has been done before, be it by the other
    /// oscillator's driver: then nothing runs, and cell and registry stay as
    /// they are.
    pub fn init<B: RegisterBlocks, F: FnOnce(B::Clock)>(
        holder: &mut DriverStateHolder<NrfOscDriverState>,
        resources: &mut NrfResources<B>,
        configure: F,
    )
        requires
            old(holder)@ is None ==> old(resources).clock is Some && configure.requires(
                (old(resources).clock->0,),
            ),
        ensures
            final(holder)@ is Some,
            old(holder)@ is Some ==> *final(holder) == *old(holder) && *final(resources) == *old(
                resources,
            ),
            old(holder)@ is None ==> {
                &&& arbiter_of(*final(holder)) == OscModel::initial()
                &&& *final(resources) == (NrfResources { clock: None, ..*old(resources) })
                &&& configure.ensures((old(resources).clock->0,), ())
            },
    {
        ensure_arbiter(holder, resources, configure)
    }

    pub fn is_initialized(holder: &DriverStateHolder<NrfOscDriverState>) -> (initialized: bool)
        ensures
            initialized == (holder@ is Some),
    {
        holder.is_initialized()
    }
}

impl OscillatorDriver for NrfSleepOscillatorDriver {
    type OscToken = NrfSleepOscToken;

    type State = DriverStateHolder<NrfOscDriverState>;

    open spec fn nominal_freq() -> Hertz {
        NrfLfOscillator.nominal_freq()
    }

    open spec fn nominal_freq_drift() -> Ppm {
        NrfLfOscillator.nominal_freq_drift()
    }

    open spec fn admits_request(state: DriverStateHolder<NrfOscDriverState>) -> bool {
        state@ is Some && arbiter_of(state).admits(OscRequest::RequestLf)
    }

    open spec fn admits_release(state: DriverStateHolder<NrfOscDriverState>) -> bool {
        state@ is Some && arbiter_of(state).admits(OscRequest::ReleaseLf)
    }

    open spec fn requested(
        before: DriverStateHolder<NrfOscDriverState>,
        after: DriverStateHolder<NrfOscDriverState>,
        action: OscAction,
    ) -> bool {
        &&& after@ is Some
        &&& arbiter_of(after) == arbiter_of(before).step(OscRequest::RequestLf)
        &&& action == arbiter_of(before).action(OscRequest::RequestLf)
    }

    open spec fn released(
        before: DriverStateHolder<NrfOscDriverState>,
        after: DriverStateHolder<NrfOscDriverState>,
        action: OscAction,
    ) -> bool {
        &&& after@ is Some
        &&& arbiter_of(after) == arbiter_of(before).step(OscRequest::ReleaseLf)
        &&& action == arbiter_of(before).action(OscRequest::ReleaseLf)
    }

    fn freq() -> (freq: Hertz) {
        NrfLfOscillator.freq()
    }

    fn freq_drift() -> (drift: Ppm) {
        NrfLfOscillator.freq_drift()
    }

    /// Always succeeds. The low-frequency oscillator is to be started if
    /// this is its first client.
    fn request(state: &mut DriverStateHolder<NrfOscDriverState>) -> (granted: Result<
        (NrfSleepOscToken, OscAction),
        ApiError,
    >)
        ensures
            granted is Ok,
    {
        Ok(state.with(NrfOscDriverState::request_sleep_osc))
    }

    /// The low-frequency oscillator is to be stopped if this was its last
    /// client.
    fn release(
        state: &mut DriverStateHolder<NrfOscDriverState>,
        token: NrfSleepOscToken,
    ) -> (action: OscAction) {
        let give_back = |arbiter: NrfOscDriverState| -> (released: (NrfOscDriverState, OscAction))
            requires
                arbiter@.admits(OscRequest::ReleaseLf),
            ensures
                released.0@ == arbiter@.step(OscRequest::ReleaseLf),
                released.1 == arbiter@.action(OscRequest::ReleaseLf),
        {
            arbiter.release_sleep_osc(token)
        };
        state.with(give_back)
    }
}

/// The high-accuracy oscillator.
pub struct NrfHighAccOscillatorDriver;

impl NrfHighAccOscillatorDriver {
    pub fn new() -> NrfHighAccOscillatorDriver {
        NrfHighAccOscillatorDriver
    }

    /// Brings the arbiter up, as the bring-up of the oscillators' driver
    /// does, unless that has been done before, be it by the other
    /// oscillator's driver: then nothing runs, and cell and registry stay as
    /// they are.
    pub fn init<B: RegisterBlocks, F: FnOnce(B::Clock)>(
        holder: &mut DriverStateHolder<NrfOscDriverState>,
        resources: &mut NrfResources<B>,
        configure: F,
    )
        requires
            old(holder)@ is None ==> old(resources).clock is Some && configure.requires(
                (old(resources).clock->0,),
            ),
        ensures
            final(holder)@ is Some,
            old(holder)@ is Some ==> *final(holder) == *old(holder) && *final(resources) == *old(
                resources,
            ),
            old(holder)@ is None ==> {
                &&& arbiter_of(*final(holder)) == OscModel::initial()
                &&& *final(resources) == (NrfResources { clock: None, ..*old(resources) })
                &&& configure.ensures((old(resources).clock->0,), ())
            },
    {
        ensure_arbiter(holder, resources, configure)
    }

    pub fn is_initialized(holder: &DriverStateHolder<NrfOscDriverState>) -> (initialized: bool)
        ensures
            initialized == (holder@ is Some),
    {
        holder.is_initialized()
    }
}

impl OscillatorDriver for NrfHighAccOscillatorDriver {
    type OscToken = NrfHighAccOscToken;

    type State = DriverStateHolder<NrfOscDriverState>;

    open spec fn nominal_freq() -> Hertz {
        NrfHfOscillator.nominal_freq()
    }

    open spec fn nominal_freq_drift() -> Ppm {
        NrfHfOscillator.nominal_freq_drift()
    }

    open spec fn admits_request(state: DriverStateHolder<NrfOscDriverState>) -> bool {
        state@ is Some && arbiter_of(state).admits(OscRequest::RequestHf)
    }

    open spec fn admits_release(state: DriverStateHolder<NrfOscDriverState>) -> bool {
        state@ is Some && arbiter_of(state).admits(OscRequest::ReleaseHf)
    }

    open spec fn requested(
        before: DriverStateHolder<NrfOscDriverState>,
        after: DriverStateHolder<NrfOscDriverState>,
        action: OscAction,
    ) -> bool {
        &&& after@ is Some
        &&& arbiter_of(after) == arbiter_of(before).step(OscRequest::RequestHf)
        &&& action == arbiter_of(before).action(OscRequest::RequestHf)
    }

    open spec fn released(
        before: DriverStateHolder<NrfOscDriverState>,
        after: DriverStateHolder<NrfOscDriverState>,
        action: OscAction,
    ) -> bool {
        &&& after@ is Some
        &&& arbiter_of(after) == arbiter_of(before).step(OscRequest::ReleaseHf)
        &&& action == arbiter_of(before).action(OscRequest::ReleaseHf)
    }

    fn freq() -> (freq: Hertz) {
        NrfHfOscillator.freq()
    }

    fn freq_drift() -> (drift: Ppm) {
        NrfHfOscillator.freq_drift()
    }

    /// Always succeeds. The high-accuracy oscillator is to be enabled if
    /// this is its first client.
    fn request(state: &mut DriverStateHolder<NrfOscDriverState>) -> (granted: Result<
        (NrfHighAccOscToken, OscAction),
        ApiError,
    >)
        ensures
            granted is Ok,
    {
        Ok(state.with(NrfOscDriverState::request_high_acc_osc))
    }

    /// The high-accuracy oscillator is to be disabled if this was its last
    /// client.
    fn release(
        state: &mut DriverStateHolder<NrfOscDriverState>,
        token: NrfHighAccOscToken,
    ) -> (action: OscAction) {
        let give_back = |arbiter: NrfOscDriverState| -> (released: (NrfOscDriverState, OscAction))
            requires
                arbiter@.admits(OscRequest::ReleaseHf),
            ensures
                released.0@ == arbiter@.step(OscRequest::ReleaseHf),
                released.1 == arbiter@.action(OscRequest::ReleaseHf),
        {
            arbiter.release_high_acc_osc(token)
        };
        state.with(give_back)
    }
}

} // verus!
