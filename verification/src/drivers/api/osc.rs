//! Clock oscillators.

use crate::drivers::api::ApiError;
use vstd::prelude::*;

verus! {

/// A frequency in hertz.
#[derive(Debug, Clone, Copy, PartialEq, Eq, Structural)]
pub struct Hertz(pub u32);

/// A frequency drift in parts per million.
#[derive(Debug, Clone, Copy, PartialEq, Eq, Structural)]
pub struct Ppm(pub u16);

/// Marks an oscillator that does not run.
#[derive(Debug, Clone, Copy, PartialEq, Eq, Structural)]
pub struct OscStopped;

/// Marks an oscillator that runs.
#[derive(Debug, Clone, Copy, PartialEq, Eq, Structural)]
pub struct OscStarted;

/// What the caller has to do to the oscillator hardware after a request or a
/// release has been accounted for.
#[derive(Debug, Clone, Copy, PartialEq, Eq, Structural)]
pub enum OscAction {
    /// Nothing: other clients keep the oscillator in the state it is in.
    Keep,
    /// Start the oscillator for its first client.
    Start,
    /// Stop the oscillator that its last client has released.
    Stop,
}

/// A clock source with what its data sheet says of it.
pub trait Oscillator {
    /// Nominal frequency of the oscillator.
    spec fn nominal_freq(&self) -> Hertz;

    /// Accuracy of the oscillator.
    spec fn nominal_freq_drift(&self) -> Ppm;

    fn freq(&self) -> (freq: Hertz)
        ensures
            freq == self.nominal_freq(),
    ;

    fn freq_drift(&self) -> (drift: Ppm)
        ensures
            drift == self.nominal_freq_drift(),
    ;
}

/// An oscillator that clients request while they need it. What a request
/// hands out stands for the client's claim.
pub trait RequestOsc<InternalState> {
    /// The bookkeeping that requests are entered in.
    type State;

    /// Whether one more client can be accounted for.
    spec fn admits_request(&self, state: Self::State) -> bool;

    /// Whether `after` is the bookkeeping that a request makes of `before`,
    /// and `action` what it asks of the hardware.
    spec fn requested(&self, before: Self::State, after: Self::State, action: OscAction) -> bool;

    /// Accounts for one more client and hands out its claim. Where that
    /// fails, the bookkeeping stays as it is.
    fn request(&self, state: &mut Self::State) -> (granted: Result<
        (InternalState, OscAction),
        ApiError,
    >)
        requires
            self.admits_request(*old(state)),
        ensures
            granted is Ok ==> self.requested(*old(state), *final(state), granted->Ok_0.1),
            granted is Err ==> *final(state) == *old(state),
    ;
}

/// The two oscillators of a chip.
pub struct Oscillators<Osc1, Osc2> {
    pub lf_osc: Osc1,
    pub high_acc_hf_osc: Osc2,
}

/// A driver that gives access to the oscillators of the chip.
pub trait OscillatorsDriver<Osc1, Osc2> {
    /// The oscillators that the driver stands for.
    spec fn driven(&self) -> Oscillators<Osc1, Osc2>;

    fn oscillators(&self) -> (oscillators: Oscillators<Osc1, Osc2>)
        ensures
            oscillators == self.driven(),
    ;
}

/// One oscillator as its clients see it: they request it while they need it
/// and release it afterwards.
pub trait OscillatorDriver {
    /// The handle that stands for one client's claim on the oscillator.
    type OscToken;

    /// The bookkeeping that requests and releases are entered in.
    type State;

    /// Nominal frequency of the oscillator.
    spec fn nominal_freq() -> Hertz;

    /// Accuracy of the oscillator.
    spec fn nominal_freq_drift() -> Ppm;

    /// Whether one more client can be accounted for.
    spec fn admits_request(state: Self::State) -> bool;

    /// Whether a client is accounted for that could release its claim.
    spec fn admits_release(state: Self::State) -> bool;

    /// Whether `after` is the bookkeeping that a request makes of `before`,
    /// and `action` what it asks of the hardware.
    spec fn requested(before: Self::State, after: Self::State, action: OscAction) -> bool;

    /// Whether `after` is the bookkeeping that a release makes of `before`,
    /// and `action` what it asks of the hardware.
    spec fn released(before: Self::State, after: Self::State, action: OscAction) -> bool;

    fn freq() -> (freq: Hertz)
        ensures
            freq == Self::nominal_freq(),
    ;

    fn freq_drift() -> (drift: Ppm)
        ensures
            drift == Self::nominal_freq_drift(),
    ;

    /// Accounts for one more client and hands out its token, which can be
    /// released from then on. Where that fails, the bookkeeping stays as it
    /// is.
    fn request(state: &mut Self::State) -> (granted: Result<(Self::OscToken, OscAction), ApiError>)
        requires
            Self::admits_request(*old(state)),
        ensures
            granted is Ok ==> Self::requested(*old(state), *final(state), granted->Ok_0.1),
            granted is Ok ==> Self::admits_release(*final(state)),
            granted is Err ==> *final(state) == *old(state),
    ;

    /// Takes the token of a client back.
    fn release(state: &mut Self::State, token: Self::OscToken) -> (action: OscAction)
        requires
            Self::admits_release(*old(state)),
        ensures
            Self::released(*old(state), *final(state), action),
    ;
}

} // verus!
