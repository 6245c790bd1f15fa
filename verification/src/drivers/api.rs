//! What all drivers share: the error type and the bookkeeping of drivers
//! that keep no state but the fact of having been brought up.

use crate::singleton::SingletonHolderImpl;
use crate::Initialized;
use vstd::prelude::*;
use vstd::string::StringExecFns;

pub mod gpio;
pub mod osc;
pub mod rng;
pub mod usb;

verus! {

/// An error reported by a driver.
#[derive(Debug, Clone, Copy)]
pub struct ApiError(&'static str);

impl View for ApiError {
    type V = Seq<char>;

    /// The reason, without decoration.
    closed spec fn view(&self) -> Seq<char> {
        self.0@
    }
}

impl ApiError {
    /// An operation did not finish in time.
    pub fn timeout() -> (error: ApiError)
        ensures
            error@ == "timeout"@,
    {
        ApiError("timeout")
    }

    /// A driver was brought up a second time.
    pub fn driver_already_initialized() -> (error: ApiError)
        ensures
            error@ == "driver already initialized"@,
    {
        ApiError("driver already initialized")
    }

    /// The reason, without decoration.
    pub fn reason(&self) -> (reason: &'static str)
        ensures
            reason@ == self@,
    {
        self.0
    }

    /// The error as it is shown to a user.
    pub fn to_string(&self) -> (text: String)
        ensures
            text@ == "ApiError: "@ + self@ + "."@,
    {
        let mut text = String::from_str("ApiError: ");
        text.append(self.0);
        text.append(".");
        text
    }
}

/// Marks what stands for a driver in the bring-up sequence: something that
/// is brought up once and can tell whether it has been.
pub trait Driver: Initialized {

}

/// The cell that holds the state of a driver.
pub type DriverStateHolder<State> = SingletonHolderImpl<State>;

impl<State: Default> Driver for SingletonHolderImpl<State> {

}

/// The fact of having been brought up.
pub struct InitState(bool);

impl InitState {
    /// Not brought up yet.
    pub fn new() -> (state: InitState)
        ensures
            !state.initialized(),
    {
        InitState(false)
    }
}

impl Initialized for InitState {
    closed spec fn initialized(&self) -> bool {
        self.0
    }

    fn init(&mut self) {
        self.0 = true;
    }

    fn is_initialized(&self) -> (initialized: bool) {
        self.0
    }
}

/// A driver without state of its own.
pub struct StatelessDriver {
    state: InitState,
}

impl StatelessDriver {
    /// A driver that has not been brought up.
    pub fn new() -> (driver: StatelessDriver)
        ensures
            !driver.initialized(),
    {
        StatelessDriver { state: InitState::new() }
    }

    /// The bring-up state of the driver.
    pub fn init_state(&self) -> (state: &InitState)
        ensures
            state.initialized() == self.initialized(),
    {
        &self.state
    }

    /// Brings the driver up by running `f` on `resources`, unless that has
    /// been done before: then nothing runs and the call is an error.
    pub fn init<R, F: FnOnce(R)>(&mut self, resources: R, f: F) -> (result: Result<(), ApiError>)
        requires
            !old(self).initialized() ==> f.requires((resources,)),
        ensures
            final(self).initialized(),
            result is Ok <==> !old(self).initialized(),
            result is Ok ==> f.ensures((resources,), ()),
            result is Err ==> result->Err_0@ == "driver already initialized"@,
    {
        if self.state.is_initialized() {
            Err(ApiError::driver_already_initialized())
        } else {
            self.state.init();
            f(resources);
            Ok(())
        }
    }
}

impl Default for StatelessDriver {
    fn default() -> (driver: StatelessDriver)
        ensures
            !driver.initialized(),
    {
        StatelessDriver::new()
    }
}

impl Driver for StatelessDriver {

}

impl Initialized for StatelessDriver {
    closed spec fn initialized(&self) -> bool {
        self.state.initialized()
    }

    fn init(&mut self) {
        self.state.ensure_is_initialized();
    }

    fn is_initialized(&self) -> (initialized: bool) {
        self.state.is_initialized()
    }
}

} // verus!
