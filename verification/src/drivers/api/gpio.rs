//! General purpose pins.

use vstd::prelude::*;

verus! {

/// The output pins that the firmware drives.
#[derive(Debug, Clone, Copy, PartialEq, Eq, Structural)]
pub enum GpioOutputPin {
    LED,
}

/// A driver that gives access to the output pins by name.
pub trait GpioDriver {
    /// The pins as the hardware layer has them.
    type Pin;

    /// Whether the driver has been brought up.
    spec fn ready(&self) -> bool;

    /// The pin of that name.
    spec fn pin(&self, name: GpioOutputPin) -> Self::Pin;

    /// Runs `f` on the pin of that name.
    fn with_output_pin<F: FnOnce(&Self::Pin)>(&self, name: GpioOutputPin, f: F)
        requires
            self.ready(),
            f.requires((&self.pin(name),)),
        ensures
            f.ensures((&self.pin(name),), ()),
    ;

    /// Runs `f` on the pin of that name, which `f` may change.
    fn with_output_pin_mut<F: FnOnce(&mut Self::Pin)>(&mut self, name: GpioOutputPin, f: F)
        requires
            old(self).ready(),
            forall|pin: &mut Self::Pin| *pin == old(self).pin(name) ==> f.requires((pin,)),
        ensures
            final(self).ready(),
            exists|pin: &mut Self::Pin|
                *pin == old(self).pin(name) && *final(pin) == final(self).pin(name) && f.ensures(
                    (pin,),
                    (),
                ),
    ;
}

} // verus!
