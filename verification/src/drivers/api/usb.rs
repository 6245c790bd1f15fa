//! The USB bus.

use vstd::prelude::*;

verus! {

/// A driver that gives access to the USB bus.
pub trait UsbDriver<B: 'static> {
    /// Whether the driver has been brought up.
    spec fn attached(&self) -> bool;

    /// The bus that the driver has attached.
    spec fn attached_bus(&self) -> &'static B;

    fn bus(&self) -> (bus: &'static B)
        requires
            self.attached(),
        ensures
            bus == self.attached_bus(),
    ;
}

} // verus!
