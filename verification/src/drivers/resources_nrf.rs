//! The registry of hardware register blocks.
//!
//! The blocks of the chip are handed over once and stored in one slot each.
//! A driver claims its block by moving it out of the slot, which leaves the
//! slot empty for good: no second driver can get hold of the same block.

use vstd::prelude::*;

verus! {

/// The register blocks of a chip that the drivers are built on. The types
/// are chip specific and opaque to the registry, which only moves them.
pub trait RegisterBlocks {
    /// Power management.
    type Power;

    /// Clock control.
    type Clock;

    /// Random number generator.
    type Rng;

    /// GPIO port 0.
    type P0;

    /// Real-time counter 0.
    type Rtc0;

    /// USB device controller.
    type Usbd;
}

/// One slot per register block. A slot is empty once its block has been
/// moved into a driver.
pub struct NrfResources<B: RegisterBlocks> {
    pub power: Option<B::Power>,
    pub clock: Option<B::Clock>,
    pub rng: Option<B::Rng>,
    pub p0: Option<B::P0>,
    pub rtc0: Option<B::Rtc0>,
    pub usbd: Option<B::Usbd>,
}

impl<B: RegisterBlocks> NrfResources<B> {
    /// Number of blocks that no driver has claimed yet.
    pub open spec fn unclaimed(&self) -> nat {
        let power: nat = if self.power is Some { 1 } else { 0 };
        let clock: nat = if self.clock is Some { 1 } else { 0 };
        let rng: nat = if self.rng is Some { 1 } else { 0 };
        let p0: nat = if self.p0 is Some { 1 } else { 0 };
        let rtc0: nat = if self.rtc0 is Some { 1 } else { 0 };
        let usbd: nat = if self.usbd is Some { 1 } else { 0 };
        power + clock + rng + p0 + rtc0 + usbd
    }
}

/// Transfers ownership of the register blocks to the registry, one block per
/// slot.
pub fn transfer<B: RegisterBlocks>(
    power: B::Power,
    clock: B::Clock,
    rng: B::Rng,
    p0: B::P0,
    rtc0: B::Rtc0,
    usbd: B::Usbd,
) -> (resources: NrfResources<B>)
    ensures
        resources.power == Some(power),
        resources.clock == Some(clock),
        resources.rng == Some(rng),
        resources.p0 == Some(p0),
        resources.rtc0 == Some(rtc0),
        resources.usbd == Some(usbd),
        resources.unclaimed() == 6,
{
    NrfResources {
        power: Some(power),
        clock: Some(clock),
        rng: Some(rng),
        p0: Some(p0),
        rtc0: Some(rtc0),
        usbd: Some(usbd),
    }
}

} // verus!
