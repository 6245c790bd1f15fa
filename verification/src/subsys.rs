//! Decisions of the subsystems that the gateway runs on top of its drivers.
//! The subsystems themselves talk to the USB bus and to the network; what is
//! here says what they are to do next.

pub mod net;
pub mod usb;
