//! Peripheral-control core for a small single-core kernel: a GPIO controller, a PL011
//! serial controller with its interrupt-driven command console, and a pin-animation
//! scheduler, all expressed over a verified model of the devices' register files.
use vstd::prelude::*;

pub mod bus;
pub mod gpio;
pub mod console;
pub mod uart;
pub mod patterns;
pub mod board;
pub mod dhrystone;
