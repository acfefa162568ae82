//! Board logic for the OrangePi 5 Plus (RK3588): the GPIO controller front end,
//! the LED, timer, PMU and GICv3 exercise programs, and the rules that decide
//! what they do.  Register access itself belongs to the board drivers; every
//! function here computes the commands to issue and judges the readings that
//! come back.
use vstd::prelude::*;

pub mod gicv3;
pub mod gpio;
pub mod led;
pub mod pmu;
pub mod timer;

verus! {

} // verus!
