//! A driver for the RM67162 AMOLED display controller on a quad SPI bus.
//!
//! The driver decides, and proves, what goes on the bus: every operation
//! yields the exact list of chip-select, reset, delay, write and read actions
//! that carries it out. The caller performs them in order on its transport and
//! stops at the first failure, releasing chip select as `bus::after_failure` says.
use vstd::prelude::*;

pub mod bus;
pub mod draw_target;
pub mod laws;
pub mod orientation;
pub mod rm67162;

verus! {

} // verus!
