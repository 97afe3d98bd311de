//! Clock tree of the microcontroller: oscillators, PLLs, bus prescalers and
//! the voltage scale that bounds them.

pub mod error;
pub mod source;
pub mod bus;
pub mod pll;
pub mod plan;
pub mod unit;
