//! Complementary sinusoidal PWM for one inverter leg, switched on and off by a
//! debounced push button.
//!
//! - `table`: the dead-time-compensated pairs of duty cycles and the table
//!   that holds one period of them.
//! - `scheduler`: streams the table one sample at a time, at a fixed
//!   interval.
//! - `button`: the interrupt side of the button, which owns the button once
//!   it has been handed over and toggles the enable flag on each serviced
//!   edge.
//! - `control`: the foreground loop, which streams one period while the flag
//!   is set and holds both outputs at zero while it is not.
//!
//! The hardware stays with the caller. The library says what to write, how
//! long to wait and when to toggle; the caller owns the channels, the pins and
//! the clock, and carries that out.

pub mod button;
pub mod control;
pub mod scheduler;
pub mod table;
