//! Interrupt-controller and generic-timer subsystem for the S32Z2 Cortex-R52
//! cores, stated over a register-level model of the hardware.

pub mod intid;
pub mod timer;
pub mod gic;
pub mod dispatch;
pub mod clocks;
