//! A 1-Wire bus transport over a half-duplex serial transceiver: the bit
//! encoding of the time slots, the reset and presence-detection sequence,
//! and the bookkeeping of the valve motor controller that consumes it.

pub mod motor_control;
pub mod ntc;
pub mod onewire;
pub mod reset;
