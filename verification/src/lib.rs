//! Driver core for a real-time radio-channel emulator.
//!
//! A stream of transmitter positions plus asynchronous mode and scale events
//! is turned into 164-byte complex FIR tap frames for the emulator hardware.
//! This crate holds the verified core: the wire formats on every UDP port,
//! the fixed-point tap quantizer and frame serializer, the propagation-mode
//! state machine, the gamepad control logic, the reactor that merges the
//! event sources, and the on/off schedule of the nine-ray model's
//! intermittent rays.  The floating-point ray geometry itself and all socket
//! work live in the unverified shell around this crate.

pub mod event;
pub mod gamepad;
pub mod mode;
pub mod nineray;
pub mod reactor;
pub mod taps;
pub mod wire;
