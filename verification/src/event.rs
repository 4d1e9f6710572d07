//! Events that the reactor consumes.
//!
//! All three input adapters (position port, mode/scale port, gamepad) funnel
//! their work into one FIFO of these events.  Floating-point payloads cross
//! the boundary as their IEEE-754 bit patterns, which the verified core
//! carries but never interprets arithmetically.

use vstd::prelude::*;

verus! {

/// One position sample: the six big-endian 32-bit words of the datagram, in
/// wire order.  Each word is the IEEE-754 bit pattern of one float; the
/// attitude words are received but ignored by the engine.
#[derive(Clone, Copy, Debug, PartialEq, Eq, Structural)]
pub struct PositionSample {
    pub x_bits: u32,
    pub y_bits: u32,
    pub z_bits: u32,
    pub roll_bits: u32,
    pub pitch_bits: u32,
    pub yaw_bits: u32,
}

/// What a manual mode change says about the attenuation value: the network
/// path sends a sentinel that keeps the previous value, the gamepad sends an
/// explicit value in decibels.
#[derive(Clone, Copy, Debug, PartialEq, Eq, Structural)]
pub enum ManualSetting {
    /// Keep the last manual attenuation (the sentinel of a negative value).
    Keep,
    /// Set the manual attenuation to this many decibels.
    Explicit(u8),
}

/// One event on the reactor's queue.
#[derive(Clone, Copy, Debug, PartialEq, Eq, Structural)]
pub enum Event {
    ModeManual(ManualSetting),
    ModeAutomaticFreeSpace,
    ModeAutomaticFlatEarthTwoRay,
    ModeAutomaticCurvedEarthTwoRay,
    ModeAutomaticNineRay,
    /// A position update, one per inbound position datagram.
    Value(PositionSample),
    /// A new scaling coefficient, as its IEEE-754 bit pattern.
    ScalingCoeff(u32),
}

impl Event {
    /// Events the adapters are allowed to enqueue: an explicit manual value
    /// is always a clamped decibel number.
    pub open spec fn wf(self) -> bool {
        self matches Event::ModeManual(ManualSetting::Explicit(v)) ==> v <= 120
    }
}

} // verus!
