//! The reactor: one consumer that folds the event stream into tap frames.
//!
//! Events are handled strictly in receive order.  Mode changes to an
//! automatic model update the state and broadcast the new mode but emit
//! nothing; a manual mode change recomputes the manual tap and emits; a
//! position sample emits exactly one tap frame while an automatic model is
//! selected and nothing in manual mode; a scaling change only updates state.
//! The floating-point work (path geometry, tap synthesis, the manual
//! amplitude) happens outside: `step` hands back an [`Effect`] naming the
//! computation, and the shell feeds the truncated integer components back in
//! through [`Reactor::apply_manual`] or [`Reactor::apply_components`], which
//! build the emission bit-exactly.

use vstd::prelude::*;

use crate::event::{Event, ManualSetting, PositionSample};
use crate::mode::Mode;
use crate::taps::{clamp_tap_spec, tap_frame_spec, TapVector, MAX_TAPS, TAP_FRAME_LEN};
use crate::wire::{f32_bits_of_uint, f32_bits_spec, tagged_frame, GUI_TAG_TAPS};

verus! {

/// Default scaling coefficient applied to every computed tap amplitude.
/// Empirical calibration value, not a physical constant.
pub const MAGIC_SCALING_COEFF: u32 = 30000;

/// Default manual attenuation in decibels.
pub const DEFAULT_MANUAL_DB: u8 = 50;

/// What the shell must do after a `step`.
pub enum Effect {
    /// State is updated; nothing to compute, broadcast or send.
    Quiet,
    /// A new automatic mode: broadcast its code to the gamepad poller.
    Broadcast { mode_code: u8 },
    /// Manual mode entered or changed: broadcast the manual mode code,
    /// compute the manual tap amplitude `32767 / 10^(db/20) · κ` with the
    /// scaling coefficient `κ` of these bits, truncate it toward zero, and
    /// feed it to [`Reactor::apply_manual`].
    ComputeManual { db: u8, scaling_bits: u32 },
    /// A position sample in an automatic mode: run the model (or the
    /// near-field pass-through), synthesize the complex taps with this
    /// scaling coefficient, truncate each component toward zero, and feed
    /// the `MAX_TAPS` pairs to [`Reactor::apply_components`].
    ComputePaths { model: Mode, position: PositionSample, scaling_bits: u32 },
}

/// One emission: the raw 164-byte frame for the emulator socket and the
/// tagged copy for the GUI mirror.
pub struct Emission {
    pub emulator_frame: Vec<u8>,
    pub gui_frame: Vec<u8>,
}

/// The reactor's state.
pub struct Reactor {
    /// Currently selected propagation mode.
    pub mode: Mode,
    /// IEEE-754 bits of the scaling coefficient; carried, never interpreted.
    pub scaling_bits: u32,
    /// Last manual attenuation in decibels.
    pub last_manual_db: u8,
    /// The tap vector emitted last (all zero before the first emission).
    pub taps: TapVector,
}

impl Reactor {
    pub open spec fn wf(self) -> bool {
        &&& self.last_manual_db <= 120
        &&& self.taps.wf()
    }

    /// The initial state: free-space mode, default manual attenuation,
    /// default scaling coefficient, all taps zero.
    pub fn new() -> (r: Reactor)
        ensures
            r.wf(),
            r.mode == Mode::AutomaticFreeSpace,
            r.last_manual_db == DEFAULT_MANUAL_DB,
            r.scaling_bits as nat == f32_bits_spec(MAGIC_SCALING_COEFF as nat),
            forall|i: int| 0 <= i < r.taps@.len() ==> #[trigger] r.taps@[i] == 0i16,
    {
        Reactor {
            mode: Mode::AutomaticFreeSpace,
            scaling_bits: f32_bits_of_uint(MAGIC_SCALING_COEFF),
            last_manual_db: DEFAULT_MANUAL_DB,
            taps: TapVector::zero(),
        }
    }

    /// Handles one event: updates the state and names the work the shell
    /// has to do.  No event changes the stored tap vector here; only the
    /// `apply` methods do, so a `Quiet` or `Broadcast` effect means nothing
    /// is emitted for this event.
    pub fn step(&mut self, event: Event) -> (e: Effect)
        requires
            old(self).wf(),
            event.wf(),
        ensures
            final(self).wf(),
            final(self).taps == old(self).taps,
            match event {
                Event::ModeAutomaticFreeSpace => {
                    &&& final(self).mode == Mode::AutomaticFreeSpace
                    &&& final(self).scaling_bits == old(self).scaling_bits
                    &&& final(self).last_manual_db == old(self).last_manual_db
                    &&& e matches Effect::Broadcast { mode_code } && mode_code == 0
                },
                Event::ModeAutomaticFlatEarthTwoRay => {
                    &&& final(self).mode == Mode::AutomaticFlatEarthTwoRay
                    &&& final(self).scaling_bits == old(self).scaling_bits
                    &&& final(self).last_manual_db == old(self).last_manual_db
                    &&& e matches Effect::Broadcast { mode_code } && mode_code == 1
                },
                Event::ModeAutomaticCurvedEarthTwoRay => {
                    &&& final(self).mode == Mode::AutomaticCurvedEarthTwoRay
                    &&& final(self).scaling_bits == old(self).scaling_bits
                    &&& final(self).last_manual_db == old(self).last_manual_db
                    &&& e matches Effect::Broadcast { mode_code } && mode_code == 2
                },
                Event::ModeAutomaticNineRay => {
                    &&& final(self).mode == Mode::AutomaticNineRay
                    &&& final(self).scaling_bits == old(self).scaling_bits
                    &&& final(self).last_manual_db == old(self).last_manual_db
                    &&& e matches Effect::Broadcast { mode_code } && mode_code == 3
                },
                Event::ModeManual(setting) => {
                    &&& final(self).mode == Mode::Manual
                    &&& final(self).scaling_bits == old(self).scaling_bits
                    &&& final(self).last_manual_db == (match setting {
                        ManualSetting::Explicit(v) => v,
                        ManualSetting::Keep => old(self).last_manual_db,
                    })
                    &&& e == (Effect::ComputeManual {
                        db: final(self).last_manual_db,
                        scaling_bits: old(self).scaling_bits,
                    })
                },
                Event::Value(p) => {
                    &&& final(self).mode == old(self).mode
                    &&& final(self).scaling_bits == old(self).scaling_bits
                    &&& final(self).last_manual_db == old(self).last_manual_db
                    &&& e == (if old(self).mode is Manual {
                        Effect::Quiet
                    } else {
                        Effect::ComputePaths {
                            model: old(self).mode,
                            position: p,
                            scaling_bits: old(self).scaling_bits,
                        }
                    })
                },
                Event::ScalingCoeff(bits) => {
                    &&& final(self).mode == old(self).mode
                    &&& final(self).scaling_bits == bits
                    &&& final(self).last_manual_db == old(self).last_manual_db
                    &&& e is Quiet
                },
            },
    {
        match event {
            Event::ModeAutomaticFreeSpace => {
                self.mode = Mode::AutomaticFreeSpace;
                Effect::Broadcast { mode_code: 0 }
            },
            Event::ModeAutomaticFlatEarthTwoRay => {
                self.mode = Mode::AutomaticFlatEarthTwoRay;
                Effect::Broadcast { mode_code: 1 }
            },
            Event::ModeAutomaticCurvedEarthTwoRay => {
                self.mode = Mode::AutomaticCurvedEarthTwoRay;
                Effect::Broadcast { mode_code: 2 }
            },
            Event::ModeAutomaticNineRay => {
                self.mode = Mode::AutomaticNineRay;
                Effect::Broadcast { mode_code: 3 }
            },
            Event::ModeManual(setting) => {
                self.mode = Mode::Manual;
                match setting {
                    ManualSetting::Explicit(v) => {
                        self.last_manual_db = v;
                    },
                    ManualSetting::Keep => {},
                }
                Effect::ComputeManual {
                    db: self.last_manual_db,
                    scaling_bits: self.scaling_bits,
                }
            },
            Event::Value(_p) => {
                if matches!(self.mode, Mode::Manual) {
                    Effect::Quiet
                } else {
                    Effect::ComputePaths {
                        model: self.mode,
                        position: _p,
                        scaling_bits: self.scaling_bits,
                    }
                }
            },
            Event::ScalingCoeff(bits) => {
                self.scaling_bits = bits;
                Effect::Quiet
            },
        }
    }

    /// Stores the manual tap vector for this truncated amplitude and builds
    /// the emission: tap 0's real part is the saturated value, everything
    /// else is zero.
    pub fn apply_manual(&mut self, value: i32) -> (out: Emission)
        requires
            old(self).wf(),
        ensures
            final(self).wf(),
            final(self).mode == old(self).mode,
            final(self).scaling_bits == old(self).scaling_bits,
            final(self).last_manual_db == old(self).last_manual_db,
            final(self).taps@[0] as int == clamp_tap_spec(value as int),
            forall|i: int|
                1 <= i < final(self).taps@.len() ==> #[trigger] final(self).taps@[i] == 0i16,
            out.emulator_frame@ == tap_frame_spec(final(self).taps@),
            out.emulator_frame@.len() == TAP_FRAME_LEN,
            out.gui_frame@ == seq![GUI_TAG_TAPS] + tap_frame_spec(final(self).taps@),
    {
        self.taps = TapVector::manual(value);
        let emulator_frame = self.taps.to_bytes();
        let gui_frame = tagged_frame(GUI_TAG_TAPS, &emulator_frame);
        Emission { emulator_frame, gui_frame }
    }

    /// Stores the tap vector quantized from these truncated complex
    /// components and builds the emission.
    pub fn apply_components(&mut self, components: &Vec<(i32, i32)>) -> (out: Emission)
        requires
            old(self).wf(),
            components@.len() == MAX_TAPS,
        ensures
            final(self).wf(),
            final(self).mode == old(self).mode,
            final(self).scaling_bits == old(self).scaling_bits,
            final(self).last_manual_db == old(self).last_manual_db,
            forall|i: int|
                0 <= i < MAX_TAPS ==> #[trigger] final(self).taps@[i] as int == clamp_tap_spec(
                    components@[i].0 as int,
                ),
            forall|i: int|
                0 <= i < MAX_TAPS ==> #[trigger] final(self).taps@[i + MAX_TAPS] as int
                    == clamp_tap_spec(components@[i].1 as int),
            out.emulator_frame@ == tap_frame_spec(final(self).taps@),
            out.emulator_frame@.len() == TAP_FRAME_LEN,
            out.gui_frame@ == seq![GUI_TAG_TAPS] + tap_frame_spec(final(self).taps@),
    {
        self.taps = TapVector::from_components(components);
        let emulator_frame = self.taps.to_bytes();
        let gui_frame = tagged_frame(GUI_TAG_TAPS, &emulator_frame);
        Emission { emulator_frame, gui_frame }
    }
}

} // verus!
