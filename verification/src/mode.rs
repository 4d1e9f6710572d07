//! The five propagation modes and their stable integer encoding.

use vstd::prelude::*;

verus! {

/// Number of selectable modes; the gamepad cycles through them modulo this.
pub const NUM_MODES: u8 = 5;

/// Propagation mode of the emulator.  The integer codes are part of the wire
/// protocol (one-byte datagrams on the mode port) and must stay stable.
#[derive(Clone, Copy, Debug, PartialEq, Eq, Structural)]
pub enum Mode {
    /// Code 0: free-space path loss.
    AutomaticFreeSpace,
    /// Code 1: flat-earth two-ray.
    AutomaticFlatEarthTwoRay,
    /// Code 2: curved-earth two-ray.
    AutomaticCurvedEarthTwoRay,
    /// Code 3: nine-ray suburban.
    AutomaticNineRay,
    /// Code 4: manual fixed attenuation.
    Manual,
}

impl Mode {
    /// The stable integer encoding of this mode.
    pub open spec fn code_spec(self) -> u8 {
        match self {
            Mode::AutomaticFreeSpace => 0,
            Mode::AutomaticFlatEarthTwoRay => 1,
            Mode::AutomaticCurvedEarthTwoRay => 2,
            Mode::AutomaticNineRay => 3,
            Mode::Manual => 4,
        }
    }

    /// The mode a given code selects: codes 0 to 3 name the automatic
    /// models, every other byte selects manual attenuation.
    pub open spec fn from_code_spec(c: u8) -> Mode {
        if c == 0 {
            Mode::AutomaticFreeSpace
        } else if c == 1 {
            Mode::AutomaticFlatEarthTwoRay
        } else if c == 2 {
            Mode::AutomaticCurvedEarthTwoRay
        } else if c == 3 {
            Mode::AutomaticNineRay
        } else {
            Mode::Manual
        }
    }

    pub fn code(&self) -> (c: u8)
        ensures
            c == self.code_spec(),
            c < NUM_MODES,
    {
        match self {
            Mode::AutomaticFreeSpace => 0,
            Mode::AutomaticFlatEarthTwoRay => 1,
            Mode::AutomaticCurvedEarthTwoRay => 2,
            Mode::AutomaticNineRay => 3,
            Mode::Manual => 4,
        }
    }

    pub fn from_code(c: u8) -> (m: Mode)
        ensures
            m == Mode::from_code_spec(c),
    {
        if c == 0 {
            Mode::AutomaticFreeSpace
        } else if c == 1 {
            Mode::AutomaticFlatEarthTwoRay
        } else if c == 2 {
            Mode::AutomaticCurvedEarthTwoRay
        } else if c == 3 {
            Mode::AutomaticNineRay
        } else {
            Mode::Manual
        }
    }

    /// The next mode in the gamepad cycle: codes advance by one, modulo the
    /// number of modes.
    pub open spec fn cycle_spec(self) -> Mode {
        Mode::from_code_spec(((self.code_spec() + 1) % (NUM_MODES as int)) as u8)
    }

    pub fn cycle(&self) -> (m: Mode)
        ensures
            m == self.cycle_spec(),
            m.code_spec() == (self.code_spec() + 1) % (NUM_MODES as int),
    {
        let c = (self.code() + 1) % NUM_MODES;
        Mode::from_code(c)
    }
}

/// Decoding a code below `NUM_MODES` and re-encoding it round-trips.
pub proof fn lemma_mode_code_round_trip(c: u8)
    requires
        c < NUM_MODES,
    ensures
        Mode::from_code_spec(c).code_spec() == c,
{
}

/// The mode reached after `n` gamepad cycle steps.
pub open spec fn cycle_n_spec(m: Mode, n: nat) -> Mode
    decreases n,
{
    if n == 0 {
        m
    } else {
        cycle_n_spec(m, (n - 1) as nat).cycle_spec()
    }
}

/// Mode-cycle closure: five successive cycle steps return every mode to
/// itself, and the steps on the way visit the five codes in increasing
/// order, offset by the starting code, modulo five.
pub proof fn lemma_mode_cycle_closure(m: Mode)
    ensures
        cycle_n_spec(m, 5) == m,
        forall|n: nat|
            n <= 5 ==> #[trigger] cycle_n_spec(m, n).code_spec() == (m.code_spec() + n) % (
            NUM_MODES as int),
{
    assert forall|n: nat| n <= 5 implies #[trigger] cycle_n_spec(m, n).code_spec() == (
    m.code_spec() + n) % (NUM_MODES as int) by {
        lemma_mode_cycle_codes(m, n);
    }
    lemma_mode_cycle_codes(m, 5);
    lemma_mode_code_round_trip(m.code_spec());
    assert(cycle_n_spec(m, 5) == Mode::from_code_spec(cycle_n_spec(m, 5).code_spec()));
    assert(m == Mode::from_code_spec(m.code_spec()));
}

proof fn lemma_mode_cycle_codes(m: Mode, n: nat)
    requires
        n <= 5,
    ensures
        cycle_n_spec(m, n).code_spec() == (m.code_spec() + n) % (NUM_MODES as int),
    decreases n,
{
    if n > 0 {
        lemma_mode_cycle_codes(m, (n - 1) as nat);
    }
}

} // verus!
