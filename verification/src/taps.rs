//! Fixed-point tap vectors and their 164-byte wire frame.
//!
//! A tap vector holds `MAX_TAPS` complex FIR coefficients as signed 16-bit
//! components, reals first, imaginaries second, exactly as the emulator
//! hardware reads them.  Every component is saturated to
//! `[TAP_VALUE_MIN, TAP_VALUE_MAX]`.  The unverified shell computes the raw
//! complex amplitudes in floating point, truncates each component toward
//! zero into an `i32`, and hands those integers to this module, which owns
//! the saturation and the big-endian serialization bit-exactly.

use vstd::prelude::*;

verus! {

/// Length of the FIR filter in taps.
pub const MAX_TAPS: usize = 41;

/// Saturation bounds of every emitted tap component.
pub const TAP_VALUE_MAX: i16 = 32760;

pub const TAP_VALUE_MIN: i16 = -32760;

/// Byte length of one tap frame: `MAX_TAPS` big-endian i16 reals followed by
/// `MAX_TAPS` big-endian i16 imaginaries.
pub const TAP_FRAME_LEN: usize = 164;

/// Saturation of a raw component to the emitted range.
pub open spec fn clamp_tap_spec(v: int) -> int {
    if v < TAP_VALUE_MIN as int {
        TAP_VALUE_MIN as int
    } else if v > TAP_VALUE_MAX as int {
        TAP_VALUE_MAX as int
    } else {
        v
    }
}

/// Two's-complement 16-bit representation of a component, as an integer in
/// `[0, 0x10000)`.
pub open spec fn be_u16_repr(v: int) -> int {
    if v >= 0 {
        v
    } else {
        v + 0x10000
    }
}

pub open spec fn be16_hi(v: int) -> u8 {
    (be_u16_repr(v) / 256) as u8
}

pub open spec fn be16_lo(v: int) -> u8 {
    (be_u16_repr(v) % 256) as u8
}

/// The wire frame of a component sequence: each value as two big-endian
/// bytes, in order.
pub open spec fn tap_frame_spec(vals: Seq<i16>) -> Seq<u8> {
    Seq::new(
        vals.len() * 2,
        |i: int|
            if i % 2 == 0 {
                be16_hi(vals[i / 2] as int)
            } else {
                be16_lo(vals[i / 2] as int)
            },
    )
}

/// A quantized tap vector: component `i` is the real part of tap `i` for
/// `i < MAX_TAPS`, and the imaginary part of tap `i - MAX_TAPS` above that.
pub struct TapVector {
    pub values: Vec<i16>,
}

impl View for TapVector {
    type V = Seq<i16>;

    open spec fn view(&self) -> Seq<i16> {
        self.values@
    }
}

impl TapVector {
    /// Well-formed tap vectors hold one real and one imaginary component per
    /// tap, each inside the saturation bounds.
    pub open spec fn wf(self) -> bool {
        &&& self@.len() == 2 * MAX_TAPS
        &&& forall|i: int|
            0 <= i < self@.len() ==> TAP_VALUE_MIN as int <= #[trigger] self@[i] as int
                <= TAP_VALUE_MAX as int
    }

    /// The all-zero tap vector, the reactor's initial output buffer.
    pub fn zero() -> (t: TapVector)
        ensures
            t.wf(),
            forall|i: int| 0 <= i < t@.len() ==> #[trigger] t@[i] == 0i16,
    {
        let mut values: Vec<i16> = Vec::new();
        let mut k: usize = 0;
        while k < 2 * MAX_TAPS
            invariant
                k <= 2 * MAX_TAPS,
                values@.len() == k,
                forall|i: int| 0 <= i < k ==> #[trigger] values@[i] == 0i16,
            decreases 2 * MAX_TAPS - k,
        {
            values.push(0i16);
            k = k + 1;
        }
        TapVector { values }
    }

    /// Saturating quantization of both components of all `MAX_TAPS` taps.
    /// `components[i]` is the (real, imaginary) pair of tap `i`, already
    /// truncated toward zero by the caller.
    pub fn from_components(components: &Vec<(i32, i32)>) -> (t: TapVector)
        requires
            components@.len() == MAX_TAPS,
        ensures
            t.wf(),
            forall|i: int|
                0 <= i < MAX_TAPS ==> #[trigger] t@[i] as int == clamp_tap_spec(
                    components@[i].0 as int,
                ),
            forall|i: int|
                0 <= i < MAX_TAPS ==> #[trigger] t@[i + MAX_TAPS] as int == clamp_tap_spec(
                    components@[i].1 as int,
                ),
    {
        let mut values: Vec<i16> = Vec::new();
        let mut k: usize = 0;
        while k < MAX_TAPS
            invariant
                k <= MAX_TAPS,
                components@.len() == MAX_TAPS,
                values@.len() == k,
                forall|i: int|
                    0 <= i < k ==> #[trigger] values@[i] as int == clamp_tap_spec(
                        components@[i].0 as int,
                    ),
            decreases MAX_TAPS - k,
        {
            values.push(clamp_tap(components[k].0));
            k = k + 1;
        }
        let mut k: usize = 0;
        while k < MAX_TAPS
            invariant
                k <= MAX_TAPS,
                components@.len() == MAX_TAPS,
                values@.len() == MAX_TAPS + k,
                forall|i: int|
                    0 <= i < MAX_TAPS ==> #[trigger] values@[i] as int == clamp_tap_spec(
                        components@[i].0 as int,
                    ),
                forall|i: int|
                    0 <= i < k ==> #[trigger] values@[i + MAX_TAPS] as int == clamp_tap_spec(
                        components@[i].1 as int,
                    ),
            decreases MAX_TAPS - k,
        {
            values.push(clamp_tap(components[k].1));
            k = k + 1;
        }
        assert forall|i: int|
            0 <= i < values@.len() implies TAP_VALUE_MIN as int <= #[trigger] values@[i] as int
            <= TAP_VALUE_MAX as int by {
            if i < MAX_TAPS {
                assert(values@[i] as int == clamp_tap_spec(components@[i].0 as int));
            } else {
                let j = i - MAX_TAPS;
                assert(values@[j + MAX_TAPS] as int == clamp_tap_spec(components@[j].1 as int));
            }
        }
        TapVector { values }
    }

    /// The tap vector of manual attenuation: tap 0's real part is the
    /// saturated manual value, every other component is zero.
    pub fn manual(v: i32) -> (t: TapVector)
        ensures
            t.wf(),
            t@[0] as int == clamp_tap_spec(v as int),
            forall|i: int| 1 <= i < t@.len() ==> #[trigger] t@[i] == 0i16,
    {
        let mut values: Vec<i16> = Vec::new();
        values.push(clamp_tap(v));
        let mut k: usize = 1;
        while k < 2 * MAX_TAPS
            invariant
                1 <= k <= 2 * MAX_TAPS,
                values@.len() == k,
                values@[0] as int == clamp_tap_spec(v as int),
                forall|i: int| 1 <= i < k ==> #[trigger] values@[i] == 0i16,
            decreases 2 * MAX_TAPS - k,
        {
            values.push(0i16);
            k = k + 1;
        }
        TapVector { values }
    }

    /// The 164-byte frame of this vector: every component as two big-endian
    /// bytes, reals first.  This is exactly what the emulator socket is sent.
    pub fn to_bytes(&self) -> (b: Vec<u8>)
        ensures
            b@ == tap_frame_spec(self@),
            self.wf() ==> b@.len() == TAP_FRAME_LEN,
    {
        let n = self.values.len();
        let mut b: Vec<u8> = Vec::new();
        let mut k: usize = 0;
        while k < n
            invariant
                k <= n,
                n == self@.len(),
                b@.len() == 2 * k,
                forall|j: int| 0 <= j < 2 * k ==> #[trigger] b@[j] == tap_frame_spec(self@)[j],
            decreases n - k,
        {
            let v: i16 = self.values[k];
            let u: u16 = if v >= 0 {
                v as u16
            } else {
                ((v as i32) + 0x10000) as u16
            };
            assert(u as int == be_u16_repr(v as int));
            b.push((u / 256) as u8);
            b.push((u % 256) as u8);
            proof {
                let ki = k as int;
                assert(tap_frame_spec(self@)[2 * ki] == be16_hi(self@[ki] as int));
                assert(tap_frame_spec(self@)[2 * ki + 1] == be16_lo(self@[ki] as int));
                assert(b@[2 * ki] == be16_hi(v as int));
                assert(b@[2 * ki + 1] == be16_lo(v as int));
            }
            k = k + 1;
        }
        assert(b@ =~= tap_frame_spec(self@));
        b
    }
}

/// Saturation of one raw component.
pub fn clamp_tap(v: i32) -> (t: i16)
    ensures
        t as int == clamp_tap_spec(v as int),
{
    if v < TAP_VALUE_MIN as i32 {
        TAP_VALUE_MIN
    } else if v > TAP_VALUE_MAX as i32 {
        TAP_VALUE_MAX
    } else {
        v as i16
    }
}

/// The squared norm of one complex tap.
pub open spec fn norm_sq(re: int, im: int) -> int {
    re * re + im * im
}

/// Sum of the squared norms of the first `k` taps of a well-formed vector.
pub open spec fn tap_norm_sq_sum(vals: Seq<i16>, k: int) -> int
    decreases k,
{
    if k <= 0 {
        0
    } else {
        tap_norm_sq_sum(vals, k - 1) + norm_sq(
            vals[k - 1] as int,
            vals[(k - 1) + MAX_TAPS] as int,
        )
    }
}

/// Tap conservation: every component of a well-formed tap vector is
/// saturated to ±32760, so the sum of the squared norms of all taps is at
/// most `MAX_TAPS · 2 · 32760²`.  Equivalently, the sum of the tap norms is
/// bounded by `MAX_TAPS · 32760 · √2`.
pub proof fn lemma_tap_conservation(t: TapVector)
    requires
        t.wf(),
    ensures
        tap_norm_sq_sum(t@, MAX_TAPS as int) <= (MAX_TAPS as int) * 2 * 32760 * 32760,
{
    lemma_tap_norm_sq_sum_bound(t, MAX_TAPS as int);
}

proof fn lemma_tap_norm_sq_sum_bound(t: TapVector, k: int)
    requires
        t.wf(),
        0 <= k <= MAX_TAPS as int,
    ensures
        tap_norm_sq_sum(t@, k) <= k * 2 * 32760 * 32760,
    decreases k,
{
    if k > 0 {
        lemma_tap_norm_sq_sum_bound(t, k - 1);
        let re = t@[k - 1] as int;
        let im = t@[(k - 1) + MAX_TAPS] as int;
        assert(re * re <= 32760 * 32760 && im * im <= 32760 * 32760) by (nonlinear_arith)
            requires
                -32760 <= re <= 32760,
                -32760 <= im <= 32760,
        ;
        assert((k - 1) * 2 * 32760 * 32760 + 2 * 32760 * 32760 == k * 2 * 32760 * 32760)
            by (nonlinear_arith);
    }
}

} // verus!
