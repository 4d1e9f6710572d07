//! Byte-level wire formats of the three UDP ports and of the GUI mirror.

use vstd::arithmetic::power2::{
    lemma2_to64,
    lemma_pow2_adds,
    lemma_pow2_strictly_increases,
    lemma_pow2_unfold,
    pow2,
};
use vstd::prelude::*;

use crate::event::{Event, ManualSetting, PositionSample};
use crate::mode::Mode;

verus! {

/// Exact length of a well-formed position datagram: six big-endian f32.
pub const POSITION_DATAGRAM_LEN: usize = 24;

/// Leading byte of a position mirror to the GUI (ASCII 'P').
pub const GUI_TAG_POSITION: u8 = 80;

/// Leading byte of a tap-vector mirror to the GUI (ASCII 'T').
pub const GUI_TAG_TAPS: u8 = 84;

/// Leading byte of a mode-status packet to the GUI (ASCII 'M').
pub const GUI_TAG_MODE: u8 = 77;

/// The big-endian 32-bit word at `off` in `bytes`.
pub open spec fn be_u32_spec(bytes: Seq<u8>, off: int) -> int {
    bytes[off] * 0x1000000 + bytes[off + 1] * 0x10000 + bytes[off + 2] * 0x100 + bytes[off + 3]
}

/// The four big-endian bytes of a 32-bit word `w`.
pub open spec fn be_u32_bytes_spec(w: int) -> Seq<u8> {
    seq![
        ((w / 0x1000000) % 256) as u8,
        ((w / 0x10000) % 256) as u8,
        ((w / 0x100) % 256) as u8,
        (w % 256) as u8,
    ]
}

/// Reads the big-endian 32-bit word at `off`.
pub fn read_be_u32(buf: &Vec<u8>, off: usize) -> (w: u32)
    requires
        off + 4 <= buf@.len(),
    ensures
        w as int == be_u32_spec(buf@, off as int),
{
    let _n = buf.len();
    (buf[off] as u32) * 0x1000000 + (buf[off + 1] as u32) * 0x10000 + (buf[off + 2] as u32) * 0x100
        + (buf[off + 3] as u32)
}

/// Appends the four big-endian bytes of `w` to `out`.
pub fn push_be_u32(out: &mut Vec<u8>, w: u32)
    ensures
        final(out)@ == old(out)@ + be_u32_bytes_spec(w as int),
{
    out.push((w / 0x1000000) as u8);
    out.push(((w / 0x10000) % 256) as u8);
    out.push(((w / 0x100) % 256) as u8);
    out.push((w % 256) as u8);
    proof {
        assert((w as int / 0x1000000) % 256 == w as int / 0x1000000);
        assert(out@ =~= old(out)@ + be_u32_bytes_spec(w as int));
    }
}

/// Serializing a 32-bit word big-endian and reading it back yields the
/// word: the two byte-order specs agree.
pub proof fn lemma_be_u32_round_trip(w: u32)
    ensures
        be_u32_spec(be_u32_bytes_spec(w as int), 0) == w as int,
{
    let x = w as int;
    let q1 = x / 0x100;
    let q2 = x / 0x10000;
    let q3 = x / 0x1000000;
    vstd::arithmetic::div_mod::lemma_div_denominator(x, 0x100, 0x100);
    vstd::arithmetic::div_mod::lemma_div_denominator(x, 0x10000, 0x100);
    assert(q2 == q1 / 0x100);
    assert(q3 == q2 / 0x100);
    vstd::arithmetic::div_mod::lemma_fundamental_div_mod(x, 0x100);
    vstd::arithmetic::div_mod::lemma_fundamental_div_mod(q1, 0x100);
    vstd::arithmetic::div_mod::lemma_fundamental_div_mod(q2, 0x100);
    vstd::arithmetic::div_mod::lemma_div_is_ordered(x, 0xffffffff, 0x1000000);
    assert(q3 % 256 == q3) by {
        vstd::arithmetic::div_mod::lemma_small_mod(q3 as nat, 256);
    }
}

/// Floor of the base-2 logarithm; 0 below 2.
pub open spec fn ilog2(n: nat) -> nat
    decreases n,
{
    if n < 2 {
        0
    } else {
        (1 + ilog2(n / 2)) as nat
    }
}

/// The IEEE-754 single-precision bit pattern of a small non-negative
/// integer.  Every integer below 2^24 is exactly representable: the exponent
/// field is `127 + ilog2(n)` and the mantissa field is the normalized value
/// with the leading bit dropped.
pub open spec fn f32_bits_spec(n: nat) -> nat {
    if n == 0 {
        0
    } else {
        ((127 + ilog2(n)) * pow2(23) + n * pow2((23 - ilog2(n)) as nat) - pow2(23)) as nat
    }
}

proof fn lemma_ilog2_bounds(n: nat)
    requires
        n >= 1,
    ensures
        pow2(ilog2(n)) <= n < pow2(ilog2(n) + 1),
    decreases n,
{
    lemma2_to64();
    if n < 2 {
    } else {
        lemma_ilog2_bounds(n / 2);
        lemma_pow2_unfold(ilog2(n) + 1);
        lemma_pow2_unfold(ilog2(n));
        assert(2 * (n / 2) <= n < 2 * (n / 2) + 2);
    }
}

/// The bit pattern of `n` as an `f32`, computed exactly in integer
/// arithmetic.  The mode-status packet to the GUI carries the manual
/// attenuation as a big-endian float, and the reactor's default scaling
/// coefficient is such a pattern too.
pub fn f32_bits_of_uint(n: u32) -> (bits: u32)
    requires
        n < 0x1000000,
    ensures
        bits as nat == f32_bits_spec(n as nat),
{
    if n == 0 {
        return 0u32;
    }
    proof {
        lemma_ilog2_bounds(n as nat);
        lemma2_to64();
        if ilog2(n as nat) >= 24 {
            if ilog2(n as nat) > 24 {
                lemma_pow2_strictly_increases(24, ilog2(n as nat));
            }
            assert(pow2(24) <= pow2(ilog2(n as nat)));
            assert(false);
        }
        assert(ilog2(n as nat) <= 23);
    }
    let mut e: u32 = 0;
    let mut m: u32 = n;
    while m >= 2
        invariant
            1 <= m <= n,
            ilog2(n as nat) == e + ilog2(m as nat),
            e <= ilog2(n as nat),
            ilog2(n as nat) <= 23,
        decreases m,
    {
        m = m / 2;
        e = e + 1;
    }
    assert(e == ilog2(n as nat));
    let mut frac: u32 = n;
    let mut sh: u32 = 23 - e;
    proof {
        lemma2_to64();
        assert(n < pow2((e + 1) as nat));
        assert(pow2(0) == 1);
        assert(sh == 23 - e);
        assert((23 - e - sh) as nat == 0);
        assert(n as nat * pow2(0) == n as nat);
        assert(frac as nat == n as nat * pow2((23 - e - sh) as nat));
        assert(24 - sh == e + 1);
        assert(frac < pow2((24 - sh) as nat));
    }
    while sh > 0
        invariant
            sh <= 23 - e,
            e == ilog2(n as nat),
            e <= 23,
            1 <= n < 0x1000000,
            n < pow2((e + 1) as nat),
            frac as nat == n as nat * pow2((23 - e - sh) as nat),
            frac < pow2((24 - sh) as nat),
        decreases sh,
    {
        proof {
            lemma2_to64();
            lemma_pow2_strictly_increases((24 - sh) as nat, 24);
            lemma_pow2_unfold((23 - e - sh + 1) as nat);
            lemma_pow2_unfold((24 - sh + 1) as nat);
            let p = pow2((23 - e - sh) as nat);
            assert(2 * (n as nat * p) == n as nat * (2 * p)) by (nonlinear_arith);
            lemma_pow2_unfold((24 - sh) as nat);
        }
        frac = frac * 2;
        sh = sh - 1;
    }
    proof {
        lemma2_to64();
        assert(frac as nat == n as nat * pow2((23 - e) as nat));
        lemma_pow2_adds(e as nat, (23 - e) as nat);
        assert(pow2(e as nat) * pow2((23 - e) as nat) == pow2(23));
        assert(n as nat * pow2((23 - e) as nat) >= pow2(e as nat) * pow2((23 - e) as nat))
            by (nonlinear_arith)
            requires
                n as nat >= pow2(e as nat),
        ;
        assert(frac >= 0x800000);
        assert(frac < pow2(24));
    }
    (127 + e) * 0x800000 + frac - 0x800000
}

/// The 24-byte prefix of the spurious datagrams that a well-known file
/// synchronizer emits on the position port; they are dropped silently.
pub open spec fn powerfolder_prefix_spec() -> Seq<u8> {
    seq![
        80u8,
        111u8,
        119u8,
        101u8,
        114u8,
        70u8,
        111u8,
        108u8,
        100u8,
        101u8,
        114u8,
        32u8,
        110u8,
        111u8,
        100u8,
        101u8,
        58u8,
        32u8,
        91u8,
        49u8,
        51u8,
        51u8,
        55u8,
        93u8,
    ]
}

fn powerfolder_prefix() -> (v: Vec<u8>)
    ensures
        v@ == powerfolder_prefix_spec(),
{
    let mut v: Vec<u8> = Vec::new();
    v.push(80u8);
    v.push(111u8);
    v.push(119u8);
    v.push(101u8);
    v.push(114u8);
    v.push(70u8);
    v.push(111u8);
    v.push(108u8);
    v.push(100u8);
    v.push(101u8);
    v.push(114u8);
    v.push(32u8);
    v.push(110u8);
    v.push(111u8);
    v.push(100u8);
    v.push(101u8);
    v.push(58u8);
    v.push(32u8);
    v.push(91u8);
    v.push(49u8);
    v.push(51u8);
    v.push(51u8);
    v.push(55u8);
    v.push(93u8);
    assert(v@ =~= powerfolder_prefix_spec());
    v
}

/// Whether the first 24 bytes of `buf` are the known spurious prefix.
pub fn has_powerfolder_prefix(buf: &Vec<u8>) -> (r: bool)
    requires
        buf@.len() >= 24,
    ensures
        r == (buf@.subrange(0, 24) == powerfolder_prefix_spec()),
{
    let p = powerfolder_prefix();
    let mut i: usize = 0;
    while i < 24
        invariant
            i <= 24,
            buf@.len() >= 24,
            p@ == powerfolder_prefix_spec(),
            forall|j: int| 0 <= j < i ==> #[trigger] buf@[j] == powerfolder_prefix_spec()[j],
        decreases 24 - i,
    {
        if buf[i] != p[i] {
            proof {
                assert(buf@.subrange(0, 24)[i as int] == buf@[i as int]);
            }
            return false;
        }
        i = i + 1;
    }
    proof {
        assert(buf@.subrange(0, 24) =~= powerfolder_prefix_spec());
    }
    true
}

/// What arrived on the position port.
#[derive(Clone, Copy, Debug, PartialEq, Eq, Structural)]
pub enum PositionPacket {
    /// A well-formed 24-byte sample, to be enqueued and mirrored to the GUI.
    Position(PositionSample),
    /// A spurious datagram with the known prefix: dropped without a warning.
    Ignored,
    /// Any other length: logged as a warning and dropped.
    Malformed,
}

/// Classifies one datagram of `len` bytes received into `buf` on the
/// position port.  A 24-byte payload is a position sample; a longer payload
/// with the known spurious prefix produces no event and no warning; anything
/// else is malformed.
pub fn classify_position_datagram(buf: &Vec<u8>, len: usize) -> (r: PositionPacket)
    requires
        len <= buf@.len(),
    ensures
        len == POSITION_DATAGRAM_LEN ==> r == PositionPacket::Position(
            PositionSample {
                x_bits: be_u32_spec(buf@, 0) as u32,
                y_bits: be_u32_spec(buf@, 4) as u32,
                z_bits: be_u32_spec(buf@, 8) as u32,
                roll_bits: be_u32_spec(buf@, 12) as u32,
                pitch_bits: be_u32_spec(buf@, 16) as u32,
                yaw_bits: be_u32_spec(buf@, 20) as u32,
            },
        ),
        len != POSITION_DATAGRAM_LEN ==> (r == PositionPacket::Ignored <==> (len
            > POSITION_DATAGRAM_LEN && buf@.subrange(0, 24) == powerfolder_prefix_spec())),
        len != POSITION_DATAGRAM_LEN ==> (r == PositionPacket::Ignored || r
            == PositionPacket::Malformed),
    {
    if len == POSITION_DATAGRAM_LEN {
        let sample = PositionSample {
            x_bits: read_be_u32(buf, 0),
            y_bits: read_be_u32(buf, 4),
            z_bits: read_be_u32(buf, 8),
            roll_bits: read_be_u32(buf, 12),
            pitch_bits: read_be_u32(buf, 16),
            yaw_bits: read_be_u32(buf, 20),
        };
        PositionPacket::Position(sample)
    } else if len > POSITION_DATAGRAM_LEN && has_powerfolder_prefix(buf) {
        PositionPacket::Ignored
    } else {
        PositionPacket::Malformed
    }
}

/// The reactor event a one-byte mode selection produces: codes 0 to 3 select
/// the automatic models, every other byte selects manual attenuation with
/// the keep-previous sentinel.
pub open spec fn mode_select_event_spec(c: u8) -> Event {
    match Mode::from_code_spec(c) {
        Mode::AutomaticFreeSpace => Event::ModeAutomaticFreeSpace,
        Mode::AutomaticFlatEarthTwoRay => Event::ModeAutomaticFlatEarthTwoRay,
        Mode::AutomaticCurvedEarthTwoRay => Event::ModeAutomaticCurvedEarthTwoRay,
        Mode::AutomaticNineRay => Event::ModeAutomaticNineRay,
        Mode::Manual => Event::ModeManual(ManualSetting::Keep),
    }
}

/// Classifies one datagram of `len` bytes received into `buf` on the
/// mode/scale port.  One byte selects a mode, four bytes replace the scaling
/// coefficient, anything else is dropped with a warning (`None`).
pub fn classify_control_datagram(buf: &Vec<u8>, len: usize) -> (r: Option<Event>)
    requires
        len <= buf@.len(),
    ensures
        len == 1 ==> r == Some(mode_select_event_spec(buf@[0])),
        len == 4 ==> r == Some(Event::ScalingCoeff(be_u32_spec(buf@, 0) as u32)),
        len != 1 && len != 4 ==> r is None,
        r matches Some(e) ==> e.wf(),
{
    if len == 1 {
        let c = buf[0];
        let ev = match Mode::from_code(c) {
            Mode::AutomaticFreeSpace => Event::ModeAutomaticFreeSpace,
            Mode::AutomaticFlatEarthTwoRay => Event::ModeAutomaticFlatEarthTwoRay,
            Mode::AutomaticCurvedEarthTwoRay => Event::ModeAutomaticCurvedEarthTwoRay,
            Mode::AutomaticNineRay => Event::ModeAutomaticNineRay,
            Mode::Manual => Event::ModeManual(ManualSetting::Keep),
        };
        Some(ev)
    } else if len == 4 {
        Some(Event::ScalingCoeff(read_be_u32(buf, 0)))
    } else {
        None
    }
}

/// A GUI mirror frame: one tag byte followed by the payload unchanged.
pub fn tagged_frame(tag: u8, payload: &Vec<u8>) -> (r: Vec<u8>)
    ensures
        r@ == seq![tag] + payload@,
{
    let mut r: Vec<u8> = Vec::new();
    r.push(tag);
    let n = payload.len();
    let mut i: usize = 0;
    while i < n
        invariant
            i <= n,
            n == payload@.len(),
            r@.len() == 1 + i,
            r@[0] == tag,
            forall|j: int| 1 <= j < 1 + i ==> #[trigger] r@[j] == payload@[j - 1],
        decreases n - i,
    {
        r.push(payload[i]);
        i = i + 1;
    }
    assert(r@ =~= seq![tag] + payload@);
    r
}

/// The mode-status packet to the GUI: tag 'M', the mode code, then the
/// manual attenuation in decibels as a big-endian IEEE-754 float.
pub open spec fn gui_mode_frame_spec(mode_code: u8, db: u8) -> Seq<u8> {
    seq![GUI_TAG_MODE, mode_code] + be_u32_bytes_spec(f32_bits_spec(db as nat) as int)
}

pub fn gui_mode_frame(mode_code: u8, db: u8) -> (r: Vec<u8>)
    ensures
        r@ == gui_mode_frame_spec(mode_code, db),
{
    let bits = f32_bits_of_uint(db as u32);
    let mut r: Vec<u8> = Vec::new();
    r.push(GUI_TAG_MODE);
    r.push(mode_code);
    push_be_u32(&mut r, bits);
    assert(r@ =~= seq![GUI_TAG_MODE, mode_code] + be_u32_bytes_spec(
        f32_bits_spec(db as nat) as int,
    ));
    r
}

} // verus!
