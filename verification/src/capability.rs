//! Kernel-granted capabilities.

use vstd::prelude::*;

verus! {

/// An opaque 128-bit handle to one kernel object.
///
/// A process holds a capability because the kernel gave it one: at start,
/// from a call that creates a pair, or inside a message. The kernel never
/// issues the all-zero handle, so that value stands for "no capability"
/// wherever one may be absent.
#[derive(Clone, Copy, Debug)]
pub struct Capability(u128);

impl View for Capability {
    type V = u128;

    closed spec fn view(&self) -> u128 {
        self.0
    }
}

/// The 128-bit value whose upper half is `high` and whose lower half is
/// `low`.
pub open spec fn join_halves(high: u64, low: u64) -> u128 {
    (high * 0x1_0000_0000_0000_0000 + low) as u128
}

/// The upper 64 bits of a 128-bit value.
pub open spec fn high_half(raw: u128) -> u64 {
    (raw / 0x1_0000_0000_0000_0000) as u64
}

/// The lower 64 bits of a 128-bit value.
pub open spec fn low_half(raw: u128) -> u64 {
    (raw % 0x1_0000_0000_0000_0000) as u64
}

impl Capability {
    /// The handle with the given bits.
    pub closed spec fn spec_new(raw: u128) -> Capability {
        Capability(raw)
    }

    /// A handle is its bits and nothing else.
    pub broadcast proof fn lemma_spec_new(raw: u128)
        ensures
            (#[trigger] Self::spec_new(raw))@ == raw,
    {
    }

    /// The handle with the given bits, as the kernel wrote them.
    pub fn new(raw: u128) -> (cap: Capability)
        ensures
            cap == Self::spec_new(raw),
            cap@ == raw,
    {
        Capability(raw)
    }

    /// The bits of the handle, to be laid out in memory for the kernel.
    pub fn raw(&self) -> (raw: u128)
        ensures
            raw == self@,
    {
        self.0
    }

    /// The value that stands for "no capability".
    pub fn null() -> (cap: Capability)
        ensures
            cap@ == 0,
    {
        Capability(0)
    }

    /// Whether this is the value that stands for "no capability".
    pub fn is_null(&self) -> (null: bool)
        ensures
            null == (self@ == 0),
    {
        self.0 == 0
    }

    /// Joins the two 64-bit halves in which a handle crosses a message or a
    /// process boundary: `high` holds bits 64 to 127, `low` bits 0 to 63.
    pub fn from_halves(high: u64, low: u64) -> (cap: Capability)
        ensures
            cap == Self::spec_new(join_halves(high, low)),
            cap@ == join_halves(high, low),
    {
        let raw: u128 = ((high as u128) << 64) | (low as u128);
        assert(((high as u128) << 64) | (low as u128) == ((high as u128) * 0x1_0000_0000_0000_0000
            + (low as u128)) as u128) by (bit_vector);
        Capability(raw)
    }

    /// Bits 64 to 127 of the handle.
    pub fn high(&self) -> (high: u64)
        ensures
            high == high_half(self@),
    {
        let raw: u128 = self.0;
        assert((raw >> 64) == raw / 0x1_0000_0000_0000_0000) by (bit_vector);
        assert((raw >> 64) <= 0xffff_ffff_ffff_ffff) by (bit_vector);
        (raw >> 64) as u64
    }

    /// Bits 0 to 63 of the handle.
    pub fn low(&self) -> (low: u64)
        ensures
            low == low_half(self@),
    {
        let raw: u128 = self.0;
        assert((raw & 0xffff_ffff_ffff_ffff) == raw % 0x1_0000_0000_0000_0000) by (bit_vector);
        (raw & 0xffff_ffff_ffff_ffff) as u64
    }

    /// Two handles with the same bits are the same handle.
    pub proof fn lemma_same_bits(a: Capability, b: Capability)
        requires
            a@ == b@,
        ensures
            a == b,
    {
    }
}

/// Splitting a handle into halves and joining them again loses nothing, in
/// either direction, and only the absent handle has two zero halves.
pub proof fn lemma_halves(high: u64, low: u64, raw: u128)
    ensures
        high_half(join_halves(high, low)) == high,
        low_half(join_halves(high, low)) == low,
        join_halves(high_half(raw), low_half(raw)) == raw,
        join_halves(high, low) == 0 <==> high == 0 && low == 0,
{
    assert(high_half(join_halves(high, low)) == high && low_half(join_halves(high, low)) == low
        && (join_halves(high, low) == 0 <==> high == 0 && low == 0)) by (nonlinear_arith)
        requires
            0 <= high <= 0xffff_ffff_ffff_ffff,
            0 <= low <= 0xffff_ffff_ffff_ffff,
    ;
    assert(join_halves(high_half(raw), low_half(raw)) == raw) by (nonlinear_arith)
        requires
            0 <= raw <= 0xffff_ffff_ffff_ffff_ffff_ffff_ffff_ffff,
    ;
}

} // verus!
