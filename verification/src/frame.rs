//! Stereo sample frames and their packed 64-bit transport form.
//!
//! A frame is one XY pair: the left channel drives X, the right channel
//! drives Y. Channel amplitudes are carried as raw 32-bit words so the
//! routing logic is independent of the numeric encoding the hardware uses.

use vstd::prelude::*;

verus! {

/// A 2D point representing one XY sample.
/// Left channel = X, right channel = Y; each channel is the raw 32-bit
/// word of the amplitude value.
#[derive(Clone, Copy, Debug, PartialEq, Eq, Structural)]
pub struct XYSample {
    pub x: u32,
    pub y: u32,
}

impl XYSample {
    pub fn new(x: u32, y: u32) -> (s: Self)
        ensures
            s.x == x,
            s.y == y,
    {
        XYSample { x, y }
    }
}

impl Default for XYSample {
    /// The silent frame: both channels zero.
    fn default() -> (s: Self)
        ensures
            s.x == 0,
            s.y == 0,
    {
        XYSample { x: 0, y: 0 }
    }
}

/// The packed transport form of a frame: X in the high 32 bits,
/// Y in the low 32 bits.
pub open spec fn pack_spec(s: XYSample) -> u64 {
    ((s.x as u64) << 32u64) | (s.y as u64)
}

/// The X channel recovered from a packed word.
pub open spec fn unpack_x_spec(w: u64) -> u32 {
    (w >> 32u64) as u32
}

/// The Y channel recovered from a packed word.
pub open spec fn unpack_y_spec(w: u64) -> u32 {
    (w & 0xFFFF_FFFFu64) as u32
}

/// The frame recovered from a packed word.
pub open spec fn unpack_spec(w: u64) -> XYSample {
    XYSample { x: unpack_x_spec(w), y: unpack_y_spec(w) }
}

/// Packing then unpacking returns the original frame.
pub proof fn lemma_unpack_pack(s: XYSample)
    ensures
        unpack_spec(pack_spec(s)) == s,
{
    let x = s.x;
    let y = s.y;
    assert((((x as u64) << 32u64) | (y as u64)) >> 32u64 == x as u64) by (bit_vector);
    assert(((((x as u64) << 32u64) | (y as u64)) & 0xFFFF_FFFFu64) == y as u64) by (bit_vector);
}

/// Unpacking then packing returns the original word.
pub proof fn lemma_pack_unpack(w: u64)
    ensures
        pack_spec(unpack_spec(w)) == w,
{
    assert(((((w >> 32u64) as u32) as u64) << 32u64) | (((w & 0xFFFF_FFFFu64) as u32) as u64)
        == w) by (bit_vector);
}

pub fn pack(s: XYSample) -> (w: u64)
    ensures
        w == pack_spec(s),
        unpack_spec(w) == s,
{
    proof { lemma_unpack_pack(s); }
    ((s.x as u64) << 32u64) | (s.y as u64)
}

pub fn unpack(w: u64) -> (s: XYSample)
    ensures
        s == unpack_spec(w),
        pack_spec(s) == w,
{
    proof { lemma_pack_unpack(w); }
    XYSample { x: (w >> 32u64) as u32, y: (w & 0xFFFF_FFFFu64) as u32 }
}

} // verus!
