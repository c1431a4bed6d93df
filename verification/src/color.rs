//! Pixel-format codec: conversions between the display's native two-byte
//! packed color and the 8-bit-per-channel RGB triple.
//!
//! The packed form is 5-6-5: red in the top five bits, green in the middle
//! six, blue in the low five. Expanding a channel back to eight bits
//! replicates its top bits into the freed low bits, so packing an expanded
//! channel gives the channel back exactly.

use vstd::prelude::*;

verus! {

/// The two-byte packed form of an 8-bit-per-channel color.
pub open spec fn encode16_spec(r: u8, g: u8, b: u8) -> u16 {
    ((((r >> 3) as u16) << 11) | (((g >> 2) as u16) << 5)) | ((b >> 3) as u16)
}

/// A five-bit channel widened to eight bits, top bits replicated below.
pub open spec fn expand5(v: u8) -> u8 {
    (v << 3) | (v >> 2)
}

/// A six-bit channel widened to eight bits, top bits replicated below.
pub open spec fn expand6(v: u8) -> u8 {
    (v << 2) | (v >> 4)
}

/// The red channel of a packed color, widened to eight bits.
pub open spec fn decode16_r(p: u16) -> u8 {
    expand5(((p >> 11) & 0x1f) as u8)
}

/// The green channel of a packed color, widened to eight bits.
pub open spec fn decode16_g(p: u16) -> u8 {
    expand6(((p >> 5) & 0x3f) as u8)
}

/// The blue channel of a packed color, widened to eight bits.
pub open spec fn decode16_b(p: u16) -> u8 {
    expand5((p & 0x1f) as u8)
}

/// An 8-bit-per-channel triple that survives packing unchanged: each
/// channel is a fixed point of the widen-after-narrow round trip.
pub open spec fn lossless_rgb(r: u8, g: u8, b: u8) -> bool {
    r == expand5(r >> 3) && g == expand6(g >> 2) && b == expand5(b >> 3)
}

/// One displayable color, held in the packed two-byte form:
/// most-significant lane first.
#[derive(Clone, Copy, Debug, PartialEq, Eq, Structural)]
pub struct Color {
    pub hi: u8,
    pub lo: u8,
}

impl Color {
    /// The 16-bit packed value this color stands for.
    pub open spec fn packed(self) -> u16 {
        ((self.hi as u16) << 8) | (self.lo as u16)
    }

    /// Packs an 8-bit-per-channel color into the native two-byte form.
    pub fn new(r: u8, g: u8, b: u8) -> (c: Color)
        ensures
            c.packed() == encode16_spec(r, g, b),
    {
        let p: u16 = ((((r >> 3) as u16) << 11) | (((g >> 2) as u16) << 5)) | ((b >> 3) as u16);
        let c = Color { hi: (p >> 8) as u8, lo: p as u8 };
        proof {
            assert(((((p >> 8) as u8) as u16) << 8) | ((p as u8) as u16) == p) by (bit_vector);
        }
        c
    }

    /// Splits a 16-bit packed value into its two lanes.
    pub fn from_rgb16(rgb16: u16) -> (c: Color)
        ensures
            c.hi == (rgb16 >> 8) as u8,
            c.lo == rgb16 as u8,
            c.packed() == rgb16,
    {
        let c = Color { hi: (rgb16 >> 8) as u8, lo: rgb16 as u8 };
        proof {
            assert(((((rgb16 >> 8) as u8) as u16) << 8) | ((rgb16 as u8) as u16) == rgb16)
                by (bit_vector);
        }
        c
    }

    /// Recombines the two lanes into the 16-bit packed value.
    pub fn to_rgb16(&self) -> (p: u16)
        ensures
            p == self.packed(),
    {
        ((self.hi as u16) << 8) | (self.lo as u16)
    }

    /// Widens the packed color back to an 8-bit-per-channel triple.
    pub fn to_rgb(&self) -> (t: (u8, u8, u8))
        ensures
            t.0 == decode16_r(self.packed()),
            t.1 == decode16_g(self.packed()),
            t.2 == decode16_b(self.packed()),
    {
        let p = self.to_rgb16();
        let r5 = ((p >> 11) & 0x1f) as u8;
        let g6 = ((p >> 5) & 0x3f) as u8;
        let b5 = (p & 0x1f) as u8;
        ((r5 << 3) | (r5 >> 2), (g6 << 2) | (g6 >> 4), (b5 << 3) | (b5 >> 2))
    }
}

/// Law: a triple that is reducible without loss survives the round trip
/// through the packed form unchanged.
pub proof fn lemma_decode_of_encode(r: u8, g: u8, b: u8)
    by (bit_vector)
    requires
        lossless_rgb(r, g, b),
    ensures
        decode16_r(encode16_spec(r, g, b)) == r,
        decode16_g(encode16_spec(r, g, b)) == g,
        decode16_b(encode16_spec(r, g, b)) == b,
{
}

/// Law: packing the widened channels of any packed value gives that value
/// back; so every decoded triple is itself lossless, and repeated
/// encode/decode is idempotent even where narrowing loses bits.
pub proof fn lemma_encode_of_decode(p: u16)
    by (bit_vector)
    ensures
        encode16_spec(decode16_r(p), decode16_g(p), decode16_b(p)) == p,
{
}

/// Law: for every triple, one encode/decode round settles the value --
/// encoding the decoded triple of any encoding reproduces that encoding.
pub proof fn lemma_encode_decode_idempotent(r: u8, g: u8, b: u8)
    ensures
        encode16_spec(
            decode16_r(encode16_spec(r, g, b)),
            decode16_g(encode16_spec(r, g, b)),
            decode16_b(encode16_spec(r, g, b)),
        ) == encode16_spec(r, g, b),
{
    lemma_encode_of_decode(encode16_spec(r, g, b));
}

} // verus!
