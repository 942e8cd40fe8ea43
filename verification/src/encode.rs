//! Serialization of 16-bit signed samples into the raw little-endian byte
//! stream the audio device file consumes.
//!
//! Each sample becomes exactly two bytes, low byte first, in sample order;
//! channels stay interleaved exactly as the callback left them.

use vstd::prelude::*;

verus! {

/// A sample reread as its unsigned 16-bit (two's complement) value.
pub open spec fn sample_unsigned(v: i16) -> int {
    if v >= 0 {
        v as int
    } else {
        v + 65536
    }
}

/// The low byte of a sample's little-endian encoding.
pub open spec fn sample_lo(v: i16) -> u8 {
    (sample_unsigned(v) % 256) as u8
}

/// The high byte of a sample's little-endian encoding.
pub open spec fn sample_hi(v: i16) -> u8 {
    (sample_unsigned(v) / 256) as u8
}

/// The little-endian byte stream of a sample sequence: two bytes per
/// sample, low byte first, in sample order.
pub open spec fn encoded(s: Seq<i16>) -> Seq<u8> {
    Seq::new(
        2 * s.len(),
        |i: int|
            if i % 2 == 0 {
                sample_lo(s[i / 2])
            } else {
                sample_hi(s[i / 2])
            },
    )
}

/// Encodes a sample buffer as the raw bytes to hand to the device file.
pub fn encode_samples(samples: &Vec<i16>) -> (bytes: Vec<u8>)
    requires
        2 * samples@.len() <= usize::MAX,
    ensures
        bytes@ == encoded(samples@),
{
    let mut bytes: Vec<u8> = Vec::new();
    let mut i: usize = 0;
    while i < samples.len()
        invariant
            i <= samples@.len(),
            2 * samples@.len() <= usize::MAX,
            bytes@.len() == 2 * i,
            forall|j: int| 0 <= j < bytes@.len() ==> bytes@[j] == #[trigger] encoded(samples@)[j],
        decreases samples@.len() - i,
    {
        let v: i16 = samples[i];
        let w: i32 = v as i32;
        let u: u32 = if w >= 0 {
            w as u32
        } else {
            (w + 65536) as u32
        };
        let lo: u8 = (u % 256) as u8;
        let hi: u8 = (u / 256) as u8;
        bytes.push(lo);
        bytes.push(hi);
        i = i + 1;
    }
    proof {
        assert(bytes@ =~= encoded(samples@));
    }
    bytes
}

} // verus!
