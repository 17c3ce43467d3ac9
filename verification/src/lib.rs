//! A shader runner built around a hot-reload engine: compiled shader modules
//! are gathered into immutable registry snapshots, a watcher rebuilds them in
//! the background on source changes, and a render loop swaps its active GPU
//! pipeline atomically between frames.
//!
//! Everything that decides or computes lives here, verified; the process
//! edges (the compiler subprocess, the GPU device, the window) are driven by
//! unverified glue that hands plain values in and out.
#![allow(unused_imports)]

use vstd::prelude::*;

pub mod channel;
pub mod math;
pub mod pipeline;
pub mod registry;
pub mod render;
pub mod shader;
pub mod watch;

verus! {

/// How many bytes the per-frame resource-constants block occupies when pushed
/// to the GPU: `width`, `height`, `time_bits` and the three reserved words,
/// four bytes each, little endian.
pub const CONSTANTS_SIZE: u32 = 24;

/// The per-frame resource constants shared by the vertex and fragment stages.
///
/// The elapsed time is carried as the raw bit pattern of the 32-bit float the
/// GPU expects (`time_bits`); the conversion from a float happens outside the
/// verified library and is bit-preserving.
#[derive(Debug, Clone, Copy, PartialEq, Eq)]
pub struct Constants {
    pub width: u32,
    pub height: u32,
    pub time_bits: u32,
    pub reserved: [u32; 3],
}

/// The exact byte image of a constants block, as the GPU sees it: six 32-bit
/// words, little endian, `CONSTANTS_SIZE` bytes in all.
pub open spec fn constants_le_bytes(c: Constants) -> Seq<u8> {
    vstd::bytes::spec_u32_to_le_bytes(c.width) + vstd::bytes::spec_u32_to_le_bytes(c.height)
        + vstd::bytes::spec_u32_to_le_bytes(c.time_bits) + vstd::bytes::spec_u32_to_le_bytes(
        c.reserved[0],
    ) + vstd::bytes::spec_u32_to_le_bytes(c.reserved[1]) + vstd::bytes::spec_u32_to_le_bytes(
        c.reserved[2],
    )
}

impl Constants {
    /// Serialize the block for a push-constant write.
    pub fn to_le_bytes(&self) -> (r: Vec<u8>)
        ensures
            r@ == constants_le_bytes(*self),
            r@.len() == CONSTANTS_SIZE,
    {
        proof {
            vstd::bytes::lemma_auto_spec_u32_to_from_le_bytes();
        }
        let mut out: Vec<u8> = Vec::new();
        let mut w = vstd::bytes::u32_to_le_bytes(self.width);
        out.append(&mut w);
        let mut h = vstd::bytes::u32_to_le_bytes(self.height);
        out.append(&mut h);
        let mut t = vstd::bytes::u32_to_le_bytes(self.time_bits);
        out.append(&mut t);
        let mut r0 = vstd::bytes::u32_to_le_bytes(self.reserved[0]);
        out.append(&mut r0);
        let mut r1 = vstd::bytes::u32_to_le_bytes(self.reserved[1]);
        out.append(&mut r1);
        let mut r2 = vstd::bytes::u32_to_le_bytes(self.reserved[2]);
        out.append(&mut r2);
        assert(out@ =~= constants_le_bytes(*self));
        out
    }
}

} // verus!
