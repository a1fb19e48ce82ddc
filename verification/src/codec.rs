//! Instruction codec: a symbolic instruction packed into exactly two bytes.
//!
//! Wire layout, most-significant nibble first:
//!
//! - byte 0, high nibble: the operation code (0 through 6 are recognized,
//!   7 through 15 are reserved);
//! - byte 0, low nibble: `reg0` — the destination for a load, the first
//!   source for arithmetic, the source for a result move;
//! - byte 1, for arithmetic: high nibble `reg1` (second source), low nibble
//!   `reg2` (destination); for a load the whole byte is the immediate.
//!
//! Decoding never fails by itself: every nibble is a syntactically valid
//! field. Whether the operation code is recognized is the machine's concern.

use vstd::prelude::*;

verus! {

/// The high four bits of a byte, as a value in 0..16.
pub open spec fn hi_nibble(b: u8) -> u8 {
    b / 16
}

/// The low four bits of a byte, as a value in 0..16.
pub open spec fn lo_nibble(b: u8) -> u8 {
    b % 16
}

/// One fetched instruction: the raw two-byte pair, with accessors for each
/// field of the wire layout.
#[derive(Debug, Clone, Copy)]
pub struct Inst {
    pub c: [u8; 2],
}

impl PartialEq for Inst {
    fn eq(&self, other: &Inst) -> (r: bool) {
        self.c[0] == other.c[0] && self.c[1] == other.c[1]
    }
}

impl vstd::std_specs::cmp::PartialEqSpecImpl for Inst {
    open spec fn obeys_eq_spec() -> bool {
        true
    }

    open spec fn eq_spec(&self, other: &Inst) -> bool {
        self.c[0] == other.c[0] && self.c[1] == other.c[1]
    }
}

impl Inst {
    /// Wraps a raw two-byte pair.
    pub fn from_slice(c: [u8; 2]) -> (r: Inst)
        ensures
            r.c == c,
    {
        Inst { c }
    }

    /// The operation-code nibble: the high four bits of the first byte.
    pub fn op(&self) -> (r: u8)
        ensures
            r == hi_nibble(self.c[0]),
            r < 16,
    {
        let b = self.c[0];
        proof {
            assert((b & 0xF0) >> 4 == b / 16 && b / 16 < 16) by (bit_vector);
        }
        (b & 0xF0) >> 4
    }

    /// The first register field: the low nibble of the first byte.
    pub fn reg0(&self) -> (r: usize)
        ensures
            r == lo_nibble(self.c[0]) as usize,
            r < 16,
    {
        let b = self.c[0];
        proof {
            assert(b & 0x0F == b % 16 && b % 16 < 16) by (bit_vector);
        }
        (b & 0x0F) as usize
    }

    /// The second register field: the high nibble of the second byte.
    pub fn reg1(&self) -> (r: usize)
        ensures
            r == hi_nibble(self.c[1]) as usize,
            r < 16,
    {
        let b = self.c[1];
        proof {
            assert((b & 0xF0) >> 4 == b / 16 && b / 16 < 16) by (bit_vector);
        }
        ((b & 0xF0) >> 4) as usize
    }

    /// The third register field: the low nibble of the second byte.
    pub fn reg2(&self) -> (r: usize)
        ensures
            r == lo_nibble(self.c[1]) as usize,
            r < 16,
    {
        let b = self.c[1];
        proof {
            assert(b & 0x0F == b % 16 && b % 16 < 16) by (bit_vector);
        }
        (b & 0x0F) as usize
    }

    /// The immediate field: the whole second byte, zero-extended to 64 bits.
    pub fn imm(&self) -> (r: u64)
        ensures
            r == self.c[1] as u64,
    {
        self.c[1] as u64
    }
}

} // verus!
