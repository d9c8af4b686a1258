//! Object-to-world transforms in the form in which they are uploaded.

use crate::render::encoding::{encode_words, words_to_bytes};
use vstd::prelude::*;

verus! {

/// Number of bytes that one transform occupies in a buffer.
pub const UNIFORM_SIZE: u64 = 64;

/// A 4x4 transform matrix, held as the bit patterns of its sixteen
/// single-precision elements in column-major order.
#[derive(Clone, Copy, Debug, PartialEq, Eq)]
pub struct Transform {
    pub bits: [u32; 16],
}

impl View for Transform {
    type V = Seq<u32>;

    open spec fn view(&self) -> Seq<u32> {
        self.bits@
    }
}

/// The words of the identity matrix: one on the diagonal, zero elsewhere.
pub open spec fn identity_words() -> Seq<u32> {
    Seq::new(
        16,
        |i: int|
            if i % 5 == 0 {
                Transform::ONE
            } else {
                0u32
            },
    )
}

impl Transform {
    /// Bit pattern of the single-precision number 1.0.
    pub const ONE: u32 = 0x3f80_0000;

    /// The transform with the given words.
    pub fn from_bits(bits: [u32; 16]) -> (t: Transform)
        ensures
            t@ == bits@,
    {
        Transform { bits }
    }

    /// The transform with the given columns: element `r` of column `c` is
    /// word `4 * c + r`.
    pub fn from_columns(columns: [[u32; 4]; 4]) -> (t: Transform)
        ensures
            t@ == Seq::new(16, |i: int| columns@[i / 4]@[i % 4]),
    {
        let x = columns[0];
        let y = columns[1];
        let z = columns[2];
        let w = columns[3];
        let t = Transform {
            bits: [
                x[0],
                x[1],
                x[2],
                x[3],
                y[0],
                y[1],
                y[2],
                y[3],
                z[0],
                z[1],
                z[2],
                z[3],
                w[0],
                w[1],
                w[2],
                w[3],
            ],
        };
        assert(t@ =~= Seq::new(16, |i: int| columns@[i / 4]@[i % 4]));
        t
    }

    /// The identity matrix: ones on the diagonal, zeros elsewhere.
    pub fn identity() -> (t: Transform)
        ensures
            t@ == identity_words(),
    {
        let o: u32 = Transform::ONE;
        let t = Transform { bits: [o, 0, 0, 0, 0, o, 0, 0, 0, 0, o, 0, 0, 0, 0, o] };
        assert(t@ =~= identity_words());
        t
    }

    /// The sixty-four bytes that a buffer slot holds for this transform.
    pub fn to_bytes(&self) -> (bytes: Vec<u8>)
        ensures
            bytes@ == words_to_bytes(self@),
    {
        encode_words(self.bits.as_slice())
    }
}

} // verus!
