//! CPU-side uniform payloads and their byte layout.
//!
//! Shaders read single-precision numbers. This crate never computes with
//! them; it carries each one as the 32-bit word that holds its bit pattern.

use vstd::prelude::*;

verus! {

/// The word that holds the single-precision value one.
pub const ONE: u32 = 0x3F80_0000;

/// Number of bytes in an encoded [`SkyboxUniforms`].
pub const UNIFORM_SIZE: usize = 128;

/// Byte `k` of `word`, counted from the least significant one.
pub open spec fn byte_of(word: u32, k: int) -> u8 {
    if k == 0 {
        (word & 0xff) as u8
    } else if k == 1 {
        ((word >> 8) & 0xff) as u8
    } else if k == 2 {
        ((word >> 16) & 0xff) as u8
    } else {
        ((word >> 24) & 0xff) as u8
    }
}

/// The words laid out with the least significant byte of each first.
pub open spec fn little_endian(words: Seq<u32>) -> Seq<u8> {
    Seq::new(4 * words.len(), |i: int| byte_of(words[i / 4], i % 4))
}

/// The words laid out with the most significant byte of each first.
pub open spec fn big_endian(words: Seq<u32>) -> Seq<u8> {
    Seq::new(4 * words.len(), |i: int| byte_of(words[i / 4], 3 - i % 4))
}

/// `bytes` is how this machine lays `words` out in memory. Which of the two
/// byte orders a machine uses is not known to the proofs.
pub open spec fn is_native_layout(words: Seq<u32>, bytes: Seq<u8>) -> bool {
    bytes == little_endian(words) || bytes == big_endian(words)
}

/// A 4x4 matrix: sixteen words in column-major order.
#[derive(Clone, Copy, Debug, PartialEq, Eq)]
pub struct Matrix4 {
    pub words: [u32; 16],
}

/// What the skybox shader reads from its uniform buffer: the projection
/// matrix followed by the view matrix.
#[derive(Clone, Copy, Debug, PartialEq, Eq)]
pub struct SkyboxUniforms {
    pub proj: Matrix4,
    pub view: Matrix4,
}

/// Calls `bytemuck::bytes_of` on an array of 32 words and copies the slice it
/// returns. The contract claims that the slice is the array's memory: four
/// bytes for each word, in the array's order, each word in the machine's byte
/// order.
#[verifier::external_body]
fn memory_of(words: &[u32; 32]) -> (bytes: Vec<u8>)
    ensures
        is_native_layout(words@, bytes@),
{
    bytemuck::bytes_of(words).to_vec()
}

impl SkyboxUniforms {
    /// The payload as a flat sequence of 32 words.
    pub open spec fn words(&self) -> Seq<u32> {
        self.proj.words@ + self.view.words@
    }

    /// The payload as the bytes to upload.
    pub fn to_bytes(&self) -> (bytes: Vec<u8>)
        ensures
            bytes@.len() == UNIFORM_SIZE,
            is_native_layout(self.words(), bytes@),
    {
        let mut words: [u32; 32] = [0u32; 32];
        let mut i: usize = 0;
        while i < 16
            invariant
                i <= 16,
                forall|j: int| 0 <= j < i ==> #[trigger] words@[j] == self.proj.words@[j],
                forall|j: int| 0 <= j < i ==> #[trigger] words@[16 + j] == self.view.words@[j],
            decreases 16 - i,
        {
            words[i] = self.proj.words[i];
            words[i + 16] = self.view.words[i];
            i += 1;
        }
        assert(words@ =~= self.words()) by {
            assert(words@.len() == 32);
            assert(self.proj.words@.len() == 16);
            assert(self.view.words@.len() == 16);
            assert forall|j: int| 0 <= j < 32 implies words@[j] == self.words()[j] by {
                if j >= 16 {
                    assert(words@[16 + (j - 16)] == self.view.words@[j - 16]);
                }
            }
        }
        memory_of(&words)
    }
}

} // verus!
