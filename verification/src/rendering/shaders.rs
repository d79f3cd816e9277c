//! Decoding pre-compiled shader byte buffers into the 32-bit
//! little-endian SPIR-V word streams the pipeline consumes.

use vstd::prelude::*;
use crate::rendering::Shader;

verus! {

/// Why a shader byte buffer could not be decoded.
#[derive(Clone, Copy, PartialEq, Eq, Structural, Debug)]
pub enum SpvError {
    /// The buffer's length is not a multiple of four bytes.
    NotWordAligned,
}

/// The word at the given index, read little-endian from four bytes.
pub open spec fn spec_word_at(bytes: Seq<u8>, i: int) -> u32
    recommends
        0 <= i,
        4 * i + 4 <= bytes.len(),
{
    (bytes[4 * i] + bytes[4 * i + 1] * 0x100 + bytes[4 * i + 2] * 0x1_0000 + bytes[4 * i + 3]
        * 0x100_0000) as u32
}

/// The whole byte buffer as little-endian 32-bit words.
pub open spec fn spec_spv_words(bytes: Seq<u8>) -> Seq<u32>
    recommends
        bytes.len() % 4 == 0,
{
    Seq::new(bytes.len() / 4, |i: int| spec_word_at(bytes, i))
}

/// Interprets a byte buffer as a stream of 32-bit little-endian
/// words; a buffer whose length is not a multiple of four is
/// rejected.
pub fn spv_words(bytes: &Vec<u8>) -> (words: Result<Vec<u32>, SpvError>)
    ensures
        bytes@.len() % 4 == 0 ==> (words matches Ok(w) && w@ == spec_spv_words(bytes@)),
        bytes@.len() % 4 != 0 ==> words == Err::<Vec<u32>, SpvError>(SpvError::NotWordAligned),
{
    if bytes.len() % 4 != 0 {
        return Err(SpvError::NotWordAligned);
    }
    let count = bytes.len() / 4;
    assert(4 * count == bytes@.len());
    let mut words: Vec<u32> = Vec::new();
    for i in 0..count
        invariant
            4 * count == bytes@.len(),
            bytes@.len() <= usize::MAX,
            words@.len() == i,
            forall|j: int| 0 <= j < i ==> words@[j] == spec_word_at(bytes@, j),
    {
        let b0 = bytes[4 * i] as u32;
        let b1 = bytes[4 * i + 1] as u32;
        let b2 = bytes[4 * i + 2] as u32;
        let b3 = bytes[4 * i + 3] as u32;
        let word = b0 + b1 * 0x100 + b2 * 0x1_0000 + b3 * 0x100_0000;
        words.push(word);
    }
    assert(words@ =~= spec_spv_words(bytes@));
    Ok(words)
}

/// Decodes a vertex and a fragment byte buffer into a shader pair;
/// fails when either buffer is not word-aligned.
pub fn shader_from_bytes(vert: &Vec<u8>, frag: &Vec<u8>) -> (shader: Result<Shader, SpvError>)
    ensures
        vert@.len() % 4 == 0 && frag@.len() % 4 == 0 ==> (shader matches Ok(s) && s.vert@
            == spec_spv_words(vert@) && s.frag@ == spec_spv_words(frag@)),
        vert@.len() % 4 != 0 || frag@.len() % 4 != 0 ==> shader is Err,
{
    let vert_words = spv_words(vert)?;
    let frag_words = spv_words(frag)?;
    Ok(Shader { vert: vert_words, frag: frag_words })
}

} // verus!
