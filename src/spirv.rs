//! SPIR-V code as the device takes it: 32-bit words.

use vstd::prelude::*;

verus! {

#[derive(Copy, Clone, Debug, PartialEq, Eq, Structural)]
pub enum SpirvError {
    /// The byte count, which is not a multiple of 4.
    InvalidLength(usize),
}

/// Word `i` of `bytes`, read little-endian from bytes `4i` to `4i + 3`.
pub open spec fn le_word(bytes: Seq<u8>, i: int) -> u32 {
    (bytes[4 * i] as int + bytes[4 * i + 1] as int * 0x100 + bytes[4 * i + 2] as int * 0x10000
        + bytes[4 * i + 3] as int * 0x1000000) as u32
}

/// Converts unaligned bytes into aligned 32-bit words, each read
/// little-endian from four consecutive bytes.
///
/// SPIR-V always comes in whole words, and a byte slice cannot always be
/// reinterpreted in place because of alignment. Fails when the byte count is
/// not a multiple of 4.
pub fn spirv_words(shader_bytes: &[u8]) -> (r: Result<Vec<u32>, SpirvError>)
    ensures
        shader_bytes@.len() % 4 != 0 <==> r is Err,
        r is Err ==> r->Err_0 == SpirvError::InvalidLength(shader_bytes@.len() as usize),
        r is Ok ==> r->Ok_0@.len() == shader_bytes@.len() / 4 && forall|i: int|
            0 <= i < r->Ok_0@.len() ==> #[trigger] r->Ok_0@[i] == le_word(shader_bytes@, i),
{
    if shader_bytes.len() % 4 != 0 {
        return Err(SpirvError::InvalidLength(shader_bytes.len()));
    }
    let len = shader_bytes.len();
    let count = len / 4;
    let mut words: Vec<u32> = Vec::with_capacity(count);
    let mut i: usize = 0;
    while i < count
        invariant
            len == shader_bytes@.len(),
            count == shader_bytes@.len() / 4,
            shader_bytes@.len() % 4 == 0,
            i <= count,
            words@.len() == i,
            forall|j: int| 0 <= j < i ==> #[trigger] words@[j] == le_word(shader_bytes@, j),
        decreases count - i,
    {
        assert(4 * i + 3 < shader_bytes@.len()) by (nonlinear_arith)
            requires
                i < count,
                count == shader_bytes@.len() / 4,
                shader_bytes@.len() % 4 == 0,
        ;
        let b0 = shader_bytes[4 * i] as u32;
        let b1 = shader_bytes[4 * i + 1] as u32;
        let b2 = shader_bytes[4 * i + 2] as u32;
        let b3 = shader_bytes[4 * i + 3] as u32;
        let word = b0 + b1 * 0x100 + b2 * 0x10000 + b3 * 0x1000000;
        words.push(word);
        i = i + 1;
    }
    Ok(words)
}

} // verus!
