//! SPIR-V code for shader modules.
use vstd::prelude::*;
use crate::errors::VulkanError;

verus! {

#[verifier::external_type_specification]
#[verifier::external_body]
pub struct ExIoError(std::io::Error);

/// The first word of every SPIR-V module.
pub const SPIRV_MAGIC: u32 = 0x0723_0203;

/// Word `i` of `b` read little-endian.
pub open spec fn le_word(b: Seq<u8>, i: int) -> u32 {
    ((b[4 * i] as u32) | ((b[4 * i + 1] as u32) << 8u32) | ((b[4 * i + 2] as u32) << 16u32) | ((b[4
        * i + 3] as u32) << 24u32)) as u32
}

/// Word `i` of `b` read big-endian.
pub open spec fn be_word(b: Seq<u8>, i: int) -> u32 {
    ((b[4 * i + 3] as u32) | ((b[4 * i + 2] as u32) << 8u32) | ((b[4 * i + 1] as u32) << 16u32) | ((b[4
        * i] as u32) << 24u32)) as u32
}

/// SPIR-V code: whole words, starting with the magic number in either byte
/// order.
pub open spec fn spirv_valid(b: Seq<u8>) -> bool {
    &&& b.len() % 4 == 0
    &&& b.len() >= 4
    &&& (le_word(b, 0) == SPIRV_MAGIC || be_word(b, 0) == SPIRV_MAGIC)
}

/// The words of SPIR-V code, in the byte order its magic number is written
/// in.
pub open spec fn spirv_words(b: Seq<u8>) -> Seq<u32> {
    Seq::new(
        (b.len() / 4) as nat,
        |i: int|
            if le_word(b, 0) == SPIRV_MAGIC {
                le_word(b, i)
            } else {
                be_word(b, i)
            },
    )
}

/// Relies on `ash::util::read_spv`: it accepts a stream whose length is a
/// multiple of four and whose first word, read in either byte order, is the
/// SPIR-V magic number, and returns the words in the byte order that makes
/// the first word the magic number; it refuses anything else.
#[verifier::external_body]
fn read_spv_words(bytes: &[u8]) -> (r: Result<Vec<u32>, std::io::Error>)
    ensures
        r is Ok <==> spirv_valid(bytes@),
        r matches Ok(w) ==> w@ == spirv_words(bytes@),
{
    ash::util::read_spv(&mut std::io::Cursor::new(bytes))
}

/// The words of a shader module's SPIR-V code, given as bytes in either
/// byte order. Fails with a shader creation error when the bytes are not
/// whole words or do not start with the SPIR-V magic number.
pub fn shader_code(bytes: &[u8]) -> (r: Result<Vec<u32>, VulkanError>)
    ensures
        spirv_valid(bytes@) ==> (r matches Ok(w) && w@ == spirv_words(bytes@)),
        !spirv_valid(bytes@) ==> r matches Err(VulkanError::ShaderCreationError(_)),
{
    match read_spv_words(bytes) {
        Ok(words) => Ok(words),
        Err(e) => Err(VulkanError::ShaderCreationError(e.to_string())),
    }
}

} // verus!
