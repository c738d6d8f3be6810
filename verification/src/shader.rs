//! Compiled shader programs: from the bytes of a SPIR-V binary to the words
//! that a shader module is created from.

use crate::encoding::{words_from_be, words_from_le};
use vstd::prelude::*;

verus! {

/// The first word of every SPIR-V binary.
pub const SPIRV_MAGIC: u32 = 0x0723_0203;

/// The pipeline stage that a shader program runs in.
#[derive(Copy, Clone, Debug, PartialEq, Eq, Structural)]
pub enum ShaderStage {
    Vertex,
    Fragment,
    Compute,
}

/// Why bytes were not accepted as a shader program.
#[derive(Copy, Clone, Debug, PartialEq, Eq, Structural)]
pub enum ShaderError {
    /// The bytes are empty, are not a whole number of words, or do not start
    /// with the SPIR-V magic number in either byte order.
    NotSpirv,
}

/// A compiled shader program for one stage, with the name of its entry point.
#[derive(Clone, Debug, PartialEq, Eq)]
pub struct ShaderBinary {
    pub stage: ShaderStage,
    pub entry_point: String,
    pub words: Vec<u32>,
}

/// The words of a SPIR-V binary. The magic number in front shows the byte
/// order in which the binary was written; the words are read in that order.
/// `None` where the bytes are empty, are not a whole number of words, or start
/// with something else.
pub open spec fn spirv_words(bytes: Seq<u8>) -> Option<Seq<u32>> {
    if bytes.len() == 0 || bytes.len() % 4 != 0 {
        None
    } else if words_from_le(bytes)[0] == SPIRV_MAGIC {
        Some(words_from_le(bytes))
    } else if words_from_be(bytes)[0] == SPIRV_MAGIC {
        Some(words_from_be(bytes))
    } else {
        None
    }
}

/// `std::io::Error`, which is handed through and never looked into.
#[verifier::external_type_specification]
#[verifier::external_body]
pub struct ExIoError(std::io::Error);

/// `wgpu::read_spirv` on bytes in memory. It reads the bytes as words in the
/// host's byte order, swaps the bytes of every word where the first word is
/// the magic number turned around, and fails unless the first word is then
/// the magic number; it also fails on a length that is not a multiple of
/// four. Whatever the host's byte order, that yields the words in the order
/// in which the binary was written.
#[verifier::external_body]
fn read_spirv_bytes(bytes: &[u8]) -> (r: Result<Vec<u32>, std::io::Error>)
    ensures
        match r {
            Ok(words) => spirv_words(bytes@) == Some(words@),
            Err(_) => spirv_words(bytes@) is None,
        },
{
    wgpu::read_spirv(std::io::Cursor::new(bytes))
}

/// Takes the bytes of a compiled shader for `stage`, with entry point `main`.
pub fn load_shader(stage: ShaderStage, bytes: &[u8]) -> (r: Result<ShaderBinary, ShaderError>)
    ensures
        match r {
            Ok(binary) => {
                &&& spirv_words(bytes@) == Some(binary.words@)
                &&& binary.stage == stage
                &&& binary.entry_point@ == "main"@
            },
            Err(ShaderError::NotSpirv) => spirv_words(bytes@) is None,
        },
{
    match read_spirv_bytes(bytes) {
        Ok(words) => Ok(ShaderBinary { stage, entry_point: "main".to_owned(), words }),
        Err(_) => Err(ShaderError::NotSpirv),
    }
}

} // verus!
