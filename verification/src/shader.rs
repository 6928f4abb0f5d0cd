//! Shader modules, and the decoding of their code.
pub mod graphics_program;

use crate::driver::DriverCall;
use crate::error::Error;
use vstd::prelude::*;

verus! {

/// The first word of every SPIR-V module.
pub const SPIRV_MAGIC_NUMBER: u32 = 0x0723_0203;

/// The word that the four bytes from `4 * index` on spell, lowest byte first.
pub open spec fn word_little_endian(bytes: Seq<u8>, index: int) -> u32 {
    (bytes[4 * index] as u32) | ((bytes[4 * index + 1] as u32) << 8) | ((bytes[4 * index
        + 2] as u32) << 16) | ((bytes[4 * index + 3] as u32) << 24)
}

/// The word that the four bytes from `4 * index` on spell, highest byte
/// first.
pub open spec fn word_big_endian(bytes: Seq<u8>, index: int) -> u32 {
    (bytes[4 * index + 3] as u32) | ((bytes[4 * index + 2] as u32) << 8) | ((bytes[4 * index
        + 1] as u32) << 16) | ((bytes[4 * index] as u32) << 24)
}

/// The words of the SPIR-V module that `bytes` hold: the bytes taken four by
/// four, in the byte order in which the first word is the magic number.
/// `None` where the length is no multiple of four, or the first word is the
/// magic number in neither order.
pub open spec fn spirv_words(bytes: Seq<u8>) -> Option<Seq<u32>> {
    if bytes.len() % 4 != 0 || bytes.len() == 0 {
        None
    } else if word_little_endian(bytes, 0) == SPIRV_MAGIC_NUMBER {
        Some(Seq::new((bytes.len() / 4) as nat, |i: int| word_little_endian(bytes, i)))
    } else if word_big_endian(bytes, 0) == SPIRV_MAGIC_NUMBER {
        Some(Seq::new((bytes.len() / 4) as nat, |i: int| word_big_endian(bytes, i)))
    } else {
        None
    }
}

/// Decodes SPIR-V with `ash::util::read_spv`, from memory. That function
/// takes the bytes four by four as words, swaps the bytes of every word where
/// the first one is the magic number the other way round, and fails where the
/// length is no multiple of four or the first word is not the magic number
/// in the end: the words are those of `spirv_words`.
#[verifier::external_body]
fn read_spv(bytes: &[u8]) -> (words: Option<Vec<u32>>)
    ensures
        match words {
            Some(words) => spirv_words(bytes@) == Some(words@),
            None => spirv_words(bytes@) is None,
        },
{
    let mut cursor = std::io::Cursor::new(bytes);
    match ash::util::read_spv(&mut cursor) {
        Ok(words) => Some(words),
        Err(_) => None,
    }
}

/// A shader module.
#[derive(Debug, PartialEq, Eq)]
pub struct Shader {
    pub module: u64,
}

impl Shader {
    /// The code that the driver is asked to create the module with: the words
    /// of the SPIR-V module that `bytes` hold. Fails where they hold none.
    pub fn code(bytes: &[u8]) -> (code: Result<Vec<u32>, Error>)
        ensures
            match code {
                Ok(words) => spirv_words(bytes@) == Some(words@),
                Err(e) => e == Error::InvalidShaderCode && spirv_words(bytes@) is None,
            },
    {
        match read_spv(bytes) {
            Some(words) => Ok(words),
            None => Err(Error::InvalidShaderCode),
        }
    }

    /// The shader that the driver created, or the error with which it
    /// refused.
    pub fn new(created: Result<u64, i32>) -> (shader: Result<Shader, Error>)
        ensures
            match created {
                Ok(handle) => shader matches Ok(s) && s.module == handle,
                Err(code) => shader matches Err(e) && e == (Error::Driver { code }),
            },
    {
        match created {
            Ok(handle) => Ok(Shader { module: handle }),
            Err(code) => Err(Error::Driver { code }),
        }
    }

    /// Gives the shader up: the call that destroys its module.
    pub fn clean(&self) -> (call: DriverCall)
        ensures
            call == (DriverCall::DestroyShaderModule { module: self.module }),
    {
        DriverCall::DestroyShaderModule { module: self.module }
    }
}

} // verus!
