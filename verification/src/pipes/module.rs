use vstd::prelude::*;

verus! {

#[verifier::external_type_specification]
#[verifier::external_body]
pub struct ExIoError(std::io::Error);

/// The first word of every SPIR-V module.
pub const SPIRV_MAGIC: u32 = 0x0723_0203;

/// The `i`-th 32-bit word of `bytes`, read with the least significant byte
/// first.
pub open spec fn le_word(bytes: Seq<u8>, i: int) -> int {
    bytes[4 * i] + bytes[4 * i + 1] * 0x100 + bytes[4 * i + 2] * 0x1_0000 + bytes[4 * i + 3]
        * 0x100_0000
}

/// The `i`-th 32-bit word of `bytes`, read with the most significant byte
/// first.
pub open spec fn be_word(bytes: Seq<u8>, i: int) -> int {
    bytes[4 * i] * 0x100_0000 + bytes[4 * i + 1] * 0x1_0000 + bytes[4 * i + 2] * 0x100 + bytes[4
        * i + 3]
}

/// The bytes are a whole number of words and begin with the SPIR-V magic
/// number, in either byte order.
pub open spec fn is_spirv(bytes: Seq<u8>) -> bool {
    &&& bytes.len() % 4 == 0
    &&& bytes.len() >= 4
    &&& (le_word(bytes, 0) == SPIRV_MAGIC || be_word(bytes, 0) == SPIRV_MAGIC)
}

/// The words of a SPIR-V blob: every word is read in the byte order in which
/// the first word is the magic number.
pub open spec fn spirv_words(bytes: Seq<u8>) -> Seq<u32> {
    Seq::new(
        (bytes.len() / 4) as nat,
        |i: int|
            if le_word(bytes, 0) == SPIRV_MAGIC {
                le_word(bytes, i) as u32
            } else {
                be_word(bytes, i) as u32
            },
    )
}

/// Why a blob is no SPIR-V module.
#[derive(Clone, Copy, Debug, PartialEq, Eq, Structural)]
pub enum ShaderError {
    /// The length of the blob is no multiple of four bytes.
    Misaligned,
    /// The blob is empty or does not begin with the SPIR-V magic number.
    MissingMagic,
}

/// Calls `wgpu::read_spirv` on an in-memory blob.
///
/// Not proved: that the call succeeds exactly on a blob whose length is a
/// multiple of four and whose first word is the magic number in one of the two
/// byte orders, and that it then returns all words read in that byte order.
#[verifier::external_body]
fn read_spirv(bytes: &[u8]) -> (words: Result<Vec<u32>, std::io::Error>)
    ensures
        words is Ok <==> is_spirv(bytes@),
        match words {
            Ok(w) => w@ == spirv_words(bytes@),
            Err(_) => true,
        },
{
    wgpu::read_spirv(std::io::Cursor::new(bytes))
}

/// A shader given as a precompiled SPIR-V blob with an optional entry point.
#[derive(Clone, Copy, Debug)]
pub struct StaticShaderModule {
    pub spirv_source: &'static [u8],
    pub entry_point: Option<&'static str>,
}

impl StaticShaderModule {
    /// The entry point a pipeline stage is built with: the configured one,
    /// or `main` when none is configured.
    pub open spec fn spec_entry_point(&self) -> Seq<char> {
        match self.entry_point {
            Some(name) => name@,
            None => "main"@,
        }
    }

    /// Returns the configured entry point, or `main` when none is configured.
    pub fn entry_point(&self) -> (name: &str)
        ensures
            name@ == self.spec_entry_point(),
    {
        match self.entry_point {
            Some(name) => name,
            None => "main",
        }
    }

    /// Decodes the blob into the words a device builds a shader module from.
    pub fn words(&self) -> (words: Result<Vec<u32>, ShaderError>)
        ensures
            match words {
                Ok(w) => is_spirv(self.spirv_source@) && w@ == spirv_words(self.spirv_source@),
                Err(ShaderError::Misaligned) => self.spirv_source@.len() % 4 != 0,
                Err(ShaderError::MissingMagic) => self.spirv_source@.len() % 4 == 0 && !is_spirv(
                    self.spirv_source@,
                ),
            },
    {
        match read_spirv(self.spirv_source) {
            Ok(w) => Ok(w),
            Err(_) => {
                if self.spirv_source.len() % 4 != 0 {
                    Err(ShaderError::Misaligned)
                } else {
                    Err(ShaderError::MissingMagic)
                }
            },
        }
    }
}

} // verus!
