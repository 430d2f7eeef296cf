use vstd::prelude::*;

verus! {

/// The first word of every SPIR-V module.
pub const SPIRV_MAGIC: u32 = 0x0723_0203;

/// Which pipeline stage a shader is compiled for.
#[derive(Clone, Copy, Debug, PartialEq, Eq, Structural)]
pub enum ShaderStage {
    Vertex,
    Fragment,
}

/// Why a compiled shader could not be turned into a module.
#[derive(Clone, Copy, Debug, PartialEq, Eq, Structural)]
pub enum ShaderError {
    /// The bytes are not a whole number of words, or do not start with the
    /// SPIR-V magic number in either byte order.
    InvalidSpirv,
}

/// Word `i` of `b`, least significant byte first.
pub open spec fn le_word(b: Seq<u8>, i: int) -> int {
    b[4 * i] + b[4 * i + 1] * 0x100 + b[4 * i + 2] * 0x1_0000 + b[4 * i + 3] * 0x100_0000
}

/// Word `i` of `b`, most significant byte first.
pub open spec fn be_word(b: Seq<u8>, i: int) -> int {
    b[4 * i] * 0x100_0000 + b[4 * i + 1] * 0x1_0000 + b[4 * i + 2] * 0x100 + b[4 * i + 3]
}

/// The module is stored least significant byte first.
pub open spec fn spirv_is_le(b: Seq<u8>) -> bool {
    b.len() >= 4 && le_word(b, 0) == SPIRV_MAGIC
}

/// The module is stored most significant byte first.
pub open spec fn spirv_is_be(b: Seq<u8>) -> bool {
    b.len() >= 4 && be_word(b, 0) == SPIRV_MAGIC
}

/// `b` holds a SPIR-V module: whole words, led by the magic number.
pub open spec fn spirv_valid(b: Seq<u8>) -> bool {
    b.len() % 4 == 0 && (spirv_is_le(b) || spirv_is_be(b))
}

/// The words of a valid module, read in the byte order its magic number shows.
pub open spec fn spirv_words(b: Seq<u8>) -> Seq<u32> {
    Seq::new(
        (b.len() / 4) as nat,
        |i: int|
            if spirv_is_le(b) {
                le_word(b, i) as u32
            } else {
                be_word(b, i) as u32
            },
    )
}

/// Relies on wgpu::read_spirv (of wgpu-types): it reads the bytes as native
/// words, swaps each word when the first one is the magic number byte-swapped,
/// and fails when the length is not a multiple of four or the first word is not
/// the magic number. Its only failures are those of this check.
#[verifier::external_body]
fn read_spirv_words(bytes: &Vec<u8>) -> (r: Option<Vec<u32>>)
    ensures
        r.is_some() <==> spirv_valid(bytes@),
        r matches Some(w) ==> w@ == spirv_words(bytes@),
{
    wgpu::read_spirv(std::io::Cursor::new(bytes.as_slice())).ok()
}

/// Turns a compiled shader's bytes into the words of a shader module.
pub fn load_spirv(bytes: &Vec<u8>) -> (r: Result<Vec<u32>, ShaderError>)
    ensures
        r is Ok <==> spirv_valid(bytes@),
        r matches Ok(w) ==> w@ == spirv_words(bytes@) && w@.len() == bytes@.len() / 4
            && w@[0] == SPIRV_MAGIC,
        r matches Err(e) ==> e == ShaderError::InvalidSpirv,
{
    match read_spirv_words(bytes) {
        Some(w) => {
            proof {
                let b = bytes@;
                assert(w@[0] == spirv_words(b)[0]);
                if spirv_is_le(b) {
                    assert(le_word(b, 0) == SPIRV_MAGIC);
                } else {
                    assert(be_word(b, 0) == SPIRV_MAGIC);
                }
            }
            Ok(w)
        },
        None => Err(ShaderError::InvalidSpirv),
    }
}

/// The name under which a stage's source is reported in diagnostics.
pub fn stage_file_name(stage: ShaderStage) -> (r: &'static str)
    ensures
        stage == ShaderStage::Vertex ==> r@ == "shader.vert"@,
        stage == ShaderStage::Fragment ==> r@ == "shader.frag"@,
{
    match stage {
        ShaderStage::Vertex => "shader.vert",
        ShaderStage::Fragment => "shader.frag",
    }
}

/// The entry point that both shader stages use.
pub fn entry_point() -> (r: &'static str)
    ensures
        r@ == "main"@,
{
    "main"
}

} // verus!
