//! The uniform data handed to the fragment shader of the buffer scene, and
//! its byte image as the GPU receives it.
use vstd::prelude::*;

verus! {

/// The four bytes of `x`, least significant first.
pub open spec fn u32_le_bytes(x: u32) -> Seq<u8> {
    seq![
        (x % 256) as u8,
        ((x / 256) % 256) as u8,
        ((x / 65536) % 256) as u8,
        ((x / 16777216) % 256) as u8,
    ]
}

/// The four bytes of `x`, most significant first.
pub open spec fn u32_be_bytes(x: u32) -> Seq<u8> {
    seq![
        ((x / 16777216) % 256) as u8,
        ((x / 65536) % 256) as u8,
        ((x / 256) % 256) as u8,
        (x % 256) as u8,
    ]
}

/// The memory image of two consecutive `u32` words `a` then `b` in one of the
/// two byte orders (the one of the machine that runs the code).
pub open spec fn is_word_pair_image(bytes: Seq<u8>, a: u32, b: u32) -> bool {
    ||| bytes == u32_le_bytes(a) + u32_le_bytes(b)
    ||| bytes == u32_be_bytes(a) + u32_be_bytes(b)
}

/// The four bytes of `x` in the byte order of the machine that runs the code.
pub open spec fn u32_native_bytes(x: u32) -> Seq<u8> {
    match vstd::endian::endianness() {
        vstd::endian::Endian::Little => u32_le_bytes(x),
        vstd::endian::Endian::Big => u32_be_bytes(x),
    }
}

/// The memory image of two consecutive `u32` words `a` then `b` on the
/// machine that runs the code.
pub open spec fn native_pair_image(a: u32, b: u32) -> Seq<u8> {
    u32_native_bytes(a) + u32_native_bytes(b)
}

/// The value the machine that runs the code reads from four bytes of memory.
pub open spec fn u32_from_native_bytes(s: Seq<u8>) -> int {
    match vstd::endian::endianness() {
        vstd::endian::Endian::Little => s[0] + 256 * s[1] + 65536 * s[2] + 16777216 * s[3],
        vstd::endian::Endian::Big => s[3] + 256 * s[2] + 65536 * s[1] + 16777216 * s[0],
    }
}

/// Reading back the bytes of a word, in the machine's byte order, gives the word.
pub proof fn lemma_native_bytes_read_back(x: u32)
    ensures
        u32_native_bytes(x).len() == 4,
        u32_from_native_bytes(u32_native_bytes(x)) == x,
{
    assert(x == (x % 256) + 256 * ((x / 256) % 256) + 65536 * ((x / 65536) % 256) + 16777216 * ((
    x / 16777216) % 256)) by (bit_vector);
}

/// The image of a pair holds the first word in its first four bytes and the
/// second word in its last four: the GPU reads back exactly the two words.
pub proof fn lemma_pair_image_reads_back(a: u32, b: u32)
    ensures
        native_pair_image(a, b).len() == 8,
        u32_from_native_bytes(native_pair_image(a, b).subrange(0, 4)) == a,
        u32_from_native_bytes(native_pair_image(a, b).subrange(4, 8)) == b,
        is_word_pair_image(native_pair_image(a, b), a, b),
{
    lemma_native_bytes_read_back(a);
    lemma_native_bytes_read_back(b);
    assert(native_pair_image(a, b).subrange(0, 4) =~= u32_native_bytes(a));
    assert(native_pair_image(a, b).subrange(4, 8) =~= u32_native_bytes(b));
}

/// Calls `bytemuck::bytes_of` on the array `[a, b]` and copies the bytes out.
/// `bytes_of` reinterprets the array's memory as bytes: its two words, in
/// order, each in the byte order of the machine. The contract states this
/// over vstd's `endianness()`, the byte order of the executing hardware,
/// which is left open: on every machine the result is the little-endian or
/// the big-endian image of the pair, the same order for every call.
#[verifier::external_body]
fn word_pair_bytes(a: u32, b: u32) -> (r: Vec<u8>)
    ensures
        r@ == native_pair_image(a, b),
        is_word_pair_image(r@, a, b),
{
    bytemuck::bytes_of(&[a, b]).to_vec()
}

/// The uniform buffer of the buffer scene: the size of the render target,
/// laid out as two consecutive `u32` words (width, then height).
#[derive(Clone, Copy, Debug, PartialEq, Eq)]
pub struct TheFirstUniformBuffer {
    pub width: u32,
    pub height: u32,
}

impl TheFirstUniformBuffer {
    /// The bytes copied into the mapped GPU buffer.
    pub fn as_bytes(&self) -> (r: Vec<u8>)
        ensures
            r@ == native_pair_image(self.width, self.height),
            is_word_pair_image(r@, self.width, self.height),
            r@.len() == 8,
            u32_from_native_bytes(r@.subrange(0, 4)) == self.width,
            u32_from_native_bytes(r@.subrange(4, 8)) == self.height,
    {
        proof {
            lemma_pair_image_reads_back(self.width, self.height);
        }
        word_pair_bytes(self.width, self.height)
    }

    /// The size of the GPU buffer that holds this uniform, in bytes.
    pub fn buffer_size(&self) -> (r: u64)
        ensures
            r == 8,
    {
        let bytes = self.as_bytes();
        bytes.len() as u64
    }
}

} // verus!
