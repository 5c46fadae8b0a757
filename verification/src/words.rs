//! 32-bit words as the GPU sees them.
//!
//! Every scalar that reaches a shader is carried as the bit pattern of an
//! IEEE-754 single (or of a 32-bit integer). The crate only ever moves and
//! lays out such words; it performs no arithmetic on them.

use vstd::prelude::*;

verus! {

/// Number of bytes in one word.
pub const WORD_SIZE: usize = 4;

/// Two words: a texture coordinate or a position on the screen.
#[derive(Clone, Copy, Debug, PartialEq, Eq, Structural)]
pub struct Vector2 {
    pub x: u32,
    pub y: u32,
}

impl Vector2 {
    /// The words of the vector in declaration order.
    pub open spec fn words(self) -> Seq<u32> {
        seq![self.x, self.y]
    }

    /// Appends the words of the vector to `out`.
    pub fn push_words(&self, out: &mut Vec<u32>)
        ensures
            final(out)@ == old(out)@ + self.words(),
    {
        out.push(self.x);
        out.push(self.y);
        assert(out@ =~= old(out)@ + self.words());
    }
}

/// Three words: a position, a direction or a colour.
#[derive(Clone, Copy, Debug, PartialEq, Eq, Structural)]
pub struct Vector3 {
    pub x: u32,
    pub y: u32,
    pub z: u32,
}

/// Four words: one column of a matrix.
#[derive(Clone, Copy, Debug, PartialEq, Eq, Structural)]
pub struct Vector4 {
    pub x: u32,
    pub y: u32,
    pub z: u32,
    pub w: u32,
}

/// A 4x4 matrix stored column by column, as shaders read it.
#[derive(Clone, Copy, Debug, PartialEq, Eq, Structural)]
pub struct Matrix4 {
    pub c0: Vector4,
    pub c1: Vector4,
    pub c2: Vector4,
    pub c3: Vector4,
}

impl Vector3 {
    /// The vector whose three words are zero.
    pub open spec fn spec_zero() -> Vector3 {
        Vector3 { x: 0, y: 0, z: 0 }
    }

    #[verifier::when_used_as_spec(spec_zero)]
    pub fn zero() -> (v: Vector3)
        ensures
            v == Self::spec_zero(),
    {
        Vector3 { x: 0, y: 0, z: 0 }
    }

    /// The words of the vector in declaration order.
    pub open spec fn words(self) -> Seq<u32> {
        seq![self.x, self.y, self.z]
    }

    /// Appends the words of the vector to `out`.
    pub fn push_words(&self, out: &mut Vec<u32>)
        ensures
            final(out)@ == old(out)@ + self.words(),
    {
        out.push(self.x);
        out.push(self.y);
        out.push(self.z);
        assert(out@ =~= old(out)@ + self.words());
    }
}

impl Vector4 {
    /// The vector whose four words are zero.
    pub open spec fn spec_zero() -> Vector4 {
        Vector4 { x: 0, y: 0, z: 0, w: 0 }
    }

    #[verifier::when_used_as_spec(spec_zero)]
    pub fn zero() -> (v: Vector4)
        ensures
            v == Self::spec_zero(),
    {
        Vector4 { x: 0, y: 0, z: 0, w: 0 }
    }

    /// The words of the vector in declaration order.
    pub open spec fn words(self) -> Seq<u32> {
        seq![self.x, self.y, self.z, self.w]
    }

    /// Appends the words of the vector to `out`.
    pub fn push_words(&self, out: &mut Vec<u32>)
        ensures
            final(out)@ == old(out)@ + self.words(),
    {
        out.push(self.x);
        out.push(self.y);
        out.push(self.z);
        out.push(self.w);
        assert(out@ =~= old(out)@ + self.words());
    }
}

impl Matrix4 {
    /// The matrix whose sixteen words are zero.
    pub open spec fn spec_zero() -> Matrix4 {
        Matrix4 {
            c0: Vector4::spec_zero(),
            c1: Vector4::spec_zero(),
            c2: Vector4::spec_zero(),
            c3: Vector4::spec_zero(),
        }
    }

    #[verifier::when_used_as_spec(spec_zero)]
    pub fn zero() -> (m: Matrix4)
        ensures
            m == Self::spec_zero(),
    {
        Matrix4 { c0: Vector4::zero(), c1: Vector4::zero(), c2: Vector4::zero(), c3: Vector4::zero() }
    }

    /// The sixteen words of the matrix, column after column.
    pub open spec fn words(self) -> Seq<u32> {
        self.c0.words() + self.c1.words() + self.c2.words() + self.c3.words()
    }

    /// Appends the sixteen words of the matrix to `out`.
    pub fn push_words(&self, out: &mut Vec<u32>)
        ensures
            final(out)@ == old(out)@ + self.words(),
            self.words().len() == 16,
    {
        self.c0.push_words(out);
        self.c1.push_words(out);
        self.c2.push_words(out);
        self.c3.push_words(out);
        assert(out@ =~= old(out)@ + self.words());
    }

    /// The translation that the matrix applies: the first three words of its
    /// last column.
    pub fn translation(&self) -> (t: Vector3)
        ensures
            t == (Vector3 { x: self.c3.x, y: self.c3.y, z: self.c3.z }),
    {
        Vector3 { x: self.c3.x, y: self.c3.y, z: self.c3.z }
    }
}

/// Byte `k` (0 is the lowest) of a word.
pub open spec fn le_byte(word: u32, k: int) -> u8 {
    if k == 0 {
        (word % 256) as u8
    } else if k == 1 {
        ((word / 256) % 256) as u8
    } else if k == 2 {
        ((word / 65536) % 256) as u8
    } else {
        (word / 16777216) as u8
    }
}

/// The little-endian bytes of a sequence of words: byte `i` is byte `i % 4`
/// of word `i / 4`.
pub open spec fn le_bytes(words: Seq<u32>) -> Seq<u8> {
    Seq::new(4 * words.len(), |i: int| le_byte(words[i / 4], i % 4))
}

/// Serialises words as little-endian bytes, in order and without gaps.
pub fn words_to_bytes(words: &Vec<u32>) -> (bytes: Vec<u8>)
    ensures
        bytes@ == le_bytes(words@),
        bytes@.len() == 4 * words@.len(),
{
    let mut bytes: Vec<u8> = Vec::new();
    let mut i: usize = 0;
    while i < words.len()
        invariant
            i <= words.len(),
            bytes@.len() == 4 * i,
            forall|j: int| 0 <= j < 4 * i ==> bytes@[j] == le_byte(words@[j / 4], j % 4),
        decreases words.len() - i,
    {
        let w: u32 = words[i];
        bytes.push((w % 256) as u8);
        bytes.push(((w / 256) % 256) as u8);
        bytes.push(((w / 65536) % 256) as u8);
        bytes.push((w / 16777216) as u8);
        i = i + 1;
    }
    bytes
}

} // verus!
