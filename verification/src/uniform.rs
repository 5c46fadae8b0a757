//! Uniform data: values that are written into a GPU buffer word by word, in
//! declared order, with every padding word spelled out.

use vstd::prelude::*;
use crate::words::{le_bytes, words_to_bytes, Matrix4, Vector3};

verus! {

/// A value with a fixed layout in GPU memory.
pub trait GpuData {
    /// The words of the value in buffer order, padding included.
    spec fn words(&self) -> Seq<u32>;

    /// The number of words that every value of the type occupies.
    spec fn word_count() -> nat;

    /// Every value has as many words as its type says.
    proof fn lemma_word_count(&self)
        ensures
            self.words().len() == Self::word_count(),
    ;

    /// The size of the type in a buffer, in bytes.
    fn size() -> (bytes: u64)
        ensures
            bytes == 4 * Self::word_count(),
    ;

    /// The words of the value in buffer order.
    fn to_words(&self) -> (words: Vec<u32>)
        ensures
            words@ == self.words(),
    ;
}

/// The bytes that a buffer holds for `data`: its words in little-endian
/// order. Their number is the size of the type.
pub fn to_bytes<T: GpuData>(data: &T) -> (bytes: Vec<u8>)
    ensures
        bytes@ == le_bytes(data.words()),
        bytes@.len() == 4 * T::word_count(),
{
    proof {
        data.lemma_word_count();
    }
    let words = data.to_words();
    words_to_bytes(&words)
}

/// Which shader stages read a binding.
#[derive(Clone, Copy, Debug, PartialEq, Eq, Structural)]
pub enum ShaderStage {
    Vertex,
    Fragment,
}

/// One write into a uniform buffer.
pub struct BufferWrite {
    /// Where the write starts in the buffer, in bytes.
    pub offset: u64,
    pub bytes: Vec<u8>,
}

/// Describes the buffer and the single binding of a uniform of type `T`.
pub struct UniformBindGroup<T: GpuData> {
    /// Size of the buffer in bytes.
    pub size: u64,
    /// Slot of the buffer in its bind group.
    pub binding: u32,
    pub visibility: ShaderStage,
    pub _marker: core::marker::PhantomData<T>,
}

impl<T: GpuData> UniformBindGroup<T> {
    /// A bind group with one buffer in slot 0 that holds exactly one `T`.
    pub fn new(visibility: ShaderStage) -> (group: Self)
        ensures
            group.size == 4 * T::word_count(),
            group.binding == 0,
            group.visibility == visibility,
    {
        UniformBindGroup { size: T::size(), binding: 0, visibility, _marker: core::marker::PhantomData }
    }

    /// The write that replaces the whole buffer by `data`.
    pub fn update(&self, data: &T) -> (write: BufferWrite)
        ensures
            write.offset == 0,
            write.bytes@ == le_bytes(data.words()),
            write.bytes@.len() == 4 * T::word_count(),
    {
        BufferWrite { offset: 0, bytes: to_bytes(data) }
    }
}

/// What every pass reads of the camera: view matrix, projection matrix and
/// the position of the eye.
#[derive(Clone, Copy, Debug, PartialEq, Eq, Structural)]
pub struct CameraUniform {
    pub view_matrix: Matrix4,
    pub projection: Matrix4,
    pub view_pos: Vector3,
    /// Fills the last vector up to four words.
    pub _pad: u32,
}

impl CameraUniform {
    pub fn new(view_matrix: Matrix4, projection: Matrix4, view_pos: Vector3) -> (uniform: CameraUniform)
        ensures
            uniform == (CameraUniform { view_matrix, projection, view_pos, _pad: 0 }),
    {
        CameraUniform { view_matrix, projection, view_pos, _pad: 0 }
    }
}

impl GpuData for CameraUniform {
    open spec fn words(&self) -> Seq<u32> {
        self.view_matrix.words() + self.projection.words() + self.view_pos.words() + seq![self._pad]
    }

    open spec fn word_count() -> nat {
        36
    }

    proof fn lemma_word_count(&self) {
    }

    fn size() -> (bytes: u64) {
        144
    }

    fn to_words(&self) -> (words: Vec<u32>) {
        let mut words: Vec<u32> = Vec::new();
        self.view_matrix.push_words(&mut words);
        self.projection.push_words(&mut words);
        self.view_pos.push_words(&mut words);
        words.push(self._pad);
        assert(words@ =~= self.words());
        words
    }
}

/// The matrix that takes world space into the clip space of a light or of a
/// reflecting surface: the private uniform of an off-screen pass.
#[derive(Clone, Copy, Debug, PartialEq, Eq, Structural)]
pub struct LightSpaceMatrix {
    pub light_space_matrix: Matrix4,
}

impl GpuData for LightSpaceMatrix {
    open spec fn words(&self) -> Seq<u32> {
        self.light_space_matrix.words()
    }

    open spec fn word_count() -> nat {
        16
    }

    proof fn lemma_word_count(&self) {
    }

    fn size() -> (bytes: u64) {
        64
    }

    fn to_words(&self) -> (words: Vec<u32>) {
        let mut words: Vec<u32> = Vec::new();
        self.light_space_matrix.push_words(&mut words);
        assert(words@ =~= self.words());
        words
    }
}

/// The projection of the user interface: the private uniform of its pass.
#[derive(Clone, Copy, Debug, PartialEq, Eq, Structural)]
pub struct ViewMatrix {
    pub matrix: Matrix4,
}

impl GpuData for ViewMatrix {
    open spec fn words(&self) -> Seq<u32> {
        self.matrix.words()
    }

    open spec fn word_count() -> nat {
        16
    }

    proof fn lemma_word_count(&self) {
    }

    fn size() -> (bytes: u64) {
        64
    }

    fn to_words(&self) -> (words: Vec<u32>) {
        let mut words: Vec<u32> = Vec::new();
        self.matrix.push_words(&mut words);
        assert(words@ =~= self.words());
        words
    }
}

/// The model matrix of a water surface: the private uniform of the water
/// surface pass.
#[derive(Clone, Copy, Debug, PartialEq, Eq, Structural)]
pub struct HeightMapModelMatrix {
    pub model_matrix: Matrix4,
}

impl GpuData for HeightMapModelMatrix {
    open spec fn words(&self) -> Seq<u32> {
        self.model_matrix.words()
    }

    open spec fn word_count() -> nat {
        16
    }

    proof fn lemma_word_count(&self) {
    }

    fn size() -> (bytes: u64) {
        64
    }

    fn to_words(&self) -> (words: Vec<u32>) {
        let mut words: Vec<u32> = Vec::new();
        self.model_matrix.push_words(&mut words);
        assert(words@ =~= self.words());
        words
    }
}

} // verus!
