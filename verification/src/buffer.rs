//! What goes into the graphics device's buffers: vertices, indices,
//! instance matrices and uniforms, as 32-bit words and as bytes.
//!
//! Every value that the shader reads is a 32-bit word: the encoding of a
//! number, an index, or padding. A buffer's content is the words of its
//! elements one after the other, in the order that the buffer's layout
//! names, each word as the four bytes that it takes in this machine's memory.

use vstd::prelude::*;
use crate::camera::CameraUniform;
use crate::instance::InstanceRaw;
use crate::light::LightUniform;
use crate::models::Mesh;
use crate::scalar::Scalar;
use crate::vertex::Vertex;

verus! {

/// Byte `k` of a word, counted from the least significant.
pub open spec fn byte_of(word: u32, k: int) -> u8 {
    if k == 0 {
        (word % 0x100) as u8
    } else if k == 1 {
        (word / 0x100 % 0x100) as u8
    } else if k == 2 {
        (word / 0x1_0000 % 0x100) as u8
    } else {
        (word / 0x100_0000) as u8
    }
}

/// The words byte by byte, each with its least significant byte first.
pub open spec fn little_endian(words: Seq<u32>) -> Seq<u8> {
    Seq::new(4 * words.len(), |j: int| byte_of(words[j / 4], j % 4))
}

/// The words byte by byte, each with its most significant byte first.
pub open spec fn big_endian(words: Seq<u32>) -> Seq<u8> {
    Seq::new(4 * words.len(), |j: int| byte_of(words[j / 4], 3 - j % 4))
}

/// `bytes` are the words as they lie in memory: four bytes for each, in one
/// of the two byte orders, the same for all.
pub open spec fn in_memory(words: Seq<u32>, bytes: Seq<u8>) -> bool {
    bytes == little_endian(words) || bytes == big_endian(words)
}

impl Vertex {
    /// The vertex as words: position, colour, texture coordinates and
    /// normal, as the vertex layout places them.
    pub open spec fn word_seq(self) -> Seq<u32> {
        seq![
            self.position[0].bits,
            self.position[1].bits,
            self.position[2].bits,
            self.color[0].bits,
            self.color[1].bits,
            self.color[2].bits,
            self.tex_coords[0].bits,
            self.tex_coords[1].bits,
            self.normal[0].bits,
            self.normal[1].bits,
            self.normal[2].bits,
        ]
    }
}

impl InstanceRaw {
    /// The matrix as words, column by column.
    pub open spec fn word_seq(self) -> Seq<u32> {
        Seq::new(16, |j: int| self.model[j / 4][j % 4].bits)
    }
}

impl LightUniform {
    /// The light as words: position, padding, colour, padding.
    pub open spec fn word_seq(self) -> Seq<u32> {
        seq![
            self.position[0].bits,
            self.position[1].bits,
            self.position[2].bits,
            self._padding,
            self.color[0].bits,
            self.color[1].bits,
            self.color[2].bits,
            self._padding2,
        ]
    }
}

impl CameraUniform {
    /// The camera as words: the view-projection matrix column by column,
    /// then the eye's position.
    pub open spec fn word_seq(self) -> Seq<u32> {
        Seq::new(
            20,
            |j: int|
                if j < 16 {
                    self.view_proj[j / 4][j % 4].bits
                } else {
                    self.view_pos[j - 16].bits
                },
        )
    }
}

/// The words of all vertices, one vertex after the other.
pub open spec fn vertex_words(vertices: Seq<Vertex>) -> Seq<u32> {
    Seq::new(11 * vertices.len(), |j: int| vertices[j / 11].word_seq()[j % 11])
}

/// The words of all instance matrices, one matrix after the other.
pub open spec fn instance_words(instances: Seq<InstanceRaw>) -> Seq<u32> {
    Seq::new(16 * instances.len(), |j: int| instances[j / 16].word_seq()[j % 16])
}

/// `bytemuck::cast_slice`, from 32-bit words to bytes: the bytes that the
/// words take in memory. The call cannot fail, as a byte needs no alignment
/// and four bytes make a word. Which of the two byte orders the machine has
/// is left open.
#[verifier::external_body]
fn cast_words(words: &Vec<u32>) -> (bytes: Vec<u8>)
    ensures
        in_memory(words@, bytes@),
{
    bytemuck::cast_slice::<u32, u8>(words.as_slice()).to_vec()
}

/// Appends the four words of one matrix column or vector.
fn push4(words: &mut Vec<u32>, v: &[Scalar; 4])
    ensures
        final(words)@ == old(words)@ + seq![v[0].bits, v[1].bits, v[2].bits, v[3].bits],
{
    words.push(v[0].to_bits());
    words.push(v[1].to_bits());
    words.push(v[2].to_bits());
    words.push(v[3].to_bits());
}

/// Appends the sixteen words of a matrix, column by column.
fn push_matrix(words: &mut Vec<u32>, m: &[[Scalar; 4]; 4])
    ensures
        final(words)@ == old(words)@ + Seq::new(16, |j: int| m[j / 4][j % 4].bits),
{
    push4(words, &m[0]);
    push4(words, &m[1]);
    push4(words, &m[2]);
    push4(words, &m[3]);
}

impl Mesh {
    /// The content of the mesh's vertex buffer.
    pub fn vertex_buffer(&self) -> (bytes: Vec<u8>)
        ensures
            in_memory(vertex_words(self.vertices@), bytes@),
    {
        let mut words: Vec<u32> = Vec::new();
        let mut i: usize = 0;
        while i < self.vertices.len()
            invariant
                0 <= i <= self.vertices.len(),
                words@ == vertex_words(self.vertices@.take(i as int)),
            decreases self.vertices.len() - i,
        {
            let v = &self.vertices[i];
            words.push(v.position[0].to_bits());
            words.push(v.position[1].to_bits());
            words.push(v.position[2].to_bits());
            words.push(v.color[0].to_bits());
            words.push(v.color[1].to_bits());
            words.push(v.color[2].to_bits());
            words.push(v.tex_coords[0].to_bits());
            words.push(v.tex_coords[1].to_bits());
            words.push(v.normal[0].to_bits());
            words.push(v.normal[1].to_bits());
            words.push(v.normal[2].to_bits());
            i = i + 1;
        }
        proof {
            assert(self.vertices@.take(self.vertices.len() as int) == self.vertices@);
        }
        cast_words(&words)
    }

    /// The content of the mesh's index buffer.
    pub fn index_buffer(&self) -> (bytes: Vec<u8>)
        ensures
            in_memory(self.indices@, bytes@),
    {
        cast_words(&self.indices)
    }
}

/// The content of the instance buffer: the model matrix of each instance.
pub fn instance_buffer(instances: &Vec<InstanceRaw>) -> (bytes: Vec<u8>)
    ensures
        in_memory(instance_words(instances@), bytes@),
{
    let mut words: Vec<u32> = Vec::new();
    let mut i: usize = 0;
    while i < instances.len()
        invariant
            0 <= i <= instances.len(),
            words@ == instance_words(instances@.take(i as int)),
        decreases instances.len() - i,
    {
        let ghost before = words@;
        push_matrix(&mut words, &instances[i].model);
        assert(words@ == before + instances@[i as int].word_seq());
        i = i + 1;
    }
    proof {
        assert(instances@.take(instances.len() as int) == instances@);
    }
    cast_words(&words)
}

impl LightUniform {
    /// The content of the light's uniform buffer.
    pub fn buffer(&self) -> (bytes: Vec<u8>)
        ensures
            in_memory(self.word_seq(), bytes@),
    {
        let mut words: Vec<u32> = Vec::new();
        words.push(self.position[0].to_bits());
        words.push(self.position[1].to_bits());
        words.push(self.position[2].to_bits());
        words.push(self._padding);
        words.push(self.color[0].to_bits());
        words.push(self.color[1].to_bits());
        words.push(self.color[2].to_bits());
        words.push(self._padding2);
        assert(words@ =~= self.word_seq());
        cast_words(&words)
    }
}

impl CameraUniform {
    /// The content of the camera's uniform buffer.
    pub fn buffer(&self) -> (bytes: Vec<u8>)
        ensures
            in_memory(self.word_seq(), bytes@),
    {
        let mut words: Vec<u32> = Vec::new();
        push_matrix(&mut words, &self.view_proj);
        push4(&mut words, &self.view_pos);
        assert(words@ =~= self.word_seq());
        cast_words(&words)
    }
}

/// A word is told by its four bytes.
proof fn lemma_bytes_tell_word(x: u32, y: u32)
    requires
        forall|k: int| 0 <= k < 4 ==> byte_of(x, k) == byte_of(y, k),
    ensures
        x == y,
{
    assert(byte_of(x, 0) == byte_of(y, 0));
    assert(byte_of(x, 1) == byte_of(y, 1));
    assert(byte_of(x, 2) == byte_of(y, 2));
    assert(byte_of(x, 3) == byte_of(y, 3));
}

/// A buffer's bytes say what its words are, in either byte order: the
/// content of a buffer is four bytes per word, and equal contents come from
/// equal words.
pub proof fn lemma_bytes_tell_words(a: Seq<u32>, b: Seq<u32>)
    ensures
        little_endian(a).len() == 4 * a.len(),
        big_endian(a).len() == 4 * a.len(),
        little_endian(a) == little_endian(b) ==> a == b,
        big_endian(a) == big_endian(b) ==> a == b,
{
    if little_endian(a) == little_endian(b) {
        assert(little_endian(a).len() == little_endian(b).len());
        assert forall|i: int| 0 <= i < a.len() implies a[i] == b[i] by {
            assert forall|k: int| 0 <= k < 4 implies byte_of(a[i], k) == byte_of(b[i], k) by {
                assert(little_endian(a)[4 * i + k] == little_endian(b)[4 * i + k]);
            }
            lemma_bytes_tell_word(a[i], b[i]);
        }
    }
    if big_endian(a) == big_endian(b) {
        assert(big_endian(a).len() == big_endian(b).len());
        assert forall|i: int| 0 <= i < a.len() implies a[i] == b[i] by {
            assert forall|k: int| 0 <= k < 4 implies byte_of(a[i], k) == byte_of(b[i], k) by {
                assert(big_endian(a)[4 * i + (3 - k)] == big_endian(b)[4 * i + (3 - k)]);
            }
            lemma_bytes_tell_word(a[i], b[i]);
        }
    }
}

} // verus!
