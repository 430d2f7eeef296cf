use vstd::prelude::*;

verus! {

/// Size in bytes of a three-component float attribute.
pub const FLOAT3_BYTES: u64 = 12;

/// Size in bytes of one packed vertex: a position and a colour.
pub const VERTEX_BYTES: u64 = 24;

/// Number of 32-bit words in one vertex.
pub const VERTEX_WORDS: usize = 6;

/// Bit patterns of the single-precision floats that the triangle uses.
pub const ZERO_BITS: u32 = 0x0000_0000;
pub const HALF_BITS: u32 = 0x3F00_0000;
pub const MINUS_HALF_BITS: u32 = 0xBF00_0000;
pub const ONE_BITS: u32 = 0x3F80_0000;

/// One vertex: a position and a colour, three single-precision floats each,
/// held as their IEEE-754 bit patterns.
#[derive(Clone, Copy, Debug)]
pub struct Vertex {
    pub pos: [u32; 3],
    pub color: [u32; 3],
}

/// Whether a buffer's vertices advance per vertex or per instance.
#[derive(Clone, Copy, Debug, PartialEq, Eq, Structural)]
pub enum StepMode {
    Vertex,
    Instance,
}

/// The shader-side type of one attribute.
#[derive(Clone, Copy, Debug, PartialEq, Eq, Structural)]
pub enum AttributeFormat {
    /// Three 32-bit floats.
    Float3,
}

/// Where one attribute lies within a vertex and which shader input reads it.
#[derive(Clone, Copy, Debug, PartialEq, Eq, Structural)]
pub struct VertexAttribute {
    pub offset: u64,
    pub shader_location: u32,
    pub format: AttributeFormat,
}

/// How the vertex stage reads a vertex buffer.
#[derive(Clone, Debug)]
pub struct VertexLayout {
    pub stride: u64,
    pub step_mode: StepMode,
    pub attributes: Vec<VertexAttribute>,
}

pub open spec fn format_size(f: AttributeFormat) -> int {
    match f {
        AttributeFormat::Float3 => FLOAT3_BYTES as int,
    }
}

impl VertexLayout {
    /// Attributes follow one another without padding, numbered from shader
    /// location 0, and the stride is the end of the last one.
    pub open spec fn is_packed(&self) -> bool {
        let a = self.attributes@;
        &&& a.len() > 0
        &&& a[0].offset == 0
        &&& forall|i: int| 0 <= i < a.len() ==> #[trigger] a[i].shader_location == i
        &&& forall|i: int|
            0 < i < a.len() ==> #[trigger] a[i].offset == a[i - 1].offset + format_size(
                a[i - 1].format,
            )
        &&& self.stride == a[a.len() - 1].offset + format_size(a[a.len() - 1].format)
    }
}

impl Vertex {
    /// The words of this vertex in buffer order: position, then colour.
    pub open spec fn words(self) -> Seq<u32> {
        self.pos@ + self.color@
    }

    /// The layout in which the vertex shader reads a buffer of vertices:
    /// the position at location 0, the colour at location 1.
    pub fn desc() -> (r: VertexLayout)
        ensures
            r.is_packed(),
            r.stride == VERTEX_BYTES,
            r.step_mode == StepMode::Vertex,
            r.attributes@ == seq![
                VertexAttribute { offset: 0, shader_location: 0, format: AttributeFormat::Float3 },
                VertexAttribute { offset: FLOAT3_BYTES, shader_location: 1, format: AttributeFormat::Float3 },
            ],
    {
        let mut attributes: Vec<VertexAttribute> = Vec::new();
        attributes.push(
            VertexAttribute { offset: 0, shader_location: 0, format: AttributeFormat::Float3 },
        );
        attributes.push(
            VertexAttribute {
                offset: FLOAT3_BYTES,
                shader_location: 1,
                format: AttributeFormat::Float3,
            },
        );
        let r = VertexLayout { stride: VERTEX_BYTES, step_mode: StepMode::Vertex, attributes };
        assert(r.attributes@[1].shader_location == 1);
        r
    }
}

/// The triangle's three vertices: red at the top, green at the bottom left,
/// blue at the bottom right.
pub open spec fn triangle_spec() -> Seq<Vertex> {
    seq![
        Vertex { pos: [ZERO_BITS, HALF_BITS, ZERO_BITS], color: [ONE_BITS, ZERO_BITS, ZERO_BITS] },
        Vertex { pos: [MINUS_HALF_BITS, MINUS_HALF_BITS, ZERO_BITS], color: [ZERO_BITS, ONE_BITS, ZERO_BITS] },
        Vertex { pos: [HALF_BITS, MINUS_HALF_BITS, ZERO_BITS], color: [ZERO_BITS, ZERO_BITS, ONE_BITS] },
    ]
}

/// The fixed triangle that the renderer draws.
pub fn triangle() -> (r: Vec<Vertex>)
    ensures
        r@ == triangle_spec(),
{
    let mut r: Vec<Vertex> = Vec::new();
    r.push(
        Vertex { pos: [ZERO_BITS, HALF_BITS, ZERO_BITS], color: [ONE_BITS, ZERO_BITS, ZERO_BITS] },
    );
    r.push(
        Vertex {
            pos: [MINUS_HALF_BITS, MINUS_HALF_BITS, ZERO_BITS],
            color: [ZERO_BITS, ONE_BITS, ZERO_BITS],
        },
    );
    r.push(
        Vertex {
            pos: [HALF_BITS, MINUS_HALF_BITS, ZERO_BITS],
            color: [ZERO_BITS, ZERO_BITS, ONE_BITS],
        },
    );
    assert(r@ =~= triangle_spec());
    r
}

/// The words of a sequence of vertices, one after another.
pub open spec fn words_of(vs: Seq<Vertex>) -> Seq<u32>
    decreases vs.len(),
{
    if vs.len() == 0 {
        Seq::empty()
    } else {
        words_of(vs.drop_last()) + vs.last().words()
    }
}

pub proof fn lemma_words_of_len(vs: Seq<Vertex>)
    ensures
        words_of(vs).len() == VERTEX_WORDS * vs.len(),
    decreases vs.len(),
{
    if vs.len() > 0 {
        lemma_words_of_len(vs.drop_last());
    }
}

/// Flattens vertices into the word sequence that a vertex buffer holds.
pub fn vertex_words(vs: &Vec<Vertex>) -> (r: Vec<u32>)
    requires
        vs@.len() * VERTEX_WORDS <= usize::MAX,
    ensures
        r@ == words_of(vs@),
        r@.len() == VERTEX_WORDS * vs@.len(),
{
    let mut r: Vec<u32> = Vec::new();
    let mut i: usize = 0;
    while i < vs.len()
        invariant
            i <= vs@.len(),
            r@ == words_of(vs@.take(i as int)),
        decreases vs@.len() - i,
    {
        let v = vs[i];
        r.push(v.pos[0]);
        r.push(v.pos[1]);
        r.push(v.pos[2]);
        r.push(v.color[0]);
        r.push(v.color[1]);
        r.push(v.color[2]);
        proof {
            assert(vs@.take(i + 1).drop_last() =~= vs@.take(i as int));
            assert(v.words() =~= seq![v.pos[0], v.pos[1], v.pos[2], v.color[0], v.color[1], v.color[2]]);
        }
        i = i + 1;
        assert(r@ =~= words_of(vs@.take(i as int)));
    }
    assert(vs@.take(i as int) =~= vs@);
    proof {
        lemma_words_of_len(vs@);
    }
    r
}

/// The byte of word `w` at position `k` (0 to 3) of its four in memory: least
/// significant first when `little` holds, most significant first otherwise.
pub open spec fn word_byte(w: u32, k: int, little: bool) -> u8 {
    let shift = if little {
        k
    } else {
        3 - k
    };
    ((w as int / pow256(shift)) % 256) as u8
}

pub open spec fn pow256(k: int) -> int {
    if k <= 0 {
        1
    } else if k == 1 {
        0x100
    } else if k == 2 {
        0x1_0000
    } else {
        0x100_0000
    }
}

/// Words laid out in memory four bytes each, all in one byte order.
pub open spec fn bytes_in_order(ws: Seq<u32>, little: bool) -> Seq<u8> {
    Seq::new(4 * ws.len(), |i: int| word_byte(ws[i / 4], i % 4, little))
}

/// Relies on bytemuck::cast_slice from `u32` to `u8`: the same memory seen as
/// bytes, four for each word, every word in the machine's one byte order.
#[verifier::external_body]
fn cast_words_to_bytes(words: &Vec<u32>) -> (r: Vec<u8>)
    ensures
        r@ == bytes_in_order(words@, true) || r@ == bytes_in_order(words@, false),
{
    bytemuck::cast_slice::<u32, u8>(words.as_slice()).to_vec()
}

/// The bytes uploaded as the vertex buffer: the vertices' words one after
/// another, each as four bytes in the machine's byte order.
pub fn vertex_bytes(vs: &Vec<Vertex>) -> (r: Vec<u8>)
    requires
        vs@.len() * VERTEX_BYTES <= usize::MAX,
    ensures
        r@ == bytes_in_order(words_of(vs@), true) || r@ == bytes_in_order(words_of(vs@), false),
        r@.len() == VERTEX_BYTES * vs@.len(),
{
    let words = vertex_words(vs);
    let r = cast_words_to_bytes(&words);
    r
}

} // verus!
