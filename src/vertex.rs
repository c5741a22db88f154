use vstd::prelude::*;

verus! {

/// One vertex, each `f32` attribute held as its bit pattern.
#[derive(Debug, Copy, Clone, PartialEq, Eq)]
pub struct VertexBits {
    pub position: [u32; 3],
    pub normal: [u32; 3],
    pub uv: [u32; 2],
}

/// Bytes per interleaved vertex: position (12), normal (12), uv (8).
pub const VERTEX_STRIDE: usize = 32;

/// Byte offset of the normal within an interleaved vertex.
pub const NORMAL_OFFSET: usize = 12;

/// Byte offset of the texture coordinates within an interleaved vertex.
pub const UV_OFFSET: usize = 24;

/// The four little-endian bytes of a word.
pub open spec fn le_bytes(w: u32) -> Seq<u8> {
    seq![w as u8, (w >> 8u32) as u8, (w >> 16u32) as u8, (w >> 24u32) as u8]
}

/// The word whose little-endian bytes are `b0..b3`.
pub open spec fn word_from_le(b0: u8, b1: u8, b2: u8, b3: u8) -> u32 {
    (b0 as u32) | ((b1 as u32) << 8u32) | ((b2 as u32) << 16u32) | ((b3 as u32) << 24u32)
}

/// The word stored at byte `off` of `bytes`.
pub open spec fn word_at(bytes: Seq<u8>, off: int) -> u32 {
    word_from_le(bytes[off], bytes[off + 1], bytes[off + 2], bytes[off + 3])
}

/// The eight words of a vertex in layout order.
pub open spec fn vertex_words(v: VertexBits) -> Seq<u32> {
    seq![v.position[0], v.position[1], v.position[2], v.normal[0], v.normal[1], v.normal[2], v.uv[0], v.uv[1]]
}

/// The little-endian bytes of a run of words.
pub open spec fn words_bytes(ws: Seq<u32>) -> Seq<u8>
    decreases ws.len(),
{
    if ws.len() == 0 {
        Seq::empty()
    } else {
        words_bytes(ws.drop_last()) + le_bytes(ws.last())
    }
}

/// The interleaved layout of a list of vertices: one 32-byte record each.
pub open spec fn packed(vs: Seq<VertexBits>) -> Seq<u8>
    decreases vs.len(),
{
    if vs.len() == 0 {
        Seq::empty()
    } else {
        packed(vs.drop_last()) + words_bytes(vertex_words(vs.last()))
    }
}

/// The vertex read back from the 32-byte record at byte `off`.
pub open spec fn vertex_at(bytes: Seq<u8>, off: int) -> VertexBits {
    VertexBits {
        position: [word_at(bytes, off), word_at(bytes, off + 4), word_at(bytes, off + 8)],
        normal: [word_at(bytes, off + 12), word_at(bytes, off + 16), word_at(bytes, off + 20)],
        uv: [word_at(bytes, off + 24), word_at(bytes, off + 28)],
    }
}

proof fn lemma_word_round_trip(w: u32)
    ensures
        word_from_le(w as u8, (w >> 8u32) as u8, (w >> 16u32) as u8, (w >> 24u32) as u8) == w,
{
    assert(((w as u8) as u32) | ((((w >> 8u32) as u8) as u32) << 8u32) | ((((w >> 16u32) as u8) as u32) << 16u32)
        | ((((w >> 24u32) as u8) as u32) << 24u32) == w) by (bit_vector);
}

/// The encoding of `n` words is `4 * n` bytes long.
pub proof fn lemma_words_bytes_len(ws: Seq<u32>)
    ensures
        words_bytes(ws).len() == 4 * ws.len(),
    decreases ws.len(),
{
    if ws.len() > 0 {
        lemma_words_bytes_len(ws.drop_last());
    }
}

/// Byte `4 * j + k` of the encoding of `ws` is byte `k` of word `j`.
proof fn lemma_words_bytes_index(ws: Seq<u32>, j: int)
    requires
        0 <= j < ws.len(),
    ensures
        words_bytes(ws).subrange(4 * j, 4 * j + 4) == le_bytes(ws[j]),
    decreases ws.len(),
{
    lemma_words_bytes_len(ws.drop_last());
    if j < ws.len() - 1 {
        lemma_words_bytes_index(ws.drop_last(), j);
        assert(words_bytes(ws).subrange(4 * j, 4 * j + 4) =~= words_bytes(ws.drop_last()).subrange(4 * j, 4 * j + 4));
    } else {
        assert(words_bytes(ws).subrange(4 * j, 4 * j + 4) =~= le_bytes(ws.last()));
    }
}

proof fn lemma_packed_len(vs: Seq<VertexBits>)
    ensures
        packed(vs).len() == 32 * vs.len(),
    decreases vs.len(),
{
    if vs.len() > 0 {
        lemma_packed_len(vs.drop_last());
        lemma_words_bytes_len(vertex_words(vs.last()));
    }
}

/// The record at `32 * i` of a packed list is the encoding of vertex `i`.
proof fn lemma_packed_record(vs: Seq<VertexBits>, i: int)
    requires
        0 <= i < vs.len(),
    ensures
        packed(vs).subrange(32 * i, 32 * i + 32) == words_bytes(vertex_words(vs[i])),
    decreases vs.len(),
{
    lemma_packed_len(vs.drop_last());
    lemma_words_bytes_len(vertex_words(vs.last()));
    if i < vs.len() - 1 {
        lemma_packed_record(vs.drop_last(), i);
        assert(packed(vs).subrange(32 * i, 32 * i + 32) =~= packed(vs.drop_last()).subrange(32 * i, 32 * i + 32));
    } else {
        assert(packed(vs).subrange(32 * i, 32 * i + 32) =~= words_bytes(vertex_words(vs.last())));
    }
}

/// Reading back the record of vertex `i` at byte offset `i * 32` of the
/// interleaved packing of `vs` gives vertex `i`, bit for bit.
pub proof fn lemma_pack_read_round_trip(vs: Seq<VertexBits>, i: int)
    requires
        0 <= i < vs.len(),
    ensures
        packed(vs).len() == VERTEX_STRIDE * vs.len(),
        vertex_at(packed(vs), i * VERTEX_STRIDE) == vs[i],
{
    lemma_packed_len(vs);
    lemma_packed_record(vs, i);
    let v = vs[i];
    let ws = vertex_words(v);
    let rec = words_bytes(ws);
    let bytes = packed(vs);
    let off = i * 32;
    assert forall|j: int| 0 <= j < 8 implies word_at(bytes, off + 4 * j) == ws[j] by {
        lemma_words_bytes_index(ws, j);
        assert(bytes[off + 4 * j] == rec[4 * j]);
        assert(bytes[off + 4 * j + 1] == rec[4 * j + 1]);
        assert(bytes[off + 4 * j + 2] == rec[4 * j + 2]);
        assert(bytes[off + 4 * j + 3] == rec[4 * j + 3]);
        assert(rec.subrange(4 * j, 4 * j + 4)[0] == rec[4 * j]);
        lemma_word_round_trip(ws[j]);
    }
    assert(word_at(bytes, off) == ws[0]);
    assert(word_at(bytes, off + 4) == ws[1]);
    assert(word_at(bytes, off + 8) == ws[2]);
    assert(word_at(bytes, off + 12) == ws[3]);
    assert(word_at(bytes, off + 16) == ws[4]);
    assert(word_at(bytes, off + 20) == ws[5]);
    assert(word_at(bytes, off + 24) == ws[6]);
    assert(word_at(bytes, off + 28) == ws[7]);
    assert(vertex_at(bytes, off).position =~= v.position);
    assert(vertex_at(bytes, off).normal =~= v.normal);
    assert(vertex_at(bytes, off).uv =~= v.uv);
}

/// Appends the four little-endian bytes of `w`.
fn push_word(out: &mut Vec<u8>, w: u32)
    ensures
        final(out)@ == old(out)@ + le_bytes(w),
{
    out.push(w as u8);
    out.push((w >> 8u32) as u8);
    out.push((w >> 16u32) as u8);
    out.push((w >> 24u32) as u8);
    assert(out@ =~= old(out)@ + le_bytes(w));
}

/// The word stored little-endian at byte `off`.
fn read_word(bytes: &Vec<u8>, off: usize) -> (r: u32)
    requires
        off + 4 <= bytes.len(),
    ensures
        r == word_at(bytes@, off as int),
{
    (bytes[off] as u32) | ((bytes[off + 1] as u32) << 8u32) | ((bytes[off + 2] as u32) << 16u32) | ((bytes[off + 3] as u32) << 24u32)
}

/// The eight words of a vertex in layout order.
fn words_of(v: &VertexBits) -> (r: [u32; 8])
    ensures
        r@ == vertex_words(*v),
{
    let r = [v.position[0], v.position[1], v.position[2], v.normal[0], v.normal[1], v.normal[2], v.uv[0], v.uv[1]];
    assert(r@ =~= vertex_words(*v));
    r
}

/// Packs `vertices` into one interleaved buffer image: per vertex, position,
/// normal and texture coordinates, 32 bytes, each word little-endian.
pub fn pack_interleaved(vertices: &Vec<VertexBits>) -> (r: Vec<u8>)
    ensures
        r@ == packed(vertices@),
        r@.len() == VERTEX_STRIDE * vertices@.len(),
{
    let mut out: Vec<u8> = Vec::new();
    let mut i: usize = 0;
    while i < vertices.len()
        invariant
            i <= vertices@.len(),
            out@ == packed(vertices@.subrange(0, i as int)),
        decreases vertices@.len() - i,
    {
        let ws = words_of(&vertices[i]);
        let ghost base = out@;
        let mut j: usize = 0;
        while j < 8
            invariant
                j <= 8,
                ws@ == vertex_words(vertices@[i as int]),
                out@ == base + words_bytes(ws@.subrange(0, j as int)),
            decreases 8 - j,
        {
            push_word(&mut out, ws[j]);
            proof {
                assert(ws@.subrange(0, j + 1).drop_last() =~= ws@.subrange(0, j as int));
                assert(out@ =~= base + words_bytes(ws@.subrange(0, j + 1)));
            }
            j = j + 1;
        }
        proof {
            assert(ws@.subrange(0, 8) =~= ws@);
            let sub = vertices@.subrange(0, i + 1);
            assert(sub.drop_last() =~= vertices@.subrange(0, i as int));
            assert(sub.last() == vertices@[i as int]);
        }
        i = i + 1;
    }
    proof {
        assert(vertices@.subrange(0, vertices@.len() as int) =~= vertices@);
        lemma_packed_len(vertices@);
    }
    out
}

/// The vertex whose 32-byte record starts at byte `i * 32` of `bytes`, or
/// `None` when the buffer ends before that record does.
pub fn read_vertex(bytes: &Vec<u8>, i: usize) -> (r: Option<VertexBits>)
    ensures
        (i + 1) * VERTEX_STRIDE <= bytes@.len() ==> r == Some(vertex_at(bytes@, i * VERTEX_STRIDE)),
        (i + 1) * VERTEX_STRIDE > bytes@.len() ==> r is None,
{
    let n = bytes.len() / VERTEX_STRIDE;
    if i >= n {
        return None;
    }
    let off = i * VERTEX_STRIDE;
    let v = VertexBits {
        position: [read_word(bytes, off), read_word(bytes, off + 4), read_word(bytes, off + 8)],
        normal: [read_word(bytes, off + 12), read_word(bytes, off + 16), read_word(bytes, off + 20)],
        uv: [read_word(bytes, off + 24), read_word(bytes, off + 28)],
    };
    Some(v)
}

/// The element format of a vertex attribute.
#[derive(Debug, Copy, Clone, PartialEq, Eq, Structural)]
pub enum VertexFormat {
    Float2,
    Float3,
}

/// One attribute of the vertex layout: its format, its byte offset within a
/// vertex, and the buffer slot it is read from.
#[derive(Debug, Copy, Clone, PartialEq, Eq, Structural)]
pub struct VertexAttribute {
    pub format: VertexFormat,
    pub offset: usize,
    pub buffer_index: usize,
}

/// How the vertex stage fetches vertices: the attributes in shader order, and
/// for the one buffer slot its stride and step rate (once per vertex).
pub struct VertexLayout {
    pub attributes: Vec<VertexAttribute>,
    pub buffer_index: usize,
    pub stride: usize,
    pub step_rate: usize,
}

/// The buffer slot that interleaved vertices are bound to.
pub const VERTEX_BUFFER_SLOT: usize = 1;

/// The layout of interleaved vertices: position (`Float3` at 0), normal
/// (`Float3` at 12) and texture coordinates (`Float2` at 24), all from slot 1
/// with a 32-byte stride.
pub fn interleaved_layout() -> (r: VertexLayout)
    ensures
        r.attributes@ == seq![
            VertexAttribute { format: VertexFormat::Float3, offset: 0, buffer_index: VERTEX_BUFFER_SLOT },
            VertexAttribute { format: VertexFormat::Float3, offset: NORMAL_OFFSET, buffer_index: VERTEX_BUFFER_SLOT },
            VertexAttribute { format: VertexFormat::Float2, offset: UV_OFFSET, buffer_index: VERTEX_BUFFER_SLOT },
        ],
        r.buffer_index == VERTEX_BUFFER_SLOT,
        r.stride == VERTEX_STRIDE,
        r.step_rate == 1,
{
    let mut attributes: Vec<VertexAttribute> = Vec::new();
    attributes.push(VertexAttribute { format: VertexFormat::Float3, offset: 0, buffer_index: VERTEX_BUFFER_SLOT });
    attributes.push(VertexAttribute { format: VertexFormat::Float3, offset: NORMAL_OFFSET, buffer_index: VERTEX_BUFFER_SLOT });
    attributes.push(VertexAttribute { format: VertexFormat::Float2, offset: UV_OFFSET, buffer_index: VERTEX_BUFFER_SLOT });
    let r = VertexLayout { attributes, buffer_index: VERTEX_BUFFER_SLOT, stride: VERTEX_STRIDE, step_rate: 1 };
    assert(r.attributes@ =~= seq![
        VertexAttribute { format: VertexFormat::Float3, offset: 0, buffer_index: VERTEX_BUFFER_SLOT },
        VertexAttribute { format: VertexFormat::Float3, offset: NORMAL_OFFSET, buffer_index: VERTEX_BUFFER_SLOT },
        VertexAttribute { format: VertexFormat::Float2, offset: UV_OFFSET, buffer_index: VERTEX_BUFFER_SLOT },
    ]);
    r
}

/// Appends the little-endian bytes of each word of `ws`, in order.
pub fn push_words(out: &mut Vec<u8>, ws: &[u32])
    ensures
        final(out)@ == old(out)@ + words_bytes(ws@),
{
    let ghost start = out@;
    let mut j: usize = 0;
    while j < ws.len()
        invariant
            j <= ws@.len(),
            out@ == start + words_bytes(ws@.subrange(0, j as int)),
        decreases ws@.len() - j,
    {
        push_word(out, ws[j]);
        proof {
            assert(ws@.subrange(0, j + 1).drop_last() =~= ws@.subrange(0, j as int));
            assert(out@ =~= start + words_bytes(ws@.subrange(0, j + 1)));
        }
        j = j + 1;
    }
    assert(ws@.subrange(0, ws@.len() as int) =~= ws@);
}

} // verus!
