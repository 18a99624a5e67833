use vstd::prelude::*;

verus! {

/// Bytes between the starts of two vertices: two 4-component 32-bit attributes.
pub const VERTEX_STRIDE: u64 = 32;

/// Offset of the position attribute within a vertex.
pub const POSITION_OFFSET: u64 = 0;

/// Offset of the colour attribute within a vertex.
pub const COLOR_OFFSET: u64 = 16;

/// Number of 32-bit words in one vertex.
pub const WORDS_PER_VERTEX: usize = 8;

/// Buffer sizes written at creation must be a multiple of this.
pub const COPY_ALIGNMENT: u64 = 4;

/// The scene's index list: the three vertices in order.
pub fn scene_indices() -> (r: Vec<u16>)
    ensures
        r@ == seq![0u16, 1u16, 2u16],
{
    let mut r: Vec<u16> = Vec::new();
    r.push(0);
    r.push(1);
    r.push(2);
    assert(r@ =~= seq![0u16, 1u16, 2u16]);
    r
}

/// `n` rounded up to the next multiple of the copy alignment.
pub fn aligned_size(n: u64) -> (r: u64)
    requires
        n <= u64::MAX - 3,
    ensures
        r % 4 == 0,
        n <= r < n + 4,
{
    let rem = n % COPY_ALIGNMENT;
    if rem == 0 {
        n
    } else {
        n + (COPY_ALIGNMENT - rem)
    }
}

/// The four bytes of `w`, least significant first.
pub open spec fn le_bytes_u32(w: u32) -> Seq<u8> {
    seq![
        (w % 256) as u8,
        ((w / 256) % 256) as u8,
        ((w / 65536) % 256) as u8,
        ((w / 16777216) % 256) as u8,
    ]
}

/// The two bytes of `w`, least significant first.
pub open spec fn le_bytes_u16(w: u16) -> Seq<u8> {
    seq![(w % 256) as u8, ((w / 256) % 256) as u8]
}

/// The words of `ws`, one after the other, each least significant byte first.
pub open spec fn encode_u32s(ws: Seq<u32>) -> Seq<u8>
    decreases ws.len(),
{
    if ws.len() == 0 {
        Seq::empty()
    } else {
        encode_u32s(ws.drop_last()) + le_bytes_u32(ws.last())
    }
}

/// The half-words of `ws`, one after the other, each least significant byte
/// first.
pub open spec fn encode_u16s(ws: Seq<u16>) -> Seq<u8>
    decreases ws.len(),
{
    if ws.len() == 0 {
        Seq::empty()
    } else {
        encode_u16s(ws.drop_last()) + le_bytes_u16(ws.last())
    }
}

proof fn lemma_encode_u32s_len(ws: Seq<u32>)
    ensures
        encode_u32s(ws).len() == 4 * ws.len(),
    decreases ws.len(),
{
    if ws.len() > 0 {
        lemma_encode_u32s_len(ws.drop_last());
    }
}

proof fn lemma_encode_u16s_len(ws: Seq<u16>)
    ensures
        encode_u16s(ws).len() == 2 * ws.len(),
    decreases ws.len(),
{
    if ws.len() > 0 {
        lemma_encode_u16s_len(ws.drop_last());
    }
}

/// Serialises 32-bit words (a vertex array, as the bit patterns of its
/// components) into the bytes of a buffer, four per word.
pub fn encode_words(ws: &Vec<u32>) -> (r: Vec<u8>)
    requires
        4 * ws@.len() <= usize::MAX,
    ensures
        r@ == encode_u32s(ws@),
        r@.len() == 4 * ws@.len(),
{
    let mut r: Vec<u8> = Vec::new();
    let mut i: usize = 0;
    while i < ws.len()
        invariant
            i <= ws@.len(),
            r@ == encode_u32s(ws@.subrange(0, i as int)),
        decreases ws@.len() - i,
    {
        let w = ws[i];
        r.push((w % 256) as u8);
        r.push(((w / 256) % 256) as u8);
        r.push(((w / 65536) % 256) as u8);
        r.push(((w / 16777216) % 256) as u8);
        proof {
            let next = ws@.subrange(0, i as int + 1);
            assert(next.drop_last() =~= ws@.subrange(0, i as int));
            assert(r@ =~= encode_u32s(next));
        }
        i = i + 1;
    }
    assert(ws@.subrange(0, ws@.len() as int) =~= ws@);
    proof {
        lemma_encode_u32s_len(ws@);
    }
    r
}

/// Serialises 16-bit indices into exactly `size` bytes of a buffer, two per
/// index, the rest zero.
pub fn encode_indices(ws: &Vec<u16>, size: usize) -> (r: Vec<u8>)
    requires
        2 * ws@.len() <= size,
    ensures
        r@ == encode_u16s(ws@) + Seq::new((size - 2 * ws@.len()) as nat, |_i: int| 0u8),
        r@.len() == size,
{
    let mut r: Vec<u8> = Vec::new();
    let mut i: usize = 0;
    while i < ws.len()
        invariant
            i <= ws@.len(),
            2 * ws@.len() <= size,
            r@ == encode_u16s(ws@.subrange(0, i as int)),
        decreases ws@.len() - i,
    {
        let w = ws[i];
        r.push((w % 256) as u8);
        r.push(((w / 256) % 256) as u8);
        proof {
            let next = ws@.subrange(0, i as int + 1);
            assert(next.drop_last() =~= ws@.subrange(0, i as int));
            assert(r@ =~= encode_u16s(next));
        }
        i = i + 1;
    }
    assert(ws@.subrange(0, ws@.len() as int) =~= ws@);
    proof {
        lemma_encode_u16s_len(ws@);
    }
    let ghost body = r@;
    let mut k: usize = r.len();
    while k < size
        invariant
            body.len() <= k <= size,
            r@.len() == k,
            r@ == body + Seq::new((k - body.len()) as nat, |_i: int| 0u8),
        decreases size - k,
    {
        r.push(0);
        k = k + 1;
        assert(r@ =~= body + Seq::new((k - body.len()) as nat, |_i: int| 0u8));
    }
    r
}

/// The bytes of the scene's index buffer: the three indices, padded with
/// zeros to the copy alignment.
pub fn scene_index_bytes() -> (r: Vec<u8>)
    ensures
        r@ == encode_u16s(seq![0u16, 1u16, 2u16]) + seq![0u8, 0u8],
        r@.len() == 8,
        r@.len() % 4 == 0,
{
    let indices = scene_indices();
    let size = aligned_size(2 * indices.len() as u64);
    let r = encode_indices(&indices, size as usize);
    assert(Seq::new(2, |_i: int| 0u8) =~= seq![0u8, 0u8]);
    r
}

} // verus!
