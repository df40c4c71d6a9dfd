//! Little-endian serialization of 32-bit words.
//!
//! Uniform blocks are mirrored byte-for-byte between a CPU struct and a GPU
//! buffer.  The bridge between the two is this module: a word becomes exactly
//! four little-endian bytes, and a sequence of words becomes the
//! concatenation of its words' bytes.

use vstd::prelude::*;

verus! {

/// The 32-bit pattern of the scalar one, the diagonal of an identity
/// matrix.
pub const SCALAR_ONE_BITS: u32 = 0x3F80_0000;

/// The sixteen scalar patterns of the 4×4 identity matrix, row-major.
pub open spec fn identity_mat4_words() -> Seq<u32> {
    seq![
        SCALAR_ONE_BITS, 0, 0, 0,
        0, SCALAR_ONE_BITS, 0, 0,
        0, 0, SCALAR_ONE_BITS, 0,
        0, 0, 0, SCALAR_ONE_BITS,
    ]
}

/// The 4×4 identity matrix as sixteen scalar patterns, row-major.
pub fn identity_mat4() -> (m: [u32; 16])
    ensures
        m@ == identity_mat4_words(),
{
    let m: [u32; 16] = [
        SCALAR_ONE_BITS, 0, 0, 0,
        0, SCALAR_ONE_BITS, 0, 0,
        0, 0, SCALAR_ONE_BITS, 0,
        0, 0, 0, SCALAR_ONE_BITS,
    ];
    proof {
        assert(m@ =~= identity_mat4_words());
    }
    m
}

/// The four little-endian bytes of one 32-bit word.
pub open spec fn u32_le_bytes(x: u32) -> Seq<u8> {
    seq![
        (x % 256) as u8,
        ((x / 256) % 256) as u8,
        ((x / 65536) % 256) as u8,
        ((x / 16777216) % 256) as u8,
    ]
}

/// The little-endian bytes of a sequence of words, word by word.
pub open spec fn words_le_bytes(ws: Seq<u32>) -> Seq<u8>
    decreases ws.len(),
{
    if ws.len() == 0 {
        Seq::<u8>::empty()
    } else {
        u32_le_bytes(ws[0]) + words_le_bytes(ws.drop_first())
    }
}

/// The byte expansion is four bytes per word.
pub proof fn lemma_words_le_bytes_len(ws: Seq<u32>)
    ensures
        words_le_bytes(ws).len() == 4 * ws.len(),
    decreases ws.len(),
{
    if ws.len() > 0 {
        lemma_words_le_bytes_len(ws.drop_first());
    }
}

/// Appending one word appends exactly its four bytes.
pub proof fn lemma_words_le_bytes_push(ws: Seq<u32>, x: u32)
    ensures
        words_le_bytes(ws.push(x)) == words_le_bytes(ws) + u32_le_bytes(x),
    decreases ws.len(),
{
    if ws.len() == 0 {
        let d = ws.push(x).drop_first();
        assert(d =~= Seq::<u32>::empty());
        assert(words_le_bytes(d) == Seq::<u8>::empty());
        assert(ws.push(x)[0] == x);
        assert(words_le_bytes(ws.push(x)) == u32_le_bytes(x) + words_le_bytes(d));
        assert(words_le_bytes(ws.push(x)) =~= u32_le_bytes(x));
        assert(words_le_bytes(ws) + u32_le_bytes(x) =~= u32_le_bytes(x));
    } else {
        assert(ws.push(x).drop_first() =~= ws.drop_first().push(x));
        lemma_words_le_bytes_push(ws.drop_first(), x);
        assert(words_le_bytes(ws.push(x)) =~= words_le_bytes(ws) + u32_le_bytes(x));
    }
}

/// Appends the four little-endian bytes of `x` to `out`.
pub fn push_u32_le(out: &mut Vec<u8>, x: u32)
    ensures
        final(out)@ == old(out)@ + u32_le_bytes(x),
{
    out.push((x % 256) as u8);
    out.push(((x / 256) % 256) as u8);
    out.push(((x / 65536) % 256) as u8);
    out.push(((x / 16777216) % 256) as u8);
    assert(out@ =~= old(out)@ + u32_le_bytes(x));
}

/// Serializes a 4×4 matrix held as sixteen 32-bit scalar patterns, in
/// order, four little-endian bytes each: the 64-byte shader layout.
pub fn mat4_to_bytes(m: &[u32; 16]) -> (out: Vec<u8>)
    ensures
        out@ == words_le_bytes(m@),
        out@.len() == 64,
{
    let mut out: Vec<u8> = Vec::new();
    let mut i: usize = 0;
    while i < 16
        invariant
            i <= 16,
            out@ == words_le_bytes(m@.take(i as int)),
        decreases 16 - i,
    {
        proof {
            assert(m@.take(i as int).push(m@[i as int]) =~= m@.take(i + 1));
            lemma_words_le_bytes_push(m@.take(i as int), m@[i as int]);
        }
        push_u32_le(&mut out, m[i]);
        i = i + 1;
    }
    proof {
        assert(m@.take(16) =~= m@);
        lemma_words_le_bytes_len(m@);
    }
    out
}

/// Serializes the words of `ws` in order, four little-endian bytes each.
pub fn words_to_bytes(ws: &Vec<u32>) -> (out: Vec<u8>)
    ensures
        out@ == words_le_bytes(ws@),
        out@.len() == 4 * ws@.len(),
{
    let mut out: Vec<u8> = Vec::new();
    let mut i: usize = 0;
    while i < ws.len()
        invariant
            i <= ws@.len(),
            out@ == words_le_bytes(ws@.take(i as int)),
        decreases ws@.len() - i,
    {
        proof {
            assert(ws@.take(i as int).push(ws@[i as int]) =~= ws@.take(i + 1));
            lemma_words_le_bytes_push(ws@.take(i as int), ws@[i as int]);
        }
        push_u32_le(&mut out, ws[i]);
        i = i + 1;
    }
    proof {
        assert(ws@.take(ws@.len() as int) =~= ws@);
        lemma_words_le_bytes_len(ws@);
    }
    out
}

} // verus!
