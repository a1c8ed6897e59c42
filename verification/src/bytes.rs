//! Little-endian serialization of 32-bit words.
//!
//! Every uniform block the renderer uploads is a sequence of 32-bit words
//! (IEEE-754 bit patterns of `f32` scalars, plus explicit padding words).
//! This module gives the byte image of such a sequence its one definition
//! and the executable writer that provably produces it.

use vstd::prelude::*;

verus! {

/// The four little-endian bytes of one 32-bit word.
pub open spec fn word_le_bytes(w: u32) -> Seq<u8> {
    seq![
        (w & 0xff) as u8,
        ((w >> 8) & 0xff) as u8,
        ((w >> 16) & 0xff) as u8,
        ((w >> 24) & 0xff) as u8,
    ]
}

/// The byte image of a word sequence: each word in order, little-endian.
pub open spec fn words_le_bytes(ws: Seq<u32>) -> Seq<u8>
    decreases ws.len(),
{
    if ws.len() == 0 {
        Seq::empty()
    } else {
        words_le_bytes(ws.drop_last()) + word_le_bytes(ws.last())
    }
}

/// The byte image is four bytes per word.
pub proof fn lemma_words_le_bytes_len(ws: Seq<u32>)
    ensures
        words_le_bytes(ws).len() == 4 * ws.len(),
    decreases ws.len(),
{
    if ws.len() > 0 {
        lemma_words_le_bytes_len(ws.drop_last());
    }
}

/// The byte image of a concatenation is the concatenation of the images.
pub proof fn lemma_words_le_bytes_concat(a: Seq<u32>, b: Seq<u32>)
    ensures
        words_le_bytes(a + b) == words_le_bytes(a) + words_le_bytes(b),
    decreases b.len(),
{
    if b.len() == 0 {
        assert(a + b =~= a);
        assert(words_le_bytes(a) + words_le_bytes(b) =~= words_le_bytes(a));
    } else {
        lemma_words_le_bytes_concat(a, b.drop_last());
        assert((a + b).drop_last() =~= a + b.drop_last());
        assert((a + b).last() == b.last());
        assert(words_le_bytes(a) + (words_le_bytes(b.drop_last()) + word_le_bytes(b.last()))
            =~= (words_le_bytes(a) + words_le_bytes(b.drop_last())) + word_le_bytes(b.last()));
    }
}

/// The four bytes of a word determine the word.
pub proof fn lemma_word_le_bytes_injective(w1: u32, w2: u32)
    requires
        word_le_bytes(w1) == word_le_bytes(w2),
    ensures
        w1 == w2,
{
    assert(word_le_bytes(w1)[0] == word_le_bytes(w2)[0]);
    assert(word_le_bytes(w1)[1] == word_le_bytes(w2)[1]);
    assert(word_le_bytes(w1)[2] == word_le_bytes(w2)[2]);
    assert(word_le_bytes(w1)[3] == word_le_bytes(w2)[3]);
    assert(w1 == w2) by (bit_vector)
        requires
            (w1 & 0xff) as u8 == (w2 & 0xff) as u8,
            ((w1 >> 8) & 0xff) as u8 == ((w2 >> 8) & 0xff) as u8,
            ((w1 >> 16) & 0xff) as u8 == ((w2 >> 16) & 0xff) as u8,
            ((w1 >> 24) & 0xff) as u8 == ((w2 >> 24) & 0xff) as u8,
    ;
}

/// The byte image determines the words: two word sequences of the same
/// length with the same byte image are the same sequence.
pub proof fn lemma_words_le_bytes_injective(a: Seq<u32>, b: Seq<u32>)
    requires
        a.len() == b.len(),
        words_le_bytes(a) == words_le_bytes(b),
    ensures
        a == b,
    decreases a.len(),
{
    if a.len() == 0 {
        assert(a =~= b);
    } else {
        let pa = words_le_bytes(a.drop_last());
        let pb = words_le_bytes(b.drop_last());
        let la = word_le_bytes(a.last());
        let lb = word_le_bytes(b.last());
        lemma_words_le_bytes_len(a.drop_last());
        lemma_words_le_bytes_len(b.drop_last());
        assert(pa.len() == pb.len());
        assert(pa + la == pb + lb);
        assert forall|i: int| 0 <= i < pa.len() implies pa[i] == pb[i] by {
            assert((pa + la)[i] == pa[i]);
            assert((pb + lb)[i] == pb[i]);
        }
        assert(pa =~= pb);
        assert forall|i: int| 0 <= i < 4 implies la[i] == lb[i] by {
            assert((pa + la)[pa.len() + i] == la[i]);
            assert((pb + lb)[pb.len() + i] == lb[i]);
        }
        assert(la =~= lb);
        lemma_word_le_bytes_injective(a.last(), b.last());
        lemma_words_le_bytes_injective(a.drop_last(), b.drop_last());
        assert forall|i: int| 0 <= i < a.len() implies a[i] == b[i] by {
            if i < a.len() - 1 {
                assert(a.drop_last()[i] == b.drop_last()[i]);
            } else {
                assert(a.last() == b.last());
            }
        }
        assert(a =~= b);
    }
}

/// Appends the four little-endian bytes of `w` to `out`.
pub fn push_word_le(out: &mut Vec<u8>, w: u32)
    ensures
        final(out)@ == old(out)@ + word_le_bytes(w),
{
    out.push((w & 0xff) as u8);
    out.push(((w >> 8) & 0xff) as u8);
    out.push(((w >> 16) & 0xff) as u8);
    out.push(((w >> 24) & 0xff) as u8);
    assert(out@ =~= old(out)@ + word_le_bytes(w));
}

/// Serializes a word vector to its little-endian byte image.
pub fn words_to_bytes(ws: &Vec<u32>) -> (r: Vec<u8>)
    ensures
        r@ == words_le_bytes(ws@),
        r@.len() == 4 * ws@.len(),
{
    let mut out: Vec<u8> = Vec::new();
    let mut i: usize = 0;
    while i < ws.len()
        invariant
            i <= ws@.len(),
            out@ == words_le_bytes(ws@.take(i as int)),
        decreases ws@.len() - i,
    {
        push_word_le(&mut out, ws[i]);
        proof {
            assert(ws@.take(i + 1 as int).drop_last() =~= ws@.take(i as int));
            assert(ws@.take(i + 1 as int).last() == ws@[i as int]);
        }
        i = i + 1;
    }
    proof {
        assert(ws@.take(ws@.len() as int) =~= ws@);
        lemma_words_le_bytes_len(ws@);
    }
    out
}

/// Appends the byte image of `ws` to `out`.
pub fn extend_words_le(out: &mut Vec<u8>, ws: &Vec<u32>)
    ensures
        final(out)@ == old(out)@ + words_le_bytes(ws@),
{
    let mut i: usize = 0;
    while i < ws.len()
        invariant
            i <= ws@.len(),
            out@ == old(out)@ + words_le_bytes(ws@.take(i as int)),
        decreases ws@.len() - i,
    {
        push_word_le(out, ws[i]);
        proof {
            assert(ws@.take(i + 1 as int).drop_last() =~= ws@.take(i as int));
            assert(ws@.take(i + 1 as int).last() == ws@[i as int]);
            assert(old(out)@ + words_le_bytes(ws@.take(i as int)) + word_le_bytes(ws@[i as int])
                =~= old(out)@ + (words_le_bytes(ws@.take(i as int)) + word_le_bytes(ws@[i as int])));
        }
        i = i + 1;
    }
    proof {
        assert(ws@.take(ws@.len() as int) =~= ws@);
    }
}

} // verus!
