//! Moving host words to and from the byte buffers that the device reads and
//! writes. The reinterpretation is `bytemuck`'s; each word keeps the byte order
//! of the machine that runs the program.

use vstd::prelude::*;
use vstd::endian::{Endian, endianness};

verus! {

/// The four bytes of `w`, least significant first.
pub open spec fn le_bytes(w: u32) -> Seq<u8> {
    seq![
        (w % 256) as u8,
        ((w / 256) % 256) as u8,
        ((w / 65536) % 256) as u8,
        ((w / 16777216) % 256) as u8,
    ]
}

/// The four bytes of `w` in the byte order of the executing machine.
pub open spec fn word_bytes(w: u32) -> Seq<u8> {
    match endianness() {
        Endian::Little => le_bytes(w),
        Endian::Big => le_bytes(w).reverse(),
    }
}

/// The memory image of a sequence of words: the bytes of each word in turn.
pub open spec fn words_to_bytes(ws: Seq<u32>) -> Seq<u8> {
    Seq::new(4 * ws.len(), |k: int| word_bytes(ws[k / 4])[k % 4])
}

/// The four bytes of a word, weighted by their place in the machine's byte
/// order, add up to the word.
pub proof fn lemma_word_bytes_value(w: u32)
    ensures
        word_bytes(w).len() == 4,
        endianness() == Endian::Little ==> w == word_bytes(w)[0] + 256 * word_bytes(w)[1]
            + 65536 * word_bytes(w)[2] + 16777216 * word_bytes(w)[3],
        endianness() == Endian::Big ==> w == word_bytes(w)[3] + 256 * word_bytes(w)[2]
            + 65536 * word_bytes(w)[1] + 16777216 * word_bytes(w)[0],
{
    let b0 = (w % 256) as u8;
    let b1 = ((w / 256) % 256) as u8;
    let b2 = ((w / 65536) % 256) as u8;
    let b3 = ((w / 16777216) % 256) as u8;
    assert(w == (w % 256) + 256 * ((w / 256) % 256) + 65536 * ((w / 65536) % 256) + 16777216 * (
    (w / 16777216) % 256)) by (bit_vector);
    assert(b0 == w % 256 && b1 == (w / 256) % 256 && b2 == (w / 65536) % 256 && b3 == (w
        / 16777216) % 256);
    let le = le_bytes(w);
    assert(le[0] == b0 && le[1] == b1 && le[2] == b2 && le[3] == b3);
    match endianness() {
        Endian::Little => {},
        Endian::Big => {
            let be = le.reverse();
            assert(be[0] == b3 && be[1] == b2 && be[2] == b1 && be[3] == b0);
        },
    }
}

/// Distinct words have distinct byte images.
proof fn lemma_word_bytes_injective(a: u32, b: u32)
    requires
        word_bytes(a) == word_bytes(b),
    ensures
        a == b,
{
    lemma_word_bytes_value(a);
    lemma_word_bytes_value(b);
}

/// Two word sequences with the same memory image are equal: reading back the
/// bytes that were written gives back the words.
pub proof fn lemma_words_to_bytes_injective(a: Seq<u32>, b: Seq<u32>)
    requires
        words_to_bytes(a) == words_to_bytes(b),
    ensures
        a == b,
{
    assert(words_to_bytes(a).len() == 4 * a.len());
    assert(words_to_bytes(b).len() == 4 * b.len());
    assert forall|i: int| 0 <= i < a.len() implies a[i] == b[i] by {
        assert forall|j: int| 0 <= j < 4 implies word_bytes(a[i])[j] == word_bytes(b[i])[j] by {
            let k = 4 * i + j;
            assert(k / 4 == i && k % 4 == j) by (nonlinear_arith)
                requires
                    k == 4 * i + j,
                    0 <= j < 4,
            ;
            assert(0 <= k < 4 * a.len());
            assert(words_to_bytes(a)[k] == word_bytes(a[i])[j]);
            assert(words_to_bytes(b)[k] == word_bytes(b[i])[j]);
        }
        assert(word_bytes(a[i]) =~= word_bytes(b[i]));
        lemma_word_bytes_injective(a[i], b[i]);
    }
    assert(a =~= b);
}

/// `bytemuck::cast_slice::<u32, u8>`: the words' memory seen as bytes, each
/// word in the machine's byte order. The cast cannot fail, since bytes have no
/// alignment requirement and any word slice is a whole number of bytes.
#[verifier::external_body]
fn cast_words(words: &[u32]) -> (res: &[u8])
    ensures
        res@ == words_to_bytes(words@),
{
    bytemuck::cast_slice::<u32, u8>(words)
}

/// `bytemuck::cast_slice_mut::<u32, u8>`: the words' memory seen as mutable
/// bytes; what is written to the bytes is what the words hold afterwards.
#[verifier::external_body]
fn cast_words_mut(words: &mut [u32]) -> (res: &mut [u8])
    ensures
        res@ == words_to_bytes(old(words)@),
        final(words)@.len() == old(words)@.len(),
        words_to_bytes(final(words)@) == final(res)@,
{
    bytemuck::cast_slice_mut::<u32, u8>(words)
}

/// The bytes to upload for a host buffer: its memory image.
pub fn host_bytes(host_buf: &[u32]) -> (res: &[u8])
    ensures
        res@ == words_to_bytes(host_buf@),
        res@.len() == 4 * host_buf@.len(),
{
    cast_words(host_buf)
}

/// Overwrites a host buffer with the words whose memory image is `mapped`,
/// the contents of a mapped device buffer of the same byte length.
pub fn read_back(host_buf: &mut [u32], mapped: &[u8])
    requires
        mapped@.len() == 4 * old(host_buf)@.len(),
    ensures
        final(host_buf)@.len() == old(host_buf)@.len(),
        words_to_bytes(final(host_buf)@) == mapped@,
{
    let bytes = cast_words_mut(host_buf);
    let n = mapped.len();
    let mut i: usize = 0;
    while i < n
        invariant
            n == mapped@.len(),
            bytes@.len() == n,
            0 <= i <= n,
            forall|j: int| 0 <= j < i ==> bytes@[j] == mapped@[j],
        decreases n - i,
    {
        bytes[i] = mapped[i];
        i = i + 1;
    }
    assert(bytes@ =~= mapped@);
}

} // verus!
