//! The Internet checksum: the one's-complement sum of the 16-bit big-endian
//! words of a byte range, with the word holding the checksum field itself
//! excluded from the sum.
//!
//! The accumulator starts at `0xffff` and every carry past 16 bits is folded
//! straight back, so it always stays in `[1, 0xffff]`; the checksum is its
//! one's complement.  A word index `skip` names the excluded word; passing an
//! index no word has (the buffer length is canonical) excludes nothing.

use vstd::prelude::*;

use crate::wire::spec_be16;
use crate::wire::spec_hi;
use crate::wire::spec_lo;

verus! {

/// One step of the one's-complement sum: add a word, fold the carry back.
pub open spec fn fold_word(acc: int, w: int) -> int {
    if acc + w > 0xffff {
        acc + w - 0xffff
    } else {
        acc + w
    }
}

/// The 16-bit big-endian word at word index `i`.
pub open spec fn word_at(b: Seq<u8>, i: int) -> int {
    spec_be16(b[2 * i], b[2 * i + 1]) as int
}

/// How many whole words the buffer holds; a trailing odd byte is not a word.
pub open spec fn num_words(b: Seq<u8>) -> int {
    b.len() as int / 2
}

/// The one's-complement sum of the first `n` words of `b`, starting from
/// `acc` and leaving out the word at index `skip`.
pub open spec fn fold_words_from(acc: int, b: Seq<u8>, skip: int, n: int) -> int
    decreases n,
{
    if n <= 0 {
        acc
    } else if n - 1 == skip {
        fold_words_from(acc, b, skip, n - 1)
    } else {
        fold_word(fold_words_from(acc, b, skip, n - 1), word_at(b, n - 1))
    }
}

/// The Internet checksum of `b` with the word at index `skip` excluded.
pub open spec fn spec_checksum(b: Seq<u8>, skip: int) -> u16 {
    (0xffff - fold_words_from(0xffff, b, skip, num_words(b))) as u16
}

/// The sum stays within `[1, 0xffff]` whenever it starts there.
pub proof fn lemma_fold_bound(acc: int, b: Seq<u8>, skip: int, n: int)
    requires
        1 <= acc <= 0xffff,
    ensures
        1 <= fold_words_from(acc, b, skip, n) <= 0xffff,
    decreases n,
{
    if n > 0 {
        lemma_fold_bound(acc, b, skip, n - 1);
    }
}

/// `b` with the word at index `i` replaced by the big-endian bytes of `v`.
pub open spec fn patch_word(b: Seq<u8>, i: int, v: u16) -> Seq<u8> {
    b.update(2 * i, spec_hi(v)).update(2 * i + 1, spec_lo(v))
}

/// Two successive fold steps may be swapped: the result is the unique
/// representative of the sum's congruence class in `[1, 0xffff]` either way.
proof fn lemma_fold_word_comm(acc: int, v: int, w: int)
    requires
        1 <= acc <= 0xffff,
        0 <= v <= 0xffff,
        0 <= w <= 0xffff,
    ensures
        fold_word(fold_word(acc, v), w) == fold_word(fold_word(acc, w), v),
{
}

/// Folding the patched buffer without exclusion equals folding the original
/// with the patched word excluded, then folding that word's new value in.
proof fn lemma_fold_patched(b: Seq<u8>, skip: int, v: u16, n: int)
    requires
        0 <= skip < num_words(b),
        skip < n <= num_words(b),
    ensures
        fold_words_from(0xffff, patch_word(b, skip, v), patch_word(b, skip, v).len() as int, n)
            == fold_word(fold_words_from(0xffff, b, skip, n), v as int),
    decreases n,
{
    let p = patch_word(b, skip, v);
    let none = p.len() as int;
    assert(p.len() == b.len());
    assert forall|i: int| 0 <= i < num_words(b) && i != skip implies word_at(p, i) == word_at(
        b,
        i,
    ) by {
        assert(p[2 * i] == b[2 * i]);
        assert(p[2 * i + 1] == b[2 * i + 1]);
    }
    assert(word_at(p, skip) == v as int) by {
        assert(p[2 * skip] == spec_hi(v));
        assert(p[2 * skip + 1] == spec_lo(v));
        crate::wire::lemma_be16_round(v);
    }
    if n == skip + 1 {
        assert forall|m: int| 0 <= m <= skip implies fold_words_from(0xffff, p, none, m)
            == fold_words_from(0xffff, b, skip, m) by {
            lemma_fold_prefix(b, p, skip, m);
        }
    } else {
        lemma_fold_patched(b, skip, v, n - 1);
        lemma_fold_bound(0xffff, b, skip, n - 1);
        lemma_fold_word_comm(fold_words_from(0xffff, b, skip, n - 1), v as int, word_at(b, n - 1));
    }
}

/// Below the patched word the two folds agree word for word.
proof fn lemma_fold_prefix(b: Seq<u8>, p: Seq<u8>, skip: int, m: int)
    requires
        forall|i: int| 0 <= i < m && i != skip ==> word_at(p, i) == word_at(b, i),
        m <= skip < num_words(b),
        p.len() == b.len(),
    ensures
        fold_words_from(0xffff, p, p.len() as int, m) == fold_words_from(0xffff, b, skip, m),
    decreases m,
{
    if m > 0 {
        lemma_fold_prefix(b, p, skip, m - 1);
    }
}

/// Writing a range's checksum into its checksum field makes the checksum of
/// the whole range, the field now included, come out zero.
pub proof fn lemma_checksum_verifies(b: Seq<u8>, skip: int)
    requires
        0 <= skip < num_words(b),
    ensures
        spec_checksum(
            patch_word(b, skip, spec_checksum(b, skip)),
            patch_word(b, skip, spec_checksum(b, skip)).len() as int,
        ) == 0,
{
    let n = num_words(b);
    let f = fold_words_from(0xffff, b, skip, n);
    lemma_fold_bound(0xffff, b, skip, n);
    let c = spec_checksum(b, skip);
    assert(c == 0xffff - f);
    let p = patch_word(b, skip, c);
    assert(p.len() == b.len());
    assert(num_words(p) == n);
    lemma_fold_patched(b, skip, c, n);
    assert(fold_words_from(0xffff, p, p.len() as int, n) == fold_word(f, c as int));
    assert(fold_word(f, c as int) == 0xffff);
}

/// Fold the whole words of `buffer` into `acc`, leaving out the word at
/// index `skip`; pass the buffer's length to leave nothing out.
pub fn fold_buffer(acc: u32, buffer: &[u8], skip: usize) -> (r: u32)
    requires
        1 <= acc <= 0xffff,
    ensures
        r == fold_words_from(acc as int, buffer@, skip as int, num_words(buffer@)),
        1 <= r <= 0xffff,
{
    let n = buffer.len() / 2;
    let mut result: u32 = acc;
    let mut i: usize = 0;
    while i < n
        invariant
            1 <= acc <= 0xffff,
            n == num_words(buffer@),
            2 * n <= buffer@.len() <= usize::MAX,
            0 <= i <= n,
            result == fold_words_from(acc as int, buffer@, skip as int, i as int),
            1 <= result <= 0xffff,
        decreases n - i,
    {
        if i != skip {
            assert(2 * i + 1 < buffer@.len());
            let w: u32 = (buffer[2 * i] as u32) * 256 + (buffer[2 * i + 1] as u32);
            result = result + w;
            if result > 0xffff {
                result = result - 0xffff;
            }
        }
        i = i + 1;
    }
    result
}

/// The Internet checksum of the whole buffer, no field excluded; a trailing
/// odd byte is ignored.
pub fn internet(buffer: &[u8]) -> (r: u16)
    ensures
        r == spec_checksum(buffer@, buffer@.len() as int),
{
    let folded = fold_buffer(0xffff, buffer, buffer.len());
    (0xffff - folded) as u16
}

} // verus!
