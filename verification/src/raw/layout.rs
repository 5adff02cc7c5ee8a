//! Numbers, strings and reserved spans as bytes of the file: little-endian
//! words, zero-terminated strings in fields of fixed width, and spans of
//! zeros.

use crate::shared::{
    find_nul, lemma_nul_index_bounds, null_string_new, nul_index, until_nul, zero_padded, zeros,
    Reserved,
};
use binrw::NullString;
use vstd::prelude::*;
use vstd::slice::slice_subrange;

verus! {

/// The number that two bytes at `at` spell, low byte first.
pub open spec fn le_u16(b: Seq<u8>, at: int) -> u16 {
    (b[at] as int + 256 * (b[at + 1] as int)) as u16
}

/// The number that four bytes at `at` spell, low byte first.
pub open spec fn le_u32(b: Seq<u8>, at: int) -> u32 {
    (b[at] as int + 256 * (b[at + 1] as int) + 65536 * (b[at + 2] as int) + 16777216 * (b[at
        + 3] as int)) as u32
}

/// The two bytes that spell `x`, low byte first.
pub open spec fn u16_bytes(x: u16) -> Seq<u8> {
    seq![(x % 256) as u8, (x / 256) as u8]
}

/// The four bytes that spell `x`, low byte first.
pub open spec fn u32_bytes(x: u32) -> Seq<u8> {
    seq![
        (x % 256) as u8,
        ((x / 256) % 256) as u8,
        ((x / 65536) % 256) as u8,
        (x / 16777216) as u8,
    ]
}

/// The bytes that spell a sequence of words, four for each, in order.
pub open spec fn words_bytes(words: Seq<u32>) -> Seq<u8> {
    Seq::new(4 * words.len(), |i: int| u32_bytes(words[i / 4])[i % 4])
}

/// The words that the bytes from `at` on spell, four bytes for each; bytes
/// left over at the end spell nothing.
pub open spec fn bytes_words(b: Seq<u8>, at: int) -> Seq<u32> {
    Seq::new(((b.len() - at) / 4) as nat, |k: int| le_u32(b, at + 4 * k))
}

/// Whether a field holds a zero-terminated string and zeros behind it, as
/// a writer leaves it.
pub open spec fn tidy_text(field: Seq<u8>) -> bool {
    forall|i: int| nul_index(field) <= i < field.len() ==> field[i] == 0
}

/// The low byte and the high byte of a number of two bytes.
proof fn lemma_u16_split(x: u16, b0: u8, b1: u8)
    ensures
        (x % 256) + 256 * (x / 256) == x,
        (b0 + 256 * b1) % 256 == b0,
        (b0 + 256 * b1) / 256 == b1,
        b0 + 256 * b1 <= 0xffff,
{
}

/// The four bytes of a number of four bytes.
proof fn lemma_u32_split(x: u32)
    ensures
        (x % 256) + 256 * ((x / 256) % 256) + 65536 * ((x / 65536) % 256) + 16777216 * (x
            / 16777216) == x,
{
    assert((x % 256) + 256 * ((x / 256) % 256) + 65536 * ((x / 65536) % 256) + 16777216 * (x
        / 16777216) == x) by (bit_vector);
}

/// The number that four bytes spell has those bytes.
proof fn lemma_u32_join(b0: u8, b1: u8, b2: u8, b3: u8)
    ensures
        ({
            let x = b0 + 256 * b1 + 65536 * b2 + 16777216 * b3;
            &&& x <= 0xffff_ffff
            &&& x % 256 == b0
            &&& (x / 256) % 256 == b1
            &&& (x / 65536) % 256 == b2
            &&& x / 16777216 == b3
        }),
{
    let x = b0 + 256 * b1 + 65536 * b2 + 16777216 * b3;
    let low = b0 + 256 * b1 + 65536 * b2;
    assert(x / 16777216 == b3 && x % 16777216 == low);
    let mid = b0 + 256 * b1;
    assert(low / 65536 == b2 && low % 65536 == mid);
    assert(mid / 256 == b1 && mid % 256 == b0);
    assert(x / 65536 == b2 + 256 * b3);
    assert(x / 256 == b1 + 256 * b2 + 65536 * b3);
}

/// Two bytes spell the number they were made from, and the other way round.
pub proof fn lemma_u16_bytes(x: u16, b: Seq<u8>, at: int)
    ensures
        u16_bytes(x).len() == 2,
        le_u16(u16_bytes(x), 0) == x,
        0 <= at && at + 2 <= b.len() ==> u16_bytes(le_u16(b, at)) == b.subrange(at, at + 2),
{
    lemma_u16_split(x, 0, 0);
    if 0 <= at && at + 2 <= b.len() {
        lemma_u16_split(0, b[at], b[at + 1]);
        assert(u16_bytes(le_u16(b, at)) =~= b.subrange(at, at + 2));
    }
}

/// Four bytes spell the number they were made from, and the other way round.
pub proof fn lemma_u32_bytes(x: u32, b: Seq<u8>, at: int)
    ensures
        u32_bytes(x).len() == 4,
        le_u32(u32_bytes(x), 0) == x,
        0 <= at && at + 4 <= b.len() ==> u32_bytes(le_u32(b, at)) == b.subrange(at, at + 4),
{
    lemma_u32_split(x);
    if 0 <= at && at + 4 <= b.len() {
        lemma_u32_join(b[at], b[at + 1], b[at + 2], b[at + 3]);
        assert(u32_bytes(le_u32(b, at)) =~= b.subrange(at, at + 4));
    }
}

/// Words read back from the bytes that spell them are those words.
pub proof fn lemma_words_round_trip(head: Seq<u8>, words: Seq<u32>)
    ensures
        bytes_words(head + words_bytes(words), head.len() as int) == words,
        words_bytes(words).len() == 4 * words.len(),
{
    let b = head + words_bytes(words);
    let at = head.len() as int;
    assert forall|k: int| 0 <= k < words.len() implies le_u32(b, at + 4 * k) == words[k] by {
        let x = words[k];
        assert(b[at + 4 * k] == u32_bytes(words[(4 * k) / 4])[(4 * k) % 4]);
        assert(b[at + 4 * k + 1] == u32_bytes(words[(4 * k + 1) / 4])[(4 * k + 1) % 4]);
        assert(b[at + 4 * k + 2] == u32_bytes(words[(4 * k + 2) / 4])[(4 * k + 2) % 4]);
        assert(b[at + 4 * k + 3] == u32_bytes(words[(4 * k + 3) / 4])[(4 * k + 3) % 4]);
        lemma_u32_bytes(x, b, 0);
    }
    assert(bytes_words(b, at) =~= words);
}

/// The bytes that spell the words read from bytes are those bytes, as far
/// as they come in fours.
pub proof fn lemma_bytes_round_trip(b: Seq<u8>, at: int)
    requires
        0 <= at <= b.len(),
        (b.len() - at) % 4 == 0,
    ensures
        words_bytes(bytes_words(b, at)) == b.subrange(at, b.len() as int),
{
    let words = bytes_words(b, at);
    let tail = b.subrange(at, b.len() as int);
    assert(words_bytes(words).len() == tail.len());
    assert forall|i: int| 0 <= i < tail.len() implies words_bytes(words)[i] == tail[i] by {
        let k = i / 4;
        lemma_u32_bytes(0, b, at + 4 * k);
        assert(u32_bytes(words[k]) == b.subrange(at + 4 * k, at + 4 * k + 4));
        assert(b.subrange(at + 4 * k, at + 4 * k + 4)[i % 4] == b[at + 4 * k + i % 4]);
    }
    assert(words_bytes(words) =~= tail);
}

/// A tidy field is the string it holds, padded with zeros.
pub proof fn lemma_tidy_text(field: Seq<u8>)
    requires
        tidy_text(field),
    ensures
        zero_padded(until_nul(field), field.len() as int) == field,
{
    lemma_nul_index_bounds(field);
    assert(zero_padded(until_nul(field), field.len() as int) =~= field);
}

/// Reads two bytes as a number, low byte first.
pub(crate) fn read_u16(bytes: &[u8], at: usize) -> (r: u16)
    requires
        at + 2 <= bytes.len(),
    ensures
        r == le_u16(bytes@, at as int),
{
    let b0 = bytes[at] as u16;
    let b1 = bytes[at + 1] as u16;
    b0 + 256 * b1
}

/// Reads four bytes as a number, low byte first.
pub(crate) fn read_u32(bytes: &[u8], at: usize) -> (r: u32)
    requires
        at + 4 <= bytes.len(),
    ensures
        r == le_u32(bytes@, at as int),
{
    let b0 = bytes[at] as u32;
    let b1 = bytes[at + 1] as u32;
    let b2 = bytes[at + 2] as u32;
    let b3 = bytes[at + 3] as u32;
    b0 + 256 * b1 + 65536 * b2 + 16777216 * b3
}

/// Reads the zero-terminated string that a field of `width` bytes holds.
pub(crate) fn read_text(bytes: &[u8], at: usize, width: usize) -> (r: NullString)
    requires
        at + width <= bytes.len(),
    ensures
        crate::shared::null_string_bytes(r) == until_nul(
            bytes@.subrange(at as int, at + width as int),
        ),
{
    let field = slice_subrange(bytes, at, at + width);
    let end = find_nul(field);
    let mut text: Vec<u8> = Vec::new();
    let mut i: usize = 0;
    while i < end
        invariant
            i <= end <= field@.len(),
            text@ == field@.take(i as int),
        decreases end - i,
    {
        text.push(field[i]);
        assert(field@.take(i + 1) =~= field@.take(i as int).push(field@[i as int]));
        i += 1;
    }
    null_string_new(text)
}

/// Reads a span of reserved bytes.
pub(crate) fn read_reserved<const N: usize>(bytes: &[u8], at: usize) -> (r: Reserved<N>)
    requires
        at + N <= bytes.len(),
    ensures
        r@ == bytes@.subrange(at as int, at + N as int),
{
    let mut span = [0u8; N];
    let mut i: usize = 0;
    while i < N
        invariant
            i <= N,
            at + N <= bytes.len(),
            forall|j: int| 0 <= j < i ==> span@[j] == bytes@[at + j],
        decreases N - i,
    {
        span[i] = bytes[at + i];
        i += 1;
    }
    assert(span@ =~= bytes@.subrange(at as int, at + N as int));
    Reserved { reserved: span }
}

/// Appends a number as two bytes, low byte first.
pub(crate) fn push_u16(out: &mut Vec<u8>, x: u16)
    ensures
        final(out)@ == old(out)@ + u16_bytes(x),
{
    out.push((x % 256) as u8);
    out.push((x / 256) as u8);
    assert(out@ =~= old(out)@ + u16_bytes(x));
}

/// Appends a number as four bytes, low byte first.
pub(crate) fn push_u32(out: &mut Vec<u8>, x: u32)
    ensures
        final(out)@ == old(out)@ + u32_bytes(x),
{
    out.push((x % 256) as u8);
    out.push(((x / 256) % 256) as u8);
    out.push(((x / 65536) % 256) as u8);
    out.push((x / 16777216) as u8);
    assert(out@ =~= old(out)@ + u32_bytes(x));
}

/// Appends `count` zero bytes.
pub(crate) fn push_zeros(out: &mut Vec<u8>, count: usize)
    ensures
        final(out)@ == old(out)@ + zeros(count as int),
{
    let mut i: usize = 0;
    while i < count
        invariant
            i <= count,
            out@ == old(out)@ + zeros(i as int),
        decreases count - i,
    {
        out.push(0);
        assert(out@ =~= old(out)@ + zeros(i + 1));
        i += 1;
    }
}

/// Appends a string as a field of `width` bytes: the string, then zeros.
pub(crate) fn push_text(out: &mut Vec<u8>, text: &[u8], width: usize)
    requires
        text@.len() <= width,
    ensures
        final(out)@ == old(out)@ + zero_padded(text@, width as int),
{
    let mut i: usize = 0;
    while i < text.len()
        invariant
            i <= text@.len(),
            out@ == old(out)@ + text@.take(i as int),
        decreases text@.len() - i,
    {
        out.push(text[i]);
        assert(out@ =~= old(out)@ + text@.take(i + 1));
        i += 1;
    }
    let ghost written = out@;
    push_zeros(out, width - text.len());
    assert(text@.take(text@.len() as int) =~= text@);
    assert(out@ =~= old(out)@ + zero_padded(text@, width as int));
}

} // verus!
