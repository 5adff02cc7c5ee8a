//! Building blocks of the file layout: reserved spans and strings that are
//! stored zero-terminated in a field of fixed width.

use crate::{EncodedFixedStrError, Fault, MovieError};
use binrw::NullString;
use fixedstr::zstr;
use vstd::prelude::*;
use vstd::slice::slice_subrange;
use vstd::string::*;
use vstd::utf8::*;

verus! {

/// A span of `T` bytes that the format sets aside. It is written as zeros.
#[derive(Debug, Copy, Clone, Eq, PartialEq)]
pub struct Reserved<const T: usize> {
    /// The bytes of the span as they were read.
    pub reserved: [u8; T],
}

impl<const T: usize> View for Reserved<T> {
    type V = Seq<u8>;

    open spec fn view(&self) -> Seq<u8> {
        self.reserved@
    }
}

impl<const T: usize> Default for Reserved<T> {
    /// The span with every byte zero.
    fn default() -> (r: Self)
        ensures
            r@ == zeros(T as int),
    {
        let r = Reserved { reserved: [0u8; T] };
        assert(r@ =~= zeros(T as int));
        r
    }
}

/// `count` zero bytes.
pub open spec fn zeros(count: int) -> Seq<u8> {
    Seq::new(count as nat, |i: int| 0u8)
}

/// The position of the first zero byte of `bytes`, or their number if none
/// of them is zero.
pub open spec fn nul_index(bytes: Seq<u8>) -> int
    decreases bytes.len(),
{
    if bytes.len() == 0 || bytes[0] == 0 {
        0
    } else {
        1 + nul_index(bytes.drop_first())
    }
}

/// The bytes in front of the first zero byte: what a zero-terminated field
/// holds.
pub open spec fn until_nul(bytes: Seq<u8>) -> Seq<u8> {
    bytes.take(nul_index(bytes))
}

/// `bytes` followed by zeros up to `width` bytes in all.
pub open spec fn zero_padded(bytes: Seq<u8>, width: int) -> Seq<u8> {
    bytes + zeros(width - bytes.len())
}

/// Whether every byte is below 0x80.
pub open spec fn all_ascii(bytes: Seq<u8>) -> bool {
    forall|i: int| 0 <= i < bytes.len() ==> #[trigger] bytes[i] < 0x80
}

/// Whether a string of `capacity` bytes can hold `text` and hand it back
/// unchanged: its UTF-8 form leaves room for the terminating zero, holds no
/// zero byte itself, and is ASCII where the field asks for that.
pub open spec fn storable(capacity: usize, ascii: bool, text: Seq<char>) -> bool {
    &&& encode_utf8(text).len() < capacity
    &&& !encode_utf8(text).contains(0u8)
    &&& (ascii ==> is_ascii_chars(text))
}

/// What reading a string of `capacity` bytes from `bytes` gives. The bytes
/// end at their first zero; they must be UTF-8, ASCII where `ascii` is set,
/// and leave room for the terminating zero. The first rule that fails names
/// the fault.
pub open spec fn decoded(capacity: usize, ascii: bool, bytes: Seq<u8>) -> Result<Seq<char>, Fault> {
    let content = until_nul(bytes);
    if !valid_utf8(content) {
        Err(Fault::InvalidUtf8)
    } else if ascii && !all_ascii(content) {
        Err(Fault::InvalidAscii(decode_utf8(content)))
    } else if content.len() >= capacity {
        Err(Fault::StringTooLong(decode_utf8(content)))
    } else {
        Ok(decode_utf8(content))
    }
}

/// `nul_index` is the one position with a zero byte, or the end, in front of
/// which no byte is zero.
pub proof fn lemma_nul_index(bytes: Seq<u8>, i: int)
    requires
        0 <= i <= bytes.len(),
        forall|j: int| 0 <= j < i ==> bytes[j] != 0,
        i == bytes.len() || bytes[i] == 0,
    ensures
        nul_index(bytes) == i,
    decreases bytes.len(),
{
    if i > 0 {
        let rest = bytes.drop_first();
        assert forall|j: int| 0 <= j < i - 1 implies rest[j] != 0 by {
            assert(rest[j] == bytes[j + 1]);
        }
        lemma_nul_index(rest, i - 1);
    }
}

/// What `nul_index` says of the bytes around it.
pub proof fn lemma_nul_index_bounds(bytes: Seq<u8>)
    ensures
        0 <= nul_index(bytes) <= bytes.len(),
        forall|j: int| 0 <= j < nul_index(bytes) ==> bytes[j] != 0,
        nul_index(bytes) < bytes.len() ==> bytes[nul_index(bytes)] == 0,
    decreases bytes.len(),
{
    if bytes.len() == 0 || bytes[0] == 0 {
    } else {
        let rest = bytes.drop_first();
        lemma_nul_index_bounds(rest);
        assert forall|j: int| 0 <= j < nul_index(bytes) implies bytes[j] != 0 by {
            if j > 0 {
                assert(rest[j - 1] == bytes[j]);
            }
        }
        if nul_index(bytes) < bytes.len() {
            assert(rest[nul_index(rest)] == bytes[nul_index(bytes)]);
        }
    }
}

/// Bytes without a zero end nowhere but at their end.
pub proof fn lemma_until_nul_whole(bytes: Seq<u8>)
    requires
        !bytes.contains(0u8),
    ensures
        until_nul(bytes) == bytes,
{
    assert forall|j: int| 0 <= j < bytes.len() implies bytes[j] != 0 by {
        if bytes[j] == 0 {
            assert(bytes.contains(0u8));
        }
    }
    lemma_nul_index(bytes, bytes.len() as int);
    assert(bytes.take(bytes.len() as int) =~= bytes);
}

/// What stands in front of the first zero holds no zero.
pub proof fn lemma_until_nul_clean(bytes: Seq<u8>)
    ensures
        !until_nul(bytes).contains(0u8),
        until_nul(bytes).len() <= bytes.len(),
        until_nul(until_nul(bytes)) == until_nul(bytes),
{
    lemma_nul_index_bounds(bytes);
    let content = until_nul(bytes);
    if content.contains(0u8) {
        let j = choose|j: int| 0 <= j < content.len() && content[j] == 0u8;
        assert(bytes[j] == 0);
    }
    lemma_until_nul_whole(content);
}

/// A field written with zero padding reads back as what was written, as
/// long as that held no zero and left the last byte free or filled the field.
pub proof fn lemma_until_nul_padded(content: Seq<u8>, width: int)
    requires
        !content.contains(0u8),
        content.len() <= width,
    ensures
        until_nul(zero_padded(content, width)) == content,
        zero_padded(content, width).len() == width,
{
    let field = zero_padded(content, width);
    let n = content.len() as int;
    assert forall|j: int| 0 <= j < n implies field[j] != 0 by {
        assert(field[j] == content[j]);
        if content[j] == 0 {
            assert(content.contains(0u8));
        }
    }
    lemma_nul_index(field, n);
    assert(field.take(n) =~= content);
}

/// A character is ASCII exactly if its code is at most 0x7f.
proof fn lemma_char_code(c: char)
    ensures
        (c as u32 <= 0x7f) == ('\0' <= c <= '\u{7f}'),
{
    assert('\u{7f}' as int == 0x7f);
    assert(c as u32 as int == c as int);
}

/// A text is ASCII exactly if every byte of its UTF-8 form is below 0x80.
pub proof fn lemma_ascii_text(text: Seq<char>)
    ensures
        all_ascii(encode_utf8(text)) <==> is_ascii_chars(text),
    decreases text.len(),
{
    if is_ascii_chars(text) {
        is_ascii_chars_encode_utf8(text);
        is_ascii_chars_nat_bound(text);
        assert forall|i: int| 0 <= i < encode_utf8(text).len() implies #[trigger] encode_utf8(
            text,
        )[i] < 0x80 by {
            assert(encode_utf8(text)[i] == text[i] as u8);
            assert((text[i] as nat) < 128);
        }
    }
    if all_ascii(encode_utf8(text)) && text.len() > 0 {
        let first = text[0] as u32;
        let head = encode_scalar(first);
        let rest = text.drop_first();
        char_is_scalar(text[0]);
        assert(encode_utf8(text) == head + encode_utf8(rest));
        assert(head.len() >= 1);
        assert(encode_utf8(text)[0] == head[0]);
        assert(head[0] < 0x80);
        assert(0xC0u8 | ((first >> 6) & 0x1F) as u8 >= 0x80) by (bit_vector);
        assert(0xE0u8 | ((first >> 12) & 0x0F) as u8 >= 0x80) by (bit_vector);
        assert(0xF0u8 | ((first >> 18) & 0x7) as u8 >= 0x80) by (bit_vector);
        assert(has_width_1_encoding(first));
        assert forall|i: int| 0 <= i < encode_utf8(rest).len() implies #[trigger] encode_utf8(
            rest,
        )[i] < 0x80 by {
            assert(encode_utf8(rest)[i] == encode_utf8(text)[i + head.len()]);
        }
        assert(all_ascii(encode_utf8(rest)));
        lemma_ascii_text(rest);
        assert(is_ascii_chars(rest));
        lemma_char_code(text[0]);
        assert forall|i: int| 0 <= i < text.len() implies '\0' <= #[trigger] text[i]
            <= '\u{7f}' by {
            if i > 0 {
                assert(text[i] == rest[i - 1]);
            }
        }
    }
}

/// Bytes below 0x80 are UTF-8, and the text they spell is ASCII.
pub proof fn lemma_ascii_bytes(bytes: Seq<u8>)
    requires
        all_ascii(bytes),
    ensures
        valid_utf8(bytes),
        is_ascii_chars(decode_utf8(bytes)),
{
    assert(valid_utf8(bytes.subrange(0, 0)));
    partial_valid_utf8_extend_ascii_block(bytes, 0, bytes.len() as int);
    assert(bytes.subrange(0, bytes.len() as int) =~= bytes);
    decode_utf8_encode_utf8(bytes);
    lemma_ascii_text(decode_utf8(bytes));
}

/// The encoding discipline of a string field, known from its type.
pub trait Encoding: Copy {
    /// Whether the field admits ASCII only.
    spec fn ascii_only() -> bool;
}

/// Marks a string field that holds ASCII.
#[derive(Debug, Copy, Clone, Eq, PartialEq)]
pub struct Ascii;

/// Marks a string field that holds UTF-8.
#[derive(Debug, Copy, Clone, Eq, PartialEq)]
pub struct Utf8;

impl Encoding for Ascii {
    open spec fn ascii_only() -> bool {
        true
    }
}

impl Encoding for Utf8 {
    open spec fn ascii_only() -> bool {
        false
    }
}

/// A zero-terminated byte string of binrw. Proofs see its bytes through
/// [`null_string_bytes`] only.
#[verifier::external_type_specification]
#[verifier::external_body]
pub struct ExNullString(NullString);

/// The bytes that a `NullString` holds, without a terminator.
pub uninterp spec fn null_string_bytes(s: NullString) -> Seq<u8>;

/// The text that binrw displays for a `NullString` that holds `bytes`.
pub uninterp spec fn null_string_text(bytes: Seq<u8>) -> Seq<char>;

/// Wraps bytes in a `NullString`, which is a tuple struct around them: the
/// result holds exactly `bytes`.
#[verifier::external_body]
pub(crate) fn null_string_new(bytes: Vec<u8>) -> (r: NullString)
    ensures
        null_string_bytes(r) == bytes@,
{
    NullString(bytes)
}

/// Borrows the bytes of a `NullString`, its only field.
#[verifier::external_body]
pub(crate) fn null_string_as_slice(s: &NullString) -> (r: &[u8])
    ensures
        r@ == null_string_bytes(*s),
{
    s.0.as_slice()
}

/// `NullString`'s `Display`, through `to_string`. binrw writes the bytes as
/// text; bytes that are UTF-8 come out as the text they encode, and each
/// malformed sequence as one replacement character. The contract names the
/// result and states the first of the two.
#[verifier::external_body]
pub(crate) fn null_string_display(s: &NullString) -> (r: String)
    ensures
        r@ == null_string_text(null_string_bytes(*s)),
        valid_utf8(null_string_bytes(*s)) ==> r@ == decode_utf8(null_string_bytes(*s)),
{
    s.to_string()
}

/// `zstr::<N>::try_make`, and `zstr::to_string` on what it makes. fixedstr
/// refuses a string of more than `N - 1` bytes and hands it back in the
/// error; any other it copies into a zeroed array of `N` bytes, in which
/// `to_string` looks for the end of the string by bisection, taking a zero
/// byte for a place behind the end. For a string without a zero byte that
/// finds the end, and the text is the string itself; of a string with a zero
/// byte the contract says nothing but that it was accepted.
#[verifier::external_body]
fn zstr_make<const N: usize>(s: &str) -> (r: Result<String, String>)
    ensures
        r is Ok <==> s.spec_bytes().len() < N,
        r matches Ok(v) ==> (!s.spec_bytes().contains(0u8) ==> v@ == s@),
        r matches Err(e) ==> e@ == s@,
{
    match zstr::<N>::try_make(s) {
        Ok(z) => Ok(z.to_string()),
        Err(e) => Err(e.to_string()),
    }
}

/// `core::str::from_utf8`: it succeeds exactly on well-formed UTF-8, and
/// the string it returns has the given bytes.
pub assume_specification[ core::str::from_utf8 ](v: &[u8]) -> (r: Result<
    &str,
    core::str::Utf8Error,
>)
    ensures
        r is Ok <==> valid_utf8(v@),
        r matches Ok(s) ==> s.spec_bytes() == v@,
;

/// The position of the first zero byte of a slice, or its length.
pub fn find_nul(bytes: &[u8]) -> (i: usize)
    ensures
        i == nul_index(bytes@),
        i <= bytes@.len(),
{
    let mut i: usize = 0;
    while i < bytes.len() && bytes[i] != 0
        invariant
            i <= bytes@.len(),
            forall|j: int| 0 <= j < i ==> bytes@[j] != 0,
        decreases bytes@.len() - i,
    {
        i += 1;
    }
    proof {
        lemma_nul_index(bytes@, i as int);
    }
    i
}

/// Whether every byte of a slice is below 0x80.
pub fn is_ascii_bytes(bytes: &[u8]) -> (r: bool)
    ensures
        r == all_ascii(bytes@),
{
    let mut i: usize = 0;
    while i < bytes.len()
        invariant
            i <= bytes@.len(),
            forall|j: int| 0 <= j < i ==> #[trigger] bytes@[j] < 0x80,
        decreases bytes@.len() - i,
    {
        if bytes[i] >= 0x80 {
            return false;
        }
        i += 1;
    }
    true
}

/// The part of a string in front of its first zero byte.
fn trimmed(s: &str) -> (head: &str)
    ensures
        head.spec_bytes() == until_nul(s.spec_bytes()),
        !head.spec_bytes().contains(0u8),
{
    let bytes = s.as_bytes();
    let i = find_nul(bytes);
    proof {
        let b = s.spec_bytes();
        encode_utf8_valid_utf8(s@);
        if i < b.len() {
            lemma_nul_index_bounds(b);
            is_char_boundary_iff_not_is_continuation_byte(b, i as int);
        } else {
            is_char_boundary_start_end_of_seq(b);
        }
        lemma_until_nul_clean(b);
    }
    let (head, _) = s.split_at(i);
    head
}

/// A string that fits, zero-terminated, into a field of `N` bytes, in the
/// encoding that `E` names.
///
/// A value holds at most `N - 1` bytes of UTF-8 without a zero byte, and
/// ASCII only where `E` is [`Ascii`]: see [`storable`].
#[derive(Debug, Eq, PartialEq)]
pub struct EncodedFixedStr<const N: usize, E: Encoding> {
    /// The text.
    value: String,
    /// The encoding discipline.
    _marker: E,
}

impl<const N: usize, E: Encoding> View for EncodedFixedStr<N, E> {
    type V = Seq<char>;

    closed spec fn view(&self) -> Seq<char> {
        self.value@
    }
}

impl<const N: usize, E: Encoding> Clone for EncodedFixedStr<N, E> {
    fn clone(&self) -> (r: Self)
        ensures
            r@ == self@,
    {
        proof {
            use_type_invariant(self);
        }
        EncodedFixedStr { value: self.value.clone(), _marker: self._marker }
    }
}

impl<const N: usize, E: Encoding> EncodedFixedStr<N, E> {
    #[verifier::type_invariant]
    spec fn inv(self) -> bool {
        storable(N, E::ascii_only(), self.value@)
    }

    /// The bytes of the text, without terminator or padding.
    pub open spec fn bytes(&self) -> Seq<u8> {
        encode_utf8(self@)
    }

    /// What holds of every value: the text can be stored.
    pub open spec fn wf(&self) -> bool {
        storable(N, E::ascii_only(), self@)
    }

    /// Stores the part of `s` in front of its first zero byte, if it fits.
    fn store(s: &str, marker: E) -> (r: Result<Self, EncodedFixedStrError>)
        requires
            E::ascii_only() ==> all_ascii(until_nul(s.spec_bytes())),
        ensures
            match r {
                Ok(v) => v@ == decode_utf8(until_nul(s.spec_bytes())) && until_nul(
                    s.spec_bytes(),
                ).len() < N,
                Err(e) => e@ == Fault::StringTooLong(decode_utf8(until_nul(s.spec_bytes())))
                    && until_nul(s.spec_bytes()).len() >= N,
            },
    {
        let head = trimmed(s);
        proof {
            encode_utf8_decode_utf8(head@);
            lemma_ascii_text(head@);
        }
        match zstr_make::<N>(head) {
            Ok(value) => Ok(EncodedFixedStr { value, _marker: marker }),
            Err(rejected) => Err(EncodedFixedStrError::ZStrError(rejected)),
        }
    }

    /// The text as an owned string.
    pub fn to_string(&self) -> (r: String)
        ensures
            r@ == self@,
            self.wf(),
    {
        proof {
            use_type_invariant(self);
        }
        self.value.clone()
    }

    /// The text as a string slice.
    pub fn as_str(&self) -> (r: &str)
        ensures
            r@ == self@,
            self.wf(),
    {
        proof {
            use_type_invariant(self);
        }
        self.value.as_str()
    }

    /// The field of `N` bytes that holds the string: its bytes, then zeros.
    pub fn to_field(&self) -> (r: [u8; N])
        ensures
            r@ == zero_padded(self.bytes(), N as int),
            self.wf(),
    {
        proof {
            use_type_invariant(self);
        }
        let bytes = self.value.as_str().as_bytes();
        let mut field = [0u8; N];
        let mut i: usize = 0;
        while i < bytes.len()
            invariant
                i <= bytes@.len(),
                bytes@.len() < N,
                forall|j: int| 0 <= j < i ==> field@[j] == bytes@[j],
                forall|j: int| i <= j < N ==> field@[j] == 0u8,
            decreases bytes@.len() - i,
        {
            field[i] = bytes[i];
            i += 1;
        }
        assert(field@ =~= zero_padded(bytes@, N as int));
        field
    }

    /// The string as binrw's zero-terminated string: the same bytes.
    pub fn into_null_string(self) -> (r: NullString)
        ensures
            null_string_bytes(r) == self.bytes(),
            self.wf(),
    {
        proof {
            use_type_invariant(&self);
        }
        null_string_new(self.value.as_str().as_bytes_vec())
    }
}

impl<const N: usize, E: Encoding> From<EncodedFixedStr<N, E>> for NullString {
    /// The string as binrw's zero-terminated string: the same bytes.
    fn from(encoded: EncodedFixedStr<N, E>) -> (r: NullString)
        ensures
            null_string_bytes(r) == encoded.bytes(),
    {
        encoded.into_null_string()
    }
}

impl<const N: usize, E: Encoding> vstd::std_specs::convert::FromSpecImpl<EncodedFixedStr<N, E>> for NullString {
    open spec fn obeys_from_spec() -> bool {
        false
    }

    open spec fn from_spec(encoded: EncodedFixedStr<N, E>) -> NullString {
        arbitrary()
    }
}

impl<const N: usize> TryFrom<&str> for EncodedFixedStr<N, Utf8> {
    type Error = MovieError;

    fn try_from(value: &str) -> (r: Result<Self, MovieError>)
        ensures
            match decoded(N, false, value.spec_bytes()) {
                Ok(text) => r matches Ok(v) && v@ == text,
                Err(fault) => r matches Err(e) && e@ == fault,
            },
    {
        Self::from_utf8_str(value)
    }
}

impl<const N: usize> vstd::std_specs::convert::TryFromSpecImpl<&str> for EncodedFixedStr<N, Utf8> {
    open spec fn obeys_try_from_spec() -> bool {
        false
    }

    open spec fn try_from_spec(value: &str) -> Result<Self, MovieError> {
        arbitrary()
    }
}

impl<const N: usize> TryFrom<String> for EncodedFixedStr<N, Utf8> {
    type Error = MovieError;

    fn try_from(value: String) -> (r: Result<Self, MovieError>)
        ensures
            match decoded(N, false, encode_utf8(value@)) {
                Ok(text) => r matches Ok(v) && v@ == text,
                Err(fault) => r matches Err(e) && e@ == fault,
            },
    {
        Self::from_utf8_str(value.as_str())
    }
}

impl<const N: usize> vstd::std_specs::convert::TryFromSpecImpl<String> for EncodedFixedStr<N, Utf8> {
    open spec fn obeys_try_from_spec() -> bool {
        false
    }

    open spec fn try_from_spec(value: String) -> Result<Self, MovieError> {
        arbitrary()
    }
}

impl<const N: usize> TryFrom<&str> for EncodedFixedStr<N, Ascii> {
    type Error = MovieError;

    fn try_from(value: &str) -> (r: Result<Self, MovieError>)
        ensures
            match decoded(N, true, value.spec_bytes()) {
                Ok(text) => r matches Ok(v) && v@ == text,
                Err(fault) => r matches Err(e) && e@ == fault,
            },
    {
        Self::from_ascii_str(value)
    }
}

impl<const N: usize> vstd::std_specs::convert::TryFromSpecImpl<&str> for EncodedFixedStr<N, Ascii> {
    open spec fn obeys_try_from_spec() -> bool {
        false
    }

    open spec fn try_from_spec(value: &str) -> Result<Self, MovieError> {
        arbitrary()
    }
}

impl<const N: usize> TryFrom<String> for EncodedFixedStr<N, Ascii> {
    type Error = MovieError;

    fn try_from(value: String) -> (r: Result<Self, MovieError>)
        ensures
            match decoded(N, true, encode_utf8(value@)) {
                Ok(text) => r matches Ok(v) && v@ == text,
                Err(fault) => r matches Err(e) && e@ == fault,
            },
    {
        Self::from_ascii_str(value.as_str())
    }
}

impl<const N: usize> vstd::std_specs::convert::TryFromSpecImpl<String> for EncodedFixedStr<N, Ascii> {
    open spec fn obeys_try_from_spec() -> bool {
        false
    }

    open spec fn try_from_spec(value: String) -> Result<Self, MovieError> {
        arbitrary()
    }
}

impl<const N: usize> EncodedFixedStr<N, Utf8> {
    /// Reads a UTF-8 string from bytes, up to their first zero byte.
    pub fn from_utf8(bytes: &[u8]) -> (r: Result<Self, MovieError>)
        ensures
            match decoded(N, false, bytes@) {
                Ok(text) => r matches Ok(v) && v@ == text,
                Err(fault) => r matches Err(e) && e@ == fault,
            },
    {
        let content = slice_subrange(bytes, 0, find_nul(bytes));
        proof {
            lemma_until_nul_clean(bytes@);
        }
        match core::str::from_utf8(content) {
            Ok(s) => Self::from_utf8_str(s),
            Err(e) => Err(MovieError::FixedStrError(EncodedFixedStrError::Utf8Error(e))),
        }
    }

    /// Stores a string, up to its first zero byte.
    pub fn from_utf8_str(s: &str) -> (r: Result<Self, MovieError>)
        ensures
            match decoded(N, false, s.spec_bytes()) {
                Ok(text) => r matches Ok(v) && v@ == text,
                Err(fault) => r matches Err(e) && e@ == fault,
            },
    {
        proof {
            lemma_trimmed_valid(s);
        }
        match Self::store(s, Utf8) {
            Ok(v) => Ok(v),
            Err(e) => Err(MovieError::FixedStrError(e)),
        }
    }
}

impl<const N: usize> EncodedFixedStr<N, Ascii> {
    /// Reads an ASCII string from bytes, up to their first zero byte.
    pub fn from_ascii(bytes: &[u8]) -> (r: Result<Self, MovieError>)
        ensures
            match decoded(N, true, bytes@) {
                Ok(text) => r matches Ok(v) && v@ == text,
                Err(fault) => r matches Err(e) && e@ == fault,
            },
    {
        let content = slice_subrange(bytes, 0, find_nul(bytes));
        proof {
            lemma_until_nul_clean(bytes@);
        }
        match core::str::from_utf8(content) {
            Ok(s) => Self::from_ascii_str(s),
            Err(e) => Err(MovieError::FixedStrError(EncodedFixedStrError::Utf8Error(e))),
        }
    }

    /// Stores a string, up to its first zero byte, if it is ASCII.
    pub fn from_ascii_str(s: &str) -> (r: Result<Self, MovieError>)
        ensures
            match decoded(N, true, s.spec_bytes()) {
                Ok(text) => r matches Ok(v) && v@ == text,
                Err(fault) => r matches Err(e) && e@ == fault,
            },
    {
        let head = trimmed(s);
        proof {
            lemma_trimmed_valid(s);
            lemma_until_nul_whole(head.spec_bytes());
            encode_utf8_decode_utf8(head@);
            lemma_ascii_text(head@);
        }
        if !head.is_ascii() {
            return Err(
                MovieError::FixedStrError(EncodedFixedStrError::InvalidAscii(head.to_owned())),
            );
        }
        match Self::store(head, Ascii) {
            Ok(v) => Ok(v),
            Err(e) => Err(MovieError::FixedStrError(e)),
        }
    }
}

/// The part of a string in front of its first zero byte is UTF-8.
proof fn lemma_trimmed_valid(s: &str)
    ensures
        valid_utf8(until_nul(s.spec_bytes())),
{
    let b = s.spec_bytes();
    let i = nul_index(b);
    encode_utf8_valid_utf8(s@);
    lemma_nul_index_bounds(b);
    if i < b.len() {
        is_char_boundary_iff_not_is_continuation_byte(b, i);
    } else {
        is_char_boundary_start_end_of_seq(b);
    }
    valid_utf8_split(b, i);
}

/// A string of fixed capacity that can be built from bytes or from text.
pub trait FixedString: Sized {
    /// The error of a failed construction.
    type Error;

    /// Builds the string from bytes.
    fn from_bytes(bytes: &[u8]) -> Result<Self, Self::Error>;

    /// Builds the string from text.
    fn from_str(s: &str) -> Result<Self, Self::Error>;
}

impl<const N: usize> FixedString for EncodedFixedStr<N, Utf8> {
    type Error = MovieError;

    fn from_bytes(bytes: &[u8]) -> (r: Result<Self, MovieError>)
        ensures
            match decoded(N, false, bytes@) {
                Ok(text) => r matches Ok(v) && v@ == text,
                Err(fault) => r matches Err(e) && e@ == fault,
            },
    {
        Self::from_utf8(bytes)
    }

    fn from_str(s: &str) -> (r: Result<Self, MovieError>)
        ensures
            match decoded(N, false, s.spec_bytes()) {
                Ok(text) => r matches Ok(v) && v@ == text,
                Err(fault) => r matches Err(e) && e@ == fault,
            },
    {
        Self::from_utf8_str(s)
    }
}

impl<const N: usize> FixedString for EncodedFixedStr<N, Ascii> {
    type Error = MovieError;

    fn from_bytes(bytes: &[u8]) -> (r: Result<Self, MovieError>)
        ensures
            match decoded(N, true, bytes@) {
                Ok(text) => r matches Ok(v) && v@ == text,
                Err(fault) => r matches Err(e) && e@ == fault,
            },
    {
        Self::from_ascii(bytes)
    }

    fn from_str(s: &str) -> (r: Result<Self, MovieError>)
        ensures
            match decoded(N, true, s.spec_bytes()) {
                Ok(text) => r matches Ok(v) && v@ == text,
                Err(fault) => r matches Err(e) && e@ == fault,
            },
    {
        Self::from_ascii_str(s)
    }
}

/// Reading back the field of a stored string gives the string: for every
/// text that a string of capacity `capacity` can hold, the text read from
/// its zero-padded bytes is that text.
pub proof fn law_field_round_trip(capacity: usize, ascii: bool, text: Seq<char>)
    requires
        storable(capacity, ascii, text),
    ensures
        decoded(capacity, ascii, zero_padded(encode_utf8(text), capacity as int)) == Ok::<
            Seq<char>,
            Fault,
        >(text),
        decoded(capacity, ascii, encode_utf8(text)) == Ok::<Seq<char>, Fault>(text),
{
    let bytes = encode_utf8(text);
    lemma_until_nul_padded(bytes, capacity as int);
    lemma_until_nul_whole(bytes);
    encode_utf8_valid_utf8(text);
    encode_utf8_decode_utf8(text);
    lemma_ascii_text(text);
}

/// What was read can be stored: a text that `decoded` accepts meets
/// [`storable`], and its bytes are the field's bytes up to the first zero.
pub proof fn law_decoded_storable(capacity: usize, ascii: bool, bytes: Seq<u8>)
    requires
        decoded(capacity, ascii, bytes) is Ok,
    ensures
        storable(capacity, ascii, decoded(capacity, ascii, bytes)->Ok_0),
        encode_utf8(decoded(capacity, ascii, bytes)->Ok_0) == until_nul(bytes),
{
    let content = until_nul(bytes);
    lemma_until_nul_clean(bytes);
    decode_utf8_encode_utf8(content);
    lemma_ascii_text(decode_utf8(content));
}

} // verus!
