//! The raw movie: every field of the header as it stands in the file, and
//! the input samples behind it.

use crate::raw::layout::{
    bytes_words, le_u16, le_u32, lemma_bytes_round_trip, lemma_tidy_text, lemma_u16_bytes,
    lemma_u32_bytes, lemma_words_round_trip, push_text, push_u16, push_u32, push_zeros,
    read_reserved, read_text, read_u16, read_u32, tidy_text, u16_bytes, u32_bytes, words_bytes,
};
use crate::raw::m64::{
    ControllerFlags, ControllerState, ExtendedData, ExtendedFlags, ExtendedFlagsFields,
    MovieStartType,
};
use crate::shared::{
    lemma_until_nul_clean, lemma_until_nul_padded, null_string_as_slice, null_string_bytes,
    null_string_display, null_string_text, until_nul, zero_padded, zeros, Reserved,
};
use crate::{BinReadExt, BinWriteExt, EncodedFixedStrError, Fault, MovieError, MovieParseError};
use binrw::NullString;
use vstd::prelude::*;
use vstd::slice::slice_subrange;

verus! {

/// The size of the header in bytes; the input samples start here.
pub const HEADER_SIZE: usize = 0x400;

/// A movie as it stands in the file: the header field by field, reserved
/// spans included, and the input samples.
#[derive(Debug, Clone, PartialEq)]
pub struct RawMovie {
    /// The version of the format; 3 in every movie that can be read.
    pub version: u32,
    /// The identifier of the movie.
    pub uid: u32,
    /// The number of vertical interrupts.
    pub vertical_interrupts: u32,
    /// The number of rerecords.
    pub rerecord_count: u32,
    /// The number of vertical interrupts per second.
    pub vis_per_second: u8,
    /// The number of controllers; input samples come in groups of this size.
    pub controller_count: u8,
    /// The version of the extended format: 0 where there is none.
    pub extended_version: u8,
    /// The flags of the extended format.
    pub extended_flags: ExtendedFlags,
    /// The number of input samples for any one controller.
    pub controller_input_samples: u32,
    /// How the movie begins.
    pub start_type: MovieStartType,
    /// Two reserved bytes.
    pub reserved01: Reserved<2>,
    /// Which controllers are plugged in, and with which paks.
    pub controller_flags: ControllerFlags,
    /// The data of the extended format.
    pub extended_data: ExtendedData,
    /// 128 reserved bytes.
    pub reserved02: Reserved<128>,
    /// The internal name of the ROM.
    pub rom_name: NullString,
    /// The CRC32 of the ROM.
    pub rom_crc32: u32,
    /// The country code of the ROM.
    pub rom_country: u16,
    /// 56 reserved bytes.
    pub reserved03: Reserved<56>,
    /// The name of the video plugin.
    pub video_plugin: NullString,
    /// The name of the sound plugin.
    pub sound_plugin: NullString,
    /// The name of the input plugin.
    pub input_plugin: NullString,
    /// The name of the RSP plugin.
    pub rsp_plugin: NullString,
    /// The name of the author.
    pub author_name: NullString,
    /// The description of the movie.
    pub description: NullString,
    /// The input samples, one after another.
    pub inputs: Vec<ControllerState>,
}

/// The mathematical content of a [`RawMovie`]: numbers, packed words as
/// numbers, strings and reserved spans as byte sequences.
pub struct RawMovieView {
    pub version: u32,
    pub uid: u32,
    pub vertical_interrupts: u32,
    pub rerecord_count: u32,
    pub vis_per_second: u8,
    pub controller_count: u8,
    pub extended_version: u8,
    pub extended_flags: u8,
    pub controller_input_samples: u32,
    pub start_type: MovieStartType,
    pub reserved01: Seq<u8>,
    pub controller_flags: u32,
    pub authorship_info: u32,
    pub bruteforce_data: u32,
    pub rerecord_count_high: u32,
    pub extended_reserved: Seq<u8>,
    pub reserved02: Seq<u8>,
    pub rom_name: Seq<u8>,
    pub rom_crc32: u32,
    pub rom_country: u16,
    pub reserved03: Seq<u8>,
    pub video_plugin: Seq<u8>,
    pub sound_plugin: Seq<u8>,
    pub input_plugin: Seq<u8>,
    pub rsp_plugin: Seq<u8>,
    pub author_name: Seq<u8>,
    pub description: Seq<u8>,
    pub inputs: Seq<u32>,
}

/// The words of a sequence of input samples.
pub open spec fn sample_words(samples: Seq<ControllerState>) -> Seq<u32> {
    Seq::new(samples.len(), |i: int| samples[i].bits)
}

impl View for RawMovie {
    type V = RawMovieView;

    open spec fn view(&self) -> RawMovieView {
        RawMovieView {
            version: self.version,
            uid: self.uid,
            vertical_interrupts: self.vertical_interrupts,
            rerecord_count: self.rerecord_count,
            vis_per_second: self.vis_per_second,
            controller_count: self.controller_count,
            extended_version: self.extended_version,
            extended_flags: self.extended_flags.bits,
            controller_input_samples: self.controller_input_samples,
            start_type: self.start_type,
            reserved01: self.reserved01@,
            controller_flags: self.controller_flags.bits,
            authorship_info: self.extended_data.authorship_info,
            bruteforce_data: self.extended_data.bruteforce_data,
            rerecord_count_high: self.extended_data.rerecord_count_high,
            extended_reserved: self.extended_data.reserved@,
            reserved02: self.reserved02@,
            rom_name: null_string_bytes(self.rom_name),
            rom_crc32: self.rom_crc32,
            rom_country: self.rom_country,
            reserved03: self.reserved03@,
            video_plugin: null_string_bytes(self.video_plugin),
            sound_plugin: null_string_bytes(self.sound_plugin),
            input_plugin: null_string_bytes(self.input_plugin),
            rsp_plugin: null_string_bytes(self.rsp_plugin),
            author_name: null_string_bytes(self.author_name),
            description: null_string_bytes(self.description),
            inputs: sample_words(self.inputs@),
        }
    }
}

/// Whether the data starts with the four signature bytes, `M64` and 0x1A.
pub open spec fn has_magic(b: Seq<u8>) -> bool {
    b.len() >= 4 && b[0] == 0x4D && b[1] == 0x36 && b[2] == 0x34 && b[3] == 0x1A
}

/// The four signature bytes.
pub open spec fn magic() -> Seq<u8> {
    seq![0x4Du8, 0x36u8, 0x34u8, 0x1Au8]
}

/// Whether the fields that belong to extended version 1 may stand as they
/// do: each of them is zero, or the extended version is 1.
pub open spec fn extension_state_valid(
    extended_version: u8,
    extended_flags: u8,
    authorship_info: u32,
    bruteforce_data: u32,
    rerecord_count_high: u32,
) -> bool {
    extended_version == 1 || (!ExtendedFlagsFields::unpack(extended_flags).wiivc_emulation_mode
        && authorship_info == 0 && bruteforce_data == 0 && rerecord_count_high == 0)
}

/// The fields that a header of at least `HEADER_SIZE` bytes holds, and the
/// input samples behind it, where `start_type` is what the start type field
/// stands for.
pub open spec fn fields_of(b: Seq<u8>, start_type: MovieStartType) -> RawMovieView {
    RawMovieView {
        version: le_u32(b, 0x004),
        uid: le_u32(b, 0x008),
        vertical_interrupts: le_u32(b, 0x00C),
        rerecord_count: le_u32(b, 0x010),
        vis_per_second: b[0x014],
        controller_count: b[0x015],
        extended_version: b[0x016],
        extended_flags: b[0x017],
        controller_input_samples: le_u32(b, 0x018),
        start_type,
        reserved01: b.subrange(0x01E, 0x020),
        controller_flags: le_u32(b, 0x020),
        authorship_info: le_u32(b, 0x024),
        bruteforce_data: le_u32(b, 0x028),
        rerecord_count_high: le_u32(b, 0x02C),
        extended_reserved: b.subrange(0x030, 0x044),
        reserved02: b.subrange(0x044, 0x0C4),
        rom_name: until_nul(b.subrange(0x0C4, 0x0E4)),
        rom_crc32: le_u32(b, 0x0E4),
        rom_country: le_u16(b, 0x0E8),
        reserved03: b.subrange(0x0EA, 0x122),
        video_plugin: until_nul(b.subrange(0x122, 0x162)),
        sound_plugin: until_nul(b.subrange(0x162, 0x1A2)),
        input_plugin: until_nul(b.subrange(0x1A2, 0x1E2)),
        rsp_plugin: until_nul(b.subrange(0x1E2, 0x222)),
        author_name: until_nul(b.subrange(0x222, 0x300)),
        description: until_nul(b.subrange(0x300, 0x400)),
        inputs: bytes_words(b, 0x400),
    }
}

/// What reading a movie from `b` gives: its fields, or the first fault met
/// on the way through the data from front to back. The signature comes
/// first, then the header fields in their order, of which the start type
/// can be wrong, then the version and the state of the extension, then the
/// input samples, of which the last must be whole.
pub open spec fn decoding(b: Seq<u8>) -> Result<RawMovieView, Fault> {
    if !has_magic(b) {
        Err(Fault::BadMagic)
    } else if b.len() < 0x01E {
        Err(Fault::TruncatedInput)
    } else if MovieStartType::spec_from_code(le_u16(b, 0x01C)) is None {
        Err(Fault::BadStartType(le_u16(b, 0x01C)))
    } else if b.len() < 0x400 {
        Err(Fault::TruncatedInput)
    } else if le_u32(b, 0x004) != 3 {
        Err(Fault::UnsupportedVersion(le_u32(b, 0x004)))
    } else if !extension_state_valid(
        b[0x016],
        b[0x017],
        le_u32(b, 0x024),
        le_u32(b, 0x028),
        le_u32(b, 0x02C),
    ) {
        Err(Fault::InvalidExtensionState)
    } else if (b.len() - 0x400) % 4 != 0 {
        Err(Fault::TruncatedInput)
    } else {
        Ok(fields_of(b, MovieStartType::spec_from_code(le_u16(b, 0x01C))->0))
    }
}

/// The bytes 0x000 to 0x014 of the header: signature, version and counts.
pub open spec fn ids_block(v: RawMovieView) -> Seq<u8> {
    magic() + u32_bytes(v.version) + u32_bytes(v.uid) + u32_bytes(v.vertical_interrupts)
        + u32_bytes(v.rerecord_count)
}

/// The bytes 0x014 to 0x024 of the header: rates, controllers and start.
pub open spec fn mode_block(v: RawMovieView) -> Seq<u8> {
    seq![v.vis_per_second, v.controller_count, v.extended_version, v.extended_flags] + u32_bytes(
        v.controller_input_samples,
    ) + u16_bytes(v.start_type.spec_code()) + zeros(2) + u32_bytes(v.controller_flags)
}

/// The bytes 0x024 to 0x044 of the header: the data of the extended format.
pub open spec fn extension_block(v: RawMovieView) -> Seq<u8> {
    u32_bytes(v.authorship_info) + u32_bytes(v.bruteforce_data) + u32_bytes(
        v.rerecord_count_high,
    ) + zeros(20)
}

/// The bytes 0x0C4 to 0x122 of the header: what identifies the ROM.
pub open spec fn rom_block(v: RawMovieView) -> Seq<u8> {
    zero_padded(v.rom_name, 32) + u32_bytes(v.rom_crc32) + u16_bytes(v.rom_country) + zeros(56)
}

/// The bytes 0x122 to 0x222 of the header: the names of the plugins.
pub open spec fn plugin_block(v: RawMovieView) -> Seq<u8> {
    zero_padded(v.video_plugin, 64) + zero_padded(v.sound_plugin, 64) + zero_padded(
        v.input_plugin,
        64,
    ) + zero_padded(v.rsp_plugin, 64)
}

/// The bytes 0x222 to 0x400 of the header: author and description.
pub open spec fn text_block(v: RawMovieView) -> Seq<u8> {
    zero_padded(v.author_name, 222) + zero_padded(v.description, 256)
}

/// The header: every field at its place, every reserved span zero.
pub open spec fn header(v: RawMovieView) -> Seq<u8> {
    ids_block(v) + mode_block(v) + extension_block(v) + zeros(128) + rom_block(v) + plugin_block(
        v,
    ) + text_block(v)
}

/// The file: the header, then the input samples, four bytes each.
pub open spec fn encoding(v: RawMovieView) -> Seq<u8> {
    header(v) + words_bytes(v.inputs)
}

/// The first string, in the order of the header, that is longer than its
/// field, if there is one.
pub open spec fn first_overlong(v: RawMovieView) -> Option<Seq<u8>> {
    if v.rom_name.len() > 32 {
        Some(v.rom_name)
    } else if v.video_plugin.len() > 64 {
        Some(v.video_plugin)
    } else if v.sound_plugin.len() > 64 {
        Some(v.sound_plugin)
    } else if v.input_plugin.len() > 64 {
        Some(v.input_plugin)
    } else if v.rsp_plugin.len() > 64 {
        Some(v.rsp_plugin)
    } else if v.author_name.len() > 222 {
        Some(v.author_name)
    } else if v.description.len() > 256 {
        Some(v.description)
    } else {
        None
    }
}

/// Checks that a string fits its field, and names it in the error if not.
fn check_fits(text: &NullString, width: usize) -> (r: Result<(), MovieError>)
    ensures
        match r {
            Ok(_) => null_string_bytes(*text).len() <= width,
            Err(e) => null_string_bytes(*text).len() > width && e@ == Fault::StringTooLong(
                null_string_text(null_string_bytes(*text)),
            ),
        },
{
    if null_string_as_slice(text).len() <= width {
        Ok(())
    } else {
        Err(MovieError::FixedStrError(EncodedFixedStrError::ZStrError(null_string_display(text))))
    }
}

/// The input samples that the bytes behind the header spell.
fn read_inputs(bytes: &[u8]) -> (r: Vec<ControllerState>)
    requires
        bytes.len() >= HEADER_SIZE,
    ensures
        sample_words(r@) == bytes_words(bytes@, HEADER_SIZE as int),
{
    let count = (bytes.len() - HEADER_SIZE) / 4;
    let mut inputs: Vec<ControllerState> = Vec::new();
    let mut k: usize = 0;
    while k < count
        invariant
            k <= count,
            count == (bytes.len() - HEADER_SIZE) / 4,
            bytes.len() >= HEADER_SIZE,
            inputs@.len() == k,
            forall|i: int| 0 <= i < k ==> (#[trigger] inputs@[i]).bits == le_u32(
                bytes@,
                HEADER_SIZE + 4 * i,
            ),
        decreases count - k,
    {
        let word = read_u32(bytes, HEADER_SIZE + 4 * k);
        inputs.push(ControllerState::from_bits(word));
        k += 1;
    }
    assert(sample_words(inputs@) =~= bytes_words(bytes@, HEADER_SIZE as int));
    inputs
}

/// Appends the input samples, four bytes each.
fn push_inputs(out: &mut Vec<u8>, inputs: &Vec<ControllerState>)
    ensures
        final(out)@ == old(out)@ + words_bytes(sample_words(inputs@)),
{
    let mut k: usize = 0;
    while k < inputs.len()
        invariant
            k <= inputs@.len(),
            out@ == old(out)@ + words_bytes(sample_words(inputs@.take(k as int))),
        decreases inputs@.len() - k,
    {
        let ghost before = out@;
        push_u32(out, inputs[k].into_bits());
        proof {
            let done = sample_words(inputs@.take(k as int));
            let next = sample_words(inputs@.take(k + 1));
            assert(words_bytes(next) =~= words_bytes(done) + u32_bytes(inputs@[k as int].bits)) by {
                assert forall|i: int| 0 <= i < 4 * k implies words_bytes(next)[i] == words_bytes(
                    done,
                )[i] by {
                    assert(next[i / 4] == done[i / 4]);
                }
                assert forall|i: int| 4 * k <= i < 4 * k + 4 implies words_bytes(next)[i]
                    == u32_bytes(inputs@[k as int].bits)[i - 4 * k] by {
                    assert(i / 4 == k);
                    assert(i % 4 == i - 4 * k);
                }
            }
            assert(out@ =~= old(out)@ + words_bytes(next));
        }
        k += 1;
    }
    assert(inputs@.take(inputs@.len() as int) =~= inputs@);
}

/// How many groups a sequence of `len` items falls into, `group` items to
/// a group and the rest, if any, in a last group.
pub open spec fn frame_count(len: int, group: int) -> int {
    if len % group == 0 {
        len / group
    } else {
        len / group + 1
    }
}

/// The group at position `i`: `group` items from item `i * group` on, or
/// as many as are left.
pub open spec fn frame_at<T>(items: Seq<T>, group: int, i: int) -> Seq<T> {
    items.subrange(
        i * group,
        if (i + 1) * group <= items.len() {
            (i + 1) * group
        } else {
            items.len() as int
        },
    )
}

/// The input samples frame by frame: consecutive groups of `group` samples
/// in their order, the last one shorter where the samples do not come out
/// even. The groups borrow the samples; nothing is copied.
pub fn frames<'a>(inputs: &'a [ControllerState], group: usize) -> (r: Vec<&'a [ControllerState]>)
    requires
        group > 0,
    ensures
        r@.len() == frame_count(inputs@.len() as int, group as int),
        forall|i: int|
            0 <= i < r@.len() ==> (#[trigger] r@[i])@ == frame_at(inputs@, group as int, i),
{
    let n = inputs.len();
    let mut out: Vec<&'a [ControllerState]> = Vec::new();
    let mut start: usize = 0;
    let ghost mut whole: int = 0;
    assert(out@.len() * group == 0) by (nonlinear_arith)
        requires
            out@.len() == 0,
    ;
    while start < n
        invariant
            n == inputs@.len(),
            group > 0,
            start <= n,
            whole == out@.len() * group,
            start == whole || (start == n && whole - group < n < whole),
            forall|i: int|
                0 <= i < out@.len() ==> (#[trigger] out@[i])@ == frame_at(
                    inputs@,
                    group as int,
                    i,
                ),
        decreases n - start,
    {
        let ghost k = out@.len() as int;
        assert((k + 1) * group == k * group + group) by (nonlinear_arith);
        let end = if n - start < group {
            n
        } else {
            start + group
        };
        let ghost before = out@;
        out.push(slice_subrange(inputs, start, end));
        proof {
            whole = whole + group;
            assert(out@.len() == k + 1);
            assert(out@.len() * group == k * group + group) by (nonlinear_arith)
                requires
                    out@.len() == k + 1,
            ;
            assert(frame_at(inputs@, group as int, k) == inputs@.subrange(
                start as int,
                end as int,
            ));
            assert forall|i: int| 0 <= i < out@.len() implies (#[trigger] out@[i])@ == frame_at(
                inputs@,
                group as int,
                i,
            ) by {
                if i < k {
                    assert(out@[i] == before[i]);
                }
            }
        }
        start = end;
    }
    proof {
        let k = out@.len() as int;
        if n == k * group {
            vstd::arithmetic::div_mod::lemma_fundamental_div_mod_converse(
                n as int,
                group as int,
                k,
                0,
            );
        } else {
            assert((k - 1) * group == k * group - group) by (nonlinear_arith);
            vstd::arithmetic::div_mod::lemma_fundamental_div_mod_converse(
                n as int,
                group as int,
                k - 1,
                n - (k - 1) * group,
            );
        }
    }
    out
}

/// How many groups the samples fall into.
pub fn frame_total(len: usize, group: usize) -> (r: usize)
    requires
        group > 0,
    ensures
        r == frame_count(len as int, group as int),
        r <= len,
{
    let whole = len / group;
    proof {
        vstd::arithmetic::div_mod::lemma_fundamental_div_mod(len as int, group as int);
        assert(group * whole >= whole) by (nonlinear_arith)
            requires
                group >= 1,
                whole >= 0,
        ;
    }
    if len % group == 0 {
        whole
    } else {
        whole + 1
    }
}

/// The group at position `index`, borrowed from the samples.
pub fn frame<'a>(inputs: &'a [ControllerState], group: usize, index: usize) -> (r:
    &'a [ControllerState])
    requires
        group > 0,
        index < frame_count(inputs@.len() as int, group as int),
    ensures
        r@ == frame_at(inputs@, group as int, index as int),
{
    let n = inputs.len();
    proof {
        vstd::arithmetic::div_mod::lemma_fundamental_div_mod(n as int, group as int);
        let whole = n as int / group as int;
        assert(index * group <= whole * group) by (nonlinear_arith)
            requires
                index <= whole,
                group > 0,
        ;
        assert(group * whole == whole * group) by (nonlinear_arith);
        assert((index + 1) * group == index * group + group) by (nonlinear_arith);
        if index < whole {
            assert((index + 1) * group <= whole * group) by (nonlinear_arith)
                requires
                    index + 1 <= whole,
                    group > 0,
            ;
        }
    }
    let start = index * group;
    let end = if n - start < group {
        n
    } else {
        start + group
    };
    slice_subrange(inputs, start, end)
}

/// Samples that come out even fall into whole groups: a sequence of
/// `group * count` items has exactly `count` groups, each of `group` items,
/// and item `j` of group `i` is item `i * group + j` of the sequence.
pub proof fn law_frames_exact<T>(items: Seq<T>, group: int, count: int)
    requires
        group > 0,
        count >= 0,
        items.len() == group * count,
    ensures
        frame_count(items.len() as int, group) == count,
        forall|i: int|
            0 <= i < count ==> (#[trigger] frame_at(items, group, i)).len() == group,
        forall|i: int, j: int|
            0 <= i < count && 0 <= j < group ==> #[trigger] frame_at(items, group, i)[j]
                == items[i * group + j],
{
    assert(group * count == count * group) by (nonlinear_arith);
    vstd::arithmetic::div_mod::lemma_fundamental_div_mod_converse(
        items.len() as int,
        group,
        count,
        0,
    );
    assert forall|i: int| 0 <= i < count implies (#[trigger] frame_at(items, group, i)).len()
        == group && (forall|j: int|
        0 <= j < group ==> #[trigger] frame_at(items, group, i)[j] == items[i * group + j]) by {
        assert((i + 1) * group == i * group + group) by (nonlinear_arith);
        assert(0 <= i * group && (i + 1) * group <= group * count) by (nonlinear_arith)
            requires
                0 <= i < count,
                group > 0,
        ;
    }
}

impl RawMovie {
    /// Reads a movie from the bytes of a file.
    pub fn decode(bytes: &[u8]) -> (r: Result<RawMovie, MovieError>)
        ensures
            match decoding(bytes@) {
                Ok(v) => r matches Ok(m) && m@ == v,
                Err(fault) => r matches Err(e) && e@ == fault,
            },
    {
        let n = bytes.len();
        if n < 4 || bytes[0] != 0x4D || bytes[1] != 0x36 || bytes[2] != 0x34 || bytes[3] != 0x1A {
            return Err(MovieError::BadMagic);
        }
        if n < 0x01E {
            return Err(MovieError::TruncatedInput);
        }
        let code = read_u16(bytes, 0x01C);
        let start_type = match MovieStartType::from_code(code) {
            Some(start_type) => start_type,
            None => {
                return Err(MovieError::BadStartType(code));
            },
        };
        if n < HEADER_SIZE {
            return Err(MovieError::TruncatedInput);
        }
        let version = read_u32(bytes, 0x004);
        let extended_version = bytes[0x016];
        let extended_flags = ExtendedFlags::from_bits(bytes[0x017]);
        let extended_data = ExtendedData {
            authorship_info: read_u32(bytes, 0x024),
            bruteforce_data: read_u32(bytes, 0x028),
            rerecord_count_high: read_u32(bytes, 0x02C),
            reserved: read_reserved::<20>(bytes, 0x030),
        };
        if version != 3 {
            return Err(MovieError::MovieParseError(MovieParseError::UnsupportedVersion(version)));
        }
        if extended_version != 1 && (extended_flags.wiivc_emulation_mode()
            || extended_data.authorship_info != 0 || extended_data.bruteforce_data != 0
            || extended_data.rerecord_count_high != 0) {
            return Err(MovieError::InvalidExtensionState);
        }
        if (n - HEADER_SIZE) % 4 != 0 {
            return Err(MovieError::TruncatedInput);
        }
        let movie = RawMovie {
            version,
            uid: read_u32(bytes, 0x008),
            vertical_interrupts: read_u32(bytes, 0x00C),
            rerecord_count: read_u32(bytes, 0x010),
            vis_per_second: bytes[0x014],
            controller_count: bytes[0x015],
            extended_version,
            extended_flags,
            controller_input_samples: read_u32(bytes, 0x018),
            start_type,
            reserved01: read_reserved::<2>(bytes, 0x01E),
            controller_flags: ControllerFlags::from_bits(read_u32(bytes, 0x020)),
            extended_data,
            reserved02: read_reserved::<128>(bytes, 0x044),
            rom_name: read_text(bytes, 0x0C4, 32),
            rom_crc32: read_u32(bytes, 0x0E4),
            rom_country: read_u16(bytes, 0x0E8),
            reserved03: read_reserved::<56>(bytes, 0x0EA),
            video_plugin: read_text(bytes, 0x122, 64),
            sound_plugin: read_text(bytes, 0x162, 64),
            input_plugin: read_text(bytes, 0x1A2, 64),
            rsp_plugin: read_text(bytes, 0x1E2, 64),
            author_name: read_text(bytes, 0x222, 222),
            description: read_text(bytes, 0x300, 256),
            inputs: read_inputs(bytes),
        };
        Ok(movie)
    }

    /// The input samples frame by frame: consecutive groups of
    /// `controller_count` samples, the last one shorter where the samples do
    /// not come out even.
    pub fn controller_inputs_stream(&self) -> (r: Vec<&[ControllerState]>)
        requires
            self.controller_count > 0,
        ensures
            r@.len() == frame_count(self.inputs@.len() as int, self.controller_count as int),
            forall|i: int|
                0 <= i < r@.len() ==> (#[trigger] r@[i])@ == frame_at(
                    self.inputs@,
                    self.controller_count as int,
                    i,
                ),
    {
        frames(self.inputs.as_slice(), self.controller_count as usize)
    }

    /// The bytes 0x000 to 0x044 of the header.
    fn encode_counts(&self) -> (out: Vec<u8>)
        ensures
            out@ == ids_block(self@) + mode_block(self@) + extension_block(self@),
    {
        let mut out: Vec<u8> = Vec::new();
        out.push(0x4D);
        out.push(0x36);
        out.push(0x34);
        out.push(0x1A);
        assert(out@ =~= magic());
        push_u32(&mut out, self.version);
        push_u32(&mut out, self.uid);
        push_u32(&mut out, self.vertical_interrupts);
        push_u32(&mut out, self.rerecord_count);

        let mut mode: Vec<u8> = Vec::new();
        mode.push(self.vis_per_second);
        mode.push(self.controller_count);
        mode.push(self.extended_version);
        mode.push(self.extended_flags.into_bits());
        assert(mode@ =~= seq![
            self.vis_per_second,
            self.controller_count,
            self.extended_version,
            self.extended_flags.bits,
        ]);
        push_u32(&mut mode, self.controller_input_samples);
        push_u16(&mut mode, self.start_type.code());
        push_zeros(&mut mode, 2);
        push_u32(&mut mode, self.controller_flags.into_bits());
        out.append(&mut mode);

        let mut extension: Vec<u8> = Vec::new();
        push_u32(&mut extension, self.extended_data.authorship_info);
        assert(extension@ =~= u32_bytes(self.extended_data.authorship_info));
        push_u32(&mut extension, self.extended_data.bruteforce_data);
        push_u32(&mut extension, self.extended_data.rerecord_count_high);
        push_zeros(&mut extension, 20);
        out.append(&mut extension);
        out
    }

    /// Writes the movie as the bytes of a file.
    pub fn encode(&self) -> (r: Result<Vec<u8>, MovieError>)
        ensures
            match first_overlong(self@) {
                None => r matches Ok(b) && b@ == encoding(self@),
                Some(text) => r matches Err(e) && e@ == Fault::StringTooLong(
                    null_string_text(text),
                ),
            },
    {
        match check_fits(&self.rom_name, 32) {
            Ok(_) => {},
            Err(e) => {
                return Err(e);
            },
        }
        match check_fits(&self.video_plugin, 64) {
            Ok(_) => {},
            Err(e) => {
                return Err(e);
            },
        }
        match check_fits(&self.sound_plugin, 64) {
            Ok(_) => {},
            Err(e) => {
                return Err(e);
            },
        }
        match check_fits(&self.input_plugin, 64) {
            Ok(_) => {},
            Err(e) => {
                return Err(e);
            },
        }
        match check_fits(&self.rsp_plugin, 64) {
            Ok(_) => {},
            Err(e) => {
                return Err(e);
            },
        }
        match check_fits(&self.author_name, 222) {
            Ok(_) => {},
            Err(e) => {
                return Err(e);
            },
        }
        match check_fits(&self.description, 256) {
            Ok(_) => {},
            Err(e) => {
                return Err(e);
            },
        }
        let mut out = self.encode_counts();
        push_zeros(&mut out, 128);

        let mut rom: Vec<u8> = Vec::new();
        push_text(&mut rom, null_string_as_slice(&self.rom_name), 32);
        assert(rom@ =~= zero_padded(self@.rom_name, 32));
        push_u32(&mut rom, self.rom_crc32);
        push_u16(&mut rom, self.rom_country);
        push_zeros(&mut rom, 56);
        out.append(&mut rom);

        let mut plugins: Vec<u8> = Vec::new();
        push_text(&mut plugins, null_string_as_slice(&self.video_plugin), 64);
        assert(plugins@ =~= zero_padded(self@.video_plugin, 64));
        push_text(&mut plugins, null_string_as_slice(&self.sound_plugin), 64);
        push_text(&mut plugins, null_string_as_slice(&self.input_plugin), 64);
        push_text(&mut plugins, null_string_as_slice(&self.rsp_plugin), 64);
        out.append(&mut plugins);

        let mut texts: Vec<u8> = Vec::new();
        push_text(&mut texts, null_string_as_slice(&self.author_name), 222);
        assert(texts@ =~= zero_padded(self@.author_name, 222));
        push_text(&mut texts, null_string_as_slice(&self.description), 256);
        out.append(&mut texts);

        push_inputs(&mut out, &self.inputs);
        Ok(out)
    }
}

impl BinReadExt for RawMovie {
    type Error = MovieError;

    fn from_bytes(bytes: &[u8]) -> (r: Result<RawMovie, MovieError>)
        ensures
            match decoding(bytes@) {
                Ok(v) => r matches Ok(m) && m@ == v,
                Err(fault) => r matches Err(e) && e@ == fault,
            },
    {
        RawMovie::decode(bytes)
    }
}

impl BinWriteExt for RawMovie {
    type Error = MovieError;

    fn to_bytes(&self) -> (r: Result<Vec<u8>, MovieError>)
        ensures
            match first_overlong(self@) {
                None => r matches Ok(b) && b@ == encoding(self@),
                Some(text) => r matches Err(e) && e@ == Fault::StringTooLong(
                    null_string_text(text),
                ),
            },
    {
        self.encode()
    }
}

/// Whether a string can stand in a field of `width` bytes and be read back:
/// it is no longer than the field and holds no zero byte.
pub open spec fn text_fits(text: Seq<u8>, width: int) -> bool {
    text.len() <= width && !text.contains(0u8)
}

impl RawMovieView {
    /// Whether the movie is one that reading a file can give back: the
    /// version is 3, the extension fields agree with the extended version,
    /// every reserved span is zero, and every string fits its field.
    pub open spec fn wf(self) -> bool {
        &&& self.version == 3
        &&& extension_state_valid(
            self.extended_version,
            self.extended_flags,
            self.authorship_info,
            self.bruteforce_data,
            self.rerecord_count_high,
        )
        &&& self.reserved01 == zeros(2)
        &&& self.extended_reserved == zeros(20)
        &&& self.reserved02 == zeros(128)
        &&& self.reserved03 == zeros(56)
        &&& text_fits(self.rom_name, 32)
        &&& text_fits(self.video_plugin, 64)
        &&& text_fits(self.sound_plugin, 64)
        &&& text_fits(self.input_plugin, 64)
        &&& text_fits(self.rsp_plugin, 64)
        &&& text_fits(self.author_name, 222)
        &&& text_fits(self.description, 256)
    }
}

/// Whether a file of at least `HEADER_SIZE` bytes is as a writer leaves it:
/// every reserved span is zero, and so is every byte behind the end of a
/// string in its field.
pub open spec fn tidy(b: Seq<u8>) -> bool {
    &&& b.subrange(0x01E, 0x020) == zeros(2)
    &&& b.subrange(0x030, 0x044) == zeros(20)
    &&& b.subrange(0x044, 0x0C4) == zeros(128)
    &&& b.subrange(0x0EA, 0x122) == zeros(56)
    &&& tidy_text(b.subrange(0x0C4, 0x0E4))
    &&& tidy_text(b.subrange(0x122, 0x162))
    &&& tidy_text(b.subrange(0x162, 0x1A2))
    &&& tidy_text(b.subrange(0x1A2, 0x1E2))
    &&& tidy_text(b.subrange(0x1E2, 0x222))
    &&& tidy_text(b.subrange(0x222, 0x300))
    &&& tidy_text(b.subrange(0x300, 0x400))
}

/// What stands where in the first block of the header.
proof fn lemma_ids_block(v: RawMovieView)
    ensures
        ids_block(v).len() == 0x014,
        has_magic(ids_block(v)),
        le_u32(ids_block(v), 0x004) == v.version,
        le_u32(ids_block(v), 0x008) == v.uid,
        le_u32(ids_block(v), 0x00C) == v.vertical_interrupts,
        le_u32(ids_block(v), 0x010) == v.rerecord_count,
{
    let c = ids_block(v);
    lemma_u32_bytes(v.version, c, 0);
    lemma_u32_bytes(v.uid, c, 0);
    lemma_u32_bytes(v.vertical_interrupts, c, 0);
    lemma_u32_bytes(v.rerecord_count, c, 0);
}

/// What stands where in the second block of the header.
proof fn lemma_mode_block(v: RawMovieView)
    ensures
        mode_block(v).len() == 0x010,
        mode_block(v)[0] == v.vis_per_second,
        mode_block(v)[1] == v.controller_count,
        mode_block(v)[2] == v.extended_version,
        mode_block(v)[3] == v.extended_flags,
        le_u32(mode_block(v), 0x004) == v.controller_input_samples,
        le_u16(mode_block(v), 0x008) == v.start_type.spec_code(),
        mode_block(v).subrange(0x00A, 0x00C) == zeros(2),
        le_u32(mode_block(v), 0x00C) == v.controller_flags,
{
    let c = mode_block(v);
    lemma_u32_bytes(v.controller_input_samples, c, 0);
    lemma_u16_bytes(v.start_type.spec_code(), c, 0);
    lemma_u32_bytes(v.controller_flags, c, 0);
    assert(c.subrange(0x00A, 0x00C) =~= zeros(2));
}

/// What stands where in the block of the extended format.
proof fn lemma_extension_block(v: RawMovieView)
    ensures
        extension_block(v).len() == 0x020,
        le_u32(extension_block(v), 0x000) == v.authorship_info,
        le_u32(extension_block(v), 0x004) == v.bruteforce_data,
        le_u32(extension_block(v), 0x008) == v.rerecord_count_high,
        extension_block(v).subrange(0x00C, 0x020) == zeros(20),
{
    let c = extension_block(v);
    lemma_u32_bytes(v.authorship_info, c, 0);
    lemma_u32_bytes(v.bruteforce_data, c, 0);
    lemma_u32_bytes(v.rerecord_count_high, c, 0);
    assert(c.subrange(0x00C, 0x020) =~= zeros(20));
}

/// What stands where in the block that identifies the ROM.
proof fn lemma_rom_block(v: RawMovieView)
    requires
        v.rom_name.len() <= 32,
    ensures
        rom_block(v).len() == 0x05E,
        rom_block(v).subrange(0, 0x020) == zero_padded(v.rom_name, 32),
        le_u32(rom_block(v), 0x020) == v.rom_crc32,
        le_u16(rom_block(v), 0x024) == v.rom_country,
        rom_block(v).subrange(0x026, 0x05E) == zeros(56),
{
    let r = rom_block(v);
    lemma_u32_bytes(v.rom_crc32, r, 0);
    lemma_u16_bytes(v.rom_country, r, 0);
    assert(r.subrange(0, 0x020) =~= zero_padded(v.rom_name, 32));
    assert(r.subrange(0x026, 0x05E) =~= zeros(56));
}

/// What stands where in the block of plugin names.
proof fn lemma_plugin_block(v: RawMovieView)
    requires
        v.video_plugin.len() <= 64,
        v.sound_plugin.len() <= 64,
        v.input_plugin.len() <= 64,
        v.rsp_plugin.len() <= 64,
    ensures
        plugin_block(v).len() == 0x100,
        plugin_block(v).subrange(0, 0x040) == zero_padded(v.video_plugin, 64),
        plugin_block(v).subrange(0x040, 0x080) == zero_padded(v.sound_plugin, 64),
        plugin_block(v).subrange(0x080, 0x0C0) == zero_padded(v.input_plugin, 64),
        plugin_block(v).subrange(0x0C0, 0x100) == zero_padded(v.rsp_plugin, 64),
{
    let p = plugin_block(v);
    assert(p.subrange(0, 0x040) =~= zero_padded(v.video_plugin, 64));
    assert(p.subrange(0x040, 0x080) =~= zero_padded(v.sound_plugin, 64));
    assert(p.subrange(0x080, 0x0C0) =~= zero_padded(v.input_plugin, 64));
    assert(p.subrange(0x0C0, 0x100) =~= zero_padded(v.rsp_plugin, 64));
}

/// What stands where in the block of author and description.
proof fn lemma_text_block(v: RawMovieView)
    requires
        v.author_name.len() <= 222,
        v.description.len() <= 256,
    ensures
        text_block(v).len() == 0x1DE,
        text_block(v).subrange(0, 0x0DE) == zero_padded(v.author_name, 222),
        text_block(v).subrange(0x0DE, 0x1DE) == zero_padded(v.description, 256),
{
    let t = text_block(v);
    assert(t.subrange(0, 0x0DE) =~= zero_padded(v.author_name, 222));
    assert(t.subrange(0x0DE, 0x1DE) =~= zero_padded(v.description, 256));
}

/// A part of a sequence that lies in the first of two joined sequences.
proof fn lemma_subrange_left(a: Seq<u8>, b: Seq<u8>, i: int, j: int)
    requires
        0 <= i <= j <= a.len(),
    ensures
        (a + b).subrange(i, j) == a.subrange(i, j),
{
    assert((a + b).subrange(i, j) =~= a.subrange(i, j));
}

/// What stands where in a header.
proof fn lemma_header(v: RawMovieView)
    requires
        first_overlong(v) is None,
    ensures
        header(v).len() == 0x400,
        header(v).subrange(0, 0x014) == ids_block(v),
        header(v).subrange(0x014, 0x024) == mode_block(v),
        header(v).subrange(0x024, 0x044) == extension_block(v),
        header(v).subrange(0x044, 0x0C4) == zeros(128),
        header(v).subrange(0x0C4, 0x122) == rom_block(v),
        header(v).subrange(0x122, 0x222) == plugin_block(v),
        header(v).subrange(0x222, 0x400) == text_block(v),
{
    lemma_ids_block(v);
    lemma_mode_block(v);
    lemma_extension_block(v);
    lemma_rom_block(v);
    lemma_plugin_block(v);
    lemma_text_block(v);
    let h = header(v);
    assert(h.subrange(0, 0x014) =~= ids_block(v));
    assert(h.subrange(0x014, 0x024) =~= mode_block(v));
    assert(h.subrange(0x024, 0x044) =~= extension_block(v));
    assert(h.subrange(0x044, 0x0C4) =~= zeros(128));
    assert(h.subrange(0x0C4, 0x122) =~= rom_block(v));
    assert(h.subrange(0x122, 0x222) =~= plugin_block(v));
    assert(h.subrange(0x222, 0x400) =~= text_block(v));
}

/// A part of a file is the same part of its header.
proof fn lemma_part_of_header(v: RawMovieView, i: int, j: int)
    requires
        0 <= i <= j <= header(v).len(),
    ensures
        encoding(v).subrange(i, j) == header(v).subrange(i, j),
        forall|k: int| 0 <= k < j - i ==> encoding(v)[i + k] == header(v).subrange(i, j)[k],
{
    lemma_subrange_left(header(v), words_bytes(v.inputs), i, j);
}

/// The first three blocks of a written file read as they were written.
proof fn lemma_decoded_counts(v: RawMovieView)
    requires
        first_overlong(v) is None,
    ensures
        has_magic(encoding(v)),
        le_u16(encoding(v), 0x01C) == v.start_type.spec_code(),
        fields_of(encoding(v), v.start_type).version == v.version,
        fields_of(encoding(v), v.start_type).uid == v.uid,
        fields_of(encoding(v), v.start_type).vertical_interrupts == v.vertical_interrupts,
        fields_of(encoding(v), v.start_type).rerecord_count == v.rerecord_count,
        fields_of(encoding(v), v.start_type).vis_per_second == v.vis_per_second,
        fields_of(encoding(v), v.start_type).controller_count == v.controller_count,
        fields_of(encoding(v), v.start_type).extended_version == v.extended_version,
        fields_of(encoding(v), v.start_type).extended_flags == v.extended_flags,
        fields_of(encoding(v), v.start_type).controller_input_samples
            == v.controller_input_samples,
        fields_of(encoding(v), v.start_type).reserved01 == zeros(2),
        fields_of(encoding(v), v.start_type).controller_flags == v.controller_flags,
        fields_of(encoding(v), v.start_type).authorship_info == v.authorship_info,
        fields_of(encoding(v), v.start_type).bruteforce_data == v.bruteforce_data,
        fields_of(encoding(v), v.start_type).rerecord_count_high == v.rerecord_count_high,
        fields_of(encoding(v), v.start_type).extended_reserved == zeros(20),
        fields_of(encoding(v), v.start_type).reserved02 == zeros(128),
{
    let e = encoding(v);
    lemma_header(v);
    lemma_ids_block(v);
    lemma_mode_block(v);
    lemma_extension_block(v);
    lemma_part_of_header(v, 0, 0x014);
    lemma_part_of_header(v, 0x014, 0x024);
    lemma_part_of_header(v, 0x024, 0x044);
    lemma_part_of_header(v, 0x044, 0x0C4);
    let ids = ids_block(v);
    let mode = mode_block(v);
    let ext = extension_block(v);
    assert(e[0] == ids[0] && e[1] == ids[1] && e[2] == ids[2] && e[3] == ids[3]);
    assert(e[4] == ids[4] && e[5] == ids[5] && e[6] == ids[6] && e[7] == ids[7]);
    assert(e[8] == ids[8] && e[9] == ids[9] && e[10] == ids[10] && e[11] == ids[11]);
    assert(e[12] == ids[12] && e[13] == ids[13] && e[14] == ids[14] && e[15] == ids[15]);
    assert(e[16] == ids[16] && e[17] == ids[17] && e[18] == ids[18] && e[19] == ids[19]);
    assert(e[0x014] == mode[0] && e[0x015] == mode[1] && e[0x016] == mode[2] && e[0x017]
        == mode[3]);
    assert(e[0x018] == mode[4] && e[0x019] == mode[5] && e[0x01A] == mode[6] && e[0x01B]
        == mode[7]);
    assert(e[0x01C] == mode[8] && e[0x01D] == mode[9]);
    assert(e[0x020] == mode[12] && e[0x021] == mode[13] && e[0x022] == mode[14] && e[0x023]
        == mode[15]);
    assert(e[0x024] == ext[0] && e[0x025] == ext[1] && e[0x026] == ext[2] && e[0x027] == ext[3]);
    assert(e[0x028] == ext[4] && e[0x029] == ext[5] && e[0x02A] == ext[6] && e[0x02B] == ext[7]);
    assert(e[0x02C] == ext[8] && e[0x02D] == ext[9] && e[0x02E] == ext[10] && e[0x02F]
        == ext[11]);
    assert(e.subrange(0x01E, 0x020) =~= mode.subrange(0x00A, 0x00C));
    assert(e.subrange(0x030, 0x044) =~= ext.subrange(0x00C, 0x020));
}

/// The ROM block of a written file reads as it was written.
proof fn lemma_decoded_rom(v: RawMovieView)
    requires
        first_overlong(v) is None,
        !v.rom_name.contains(0u8),
    ensures
        fields_of(encoding(v), v.start_type).rom_name == v.rom_name,
        fields_of(encoding(v), v.start_type).rom_crc32 == v.rom_crc32,
        fields_of(encoding(v), v.start_type).rom_country == v.rom_country,
        fields_of(encoding(v), v.start_type).reserved03 == zeros(56),
{
    let e = encoding(v);
    let r = rom_block(v);
    lemma_header(v);
    lemma_rom_block(v);
    lemma_part_of_header(v, 0x0C4, 0x122);
    assert(e.subrange(0x0EA, 0x122) =~= r.subrange(0x026, 0x05E));
    assert(e.subrange(0x0C4, 0x0E4) =~= r.subrange(0, 0x020));
    lemma_until_nul_padded(v.rom_name, 32);
    assert(e[0x0E4] == r[0x020] && e[0x0E5] == r[0x021] && e[0x0E6] == r[0x022] && e[0x0E7]
        == r[0x023]);
    assert(e[0x0E8] == r[0x024] && e[0x0E9] == r[0x025]);
}

/// The plugin names of a written file read as they were written.
proof fn lemma_decoded_plugins(v: RawMovieView)
    requires
        first_overlong(v) is None,
        !v.video_plugin.contains(0u8),
        !v.sound_plugin.contains(0u8),
        !v.input_plugin.contains(0u8),
        !v.rsp_plugin.contains(0u8),
    ensures
        fields_of(encoding(v), v.start_type).video_plugin == v.video_plugin,
        fields_of(encoding(v), v.start_type).sound_plugin == v.sound_plugin,
        fields_of(encoding(v), v.start_type).input_plugin == v.input_plugin,
        fields_of(encoding(v), v.start_type).rsp_plugin == v.rsp_plugin,
{
    let e = encoding(v);
    let p = plugin_block(v);
    lemma_header(v);
    lemma_plugin_block(v);
    lemma_part_of_header(v, 0x122, 0x222);
    assert(e.subrange(0x122, 0x162) =~= p.subrange(0, 0x040));
    lemma_until_nul_padded(v.video_plugin, 64);
    assert(e.subrange(0x162, 0x1A2) =~= p.subrange(0x040, 0x080));
    lemma_until_nul_padded(v.sound_plugin, 64);
    assert(e.subrange(0x1A2, 0x1E2) =~= p.subrange(0x080, 0x0C0));
    lemma_until_nul_padded(v.input_plugin, 64);
    assert(e.subrange(0x1E2, 0x222) =~= p.subrange(0x0C0, 0x100));
    lemma_until_nul_padded(v.rsp_plugin, 64);
}

/// Author and description of a written file read as they were written.
proof fn lemma_decoded_texts(v: RawMovieView)
    requires
        first_overlong(v) is None,
        !v.author_name.contains(0u8),
        !v.description.contains(0u8),
    ensures
        fields_of(encoding(v), v.start_type).author_name == v.author_name,
        fields_of(encoding(v), v.start_type).description == v.description,
{
    let e = encoding(v);
    let t = text_block(v);
    lemma_header(v);
    lemma_text_block(v);
    lemma_part_of_header(v, 0x222, 0x400);
    assert(e.subrange(0x222, 0x300) =~= t.subrange(0, 0x0DE));
    lemma_until_nul_padded(v.author_name, 222);
    assert(e.subrange(0x300, 0x400) =~= t.subrange(0x0DE, 0x1DE));
    lemma_until_nul_padded(v.description, 256);
}

/// Reading what was written gives the movie back: for every movie that
/// meets [`RawMovieView::wf`], the bytes written for it read as that movie.
pub proof fn law_decode_encode(v: RawMovieView)
    requires
        v.wf(),
    ensures
        first_overlong(v) is None,
        decoding(encoding(v)) == Ok::<RawMovieView, Fault>(v),
{
    let e = encoding(v);
    lemma_header(v);
    lemma_words_round_trip(header(v), v.inputs);
    lemma_decoded_counts(v);
    lemma_decoded_rom(v);
    lemma_decoded_plugins(v);
    lemma_decoded_texts(v);
    assert(e.len() == 0x400 + 4 * v.inputs.len());
    let start_type = v.start_type;
    assert(MovieStartType::spec_from_code(start_type.spec_code()) == Some(start_type));
    let d = fields_of(e, start_type);
    assert(d.inputs == v.inputs);
    assert(d == v);
}

/// The first three blocks written for what was read from a file are the
/// file's bytes at their place.
proof fn lemma_counts_of(b: Seq<u8>, start_type: MovieStartType)
    requires
        has_magic(b),
        b.len() >= 0x400,
        start_type.spec_code() == le_u16(b, 0x01C),
        b.subrange(0x01E, 0x020) == zeros(2),
        b.subrange(0x030, 0x044) == zeros(20),
    ensures
        ids_block(fields_of(b, start_type)) == b.subrange(0, 0x014),
        mode_block(fields_of(b, start_type)) == b.subrange(0x014, 0x024),
        extension_block(fields_of(b, start_type)) == b.subrange(0x024, 0x044),
{
    let v = fields_of(b, start_type);
    lemma_u32_bytes(0, b, 0x004);
    lemma_u32_bytes(0, b, 0x008);
    lemma_u32_bytes(0, b, 0x00C);
    lemma_u32_bytes(0, b, 0x010);
    assert(ids_block(v) =~= b.subrange(0, 0x014)) by {
        assert(magic() =~= b.subrange(0, 4));
    }
    lemma_u32_bytes(0, b, 0x018);
    lemma_u16_bytes(0, b, 0x01C);
    lemma_u32_bytes(0, b, 0x020);
    assert(mode_block(v) =~= b.subrange(0x014, 0x024)) by {
        assert(seq![v.vis_per_second, v.controller_count, v.extended_version, v.extended_flags]
            =~= b.subrange(0x014, 0x018));
    }
    lemma_u32_bytes(0, b, 0x024);
    lemma_u32_bytes(0, b, 0x028);
    lemma_u32_bytes(0, b, 0x02C);
    assert(extension_block(v) =~= b.subrange(0x024, 0x044));
}

/// The ROM block written for what was read from a file is the file's bytes
/// at its place.
proof fn lemma_rom_of(b: Seq<u8>, start_type: MovieStartType)
    requires
        b.len() >= 0x400,
        b.subrange(0x0EA, 0x122) == zeros(56),
        tidy_text(b.subrange(0x0C4, 0x0E4)),
    ensures
        rom_block(fields_of(b, start_type)) == b.subrange(0x0C4, 0x122),
        fields_of(b, start_type).rom_name.len() <= 32,
{
    let v = fields_of(b, start_type);
    lemma_until_nul_clean(b.subrange(0x0C4, 0x0E4));
    lemma_tidy_text(b.subrange(0x0C4, 0x0E4));
    lemma_u32_bytes(0, b, 0x0E4);
    lemma_u16_bytes(0, b, 0x0E8);
    assert(rom_block(v) =~= b.subrange(0x0C4, 0x122));
}

/// The plugin block written for what was read from a file is the file's
/// bytes at its place.
proof fn lemma_plugins_of(b: Seq<u8>, start_type: MovieStartType)
    requires
        b.len() >= 0x400,
        tidy_text(b.subrange(0x122, 0x162)),
        tidy_text(b.subrange(0x162, 0x1A2)),
        tidy_text(b.subrange(0x1A2, 0x1E2)),
        tidy_text(b.subrange(0x1E2, 0x222)),
    ensures
        plugin_block(fields_of(b, start_type)) == b.subrange(0x122, 0x222),
        fields_of(b, start_type).video_plugin.len() <= 64,
        fields_of(b, start_type).sound_plugin.len() <= 64,
        fields_of(b, start_type).input_plugin.len() <= 64,
        fields_of(b, start_type).rsp_plugin.len() <= 64,
{
    let v = fields_of(b, start_type);
    lemma_until_nul_clean(b.subrange(0x122, 0x162));
    lemma_until_nul_clean(b.subrange(0x162, 0x1A2));
    lemma_until_nul_clean(b.subrange(0x1A2, 0x1E2));
    lemma_until_nul_clean(b.subrange(0x1E2, 0x222));
    lemma_tidy_text(b.subrange(0x122, 0x162));
    lemma_tidy_text(b.subrange(0x162, 0x1A2));
    lemma_tidy_text(b.subrange(0x1A2, 0x1E2));
    lemma_tidy_text(b.subrange(0x1E2, 0x222));
    assert(plugin_block(v) =~= b.subrange(0x122, 0x222));
}

/// The block of author and description written for what was read from a
/// file is the file's bytes at its place.
proof fn lemma_texts_of(b: Seq<u8>, start_type: MovieStartType)
    requires
        b.len() >= 0x400,
        tidy_text(b.subrange(0x222, 0x300)),
        tidy_text(b.subrange(0x300, 0x400)),
    ensures
        text_block(fields_of(b, start_type)) == b.subrange(0x222, 0x400),
        fields_of(b, start_type).author_name.len() <= 222,
        fields_of(b, start_type).description.len() <= 256,
{
    let v = fields_of(b, start_type);
    lemma_until_nul_clean(b.subrange(0x222, 0x300));
    lemma_until_nul_clean(b.subrange(0x300, 0x400));
    lemma_tidy_text(b.subrange(0x222, 0x300));
    lemma_tidy_text(b.subrange(0x300, 0x400));
    assert(text_block(v) =~= b.subrange(0x222, 0x400));
}

/// Writing what was read gives the file back: where a file reads as a
/// movie and is [`tidy`], the bytes written for that movie are the file.
#[verifier::rlimit(30)]
pub proof fn law_encode_decode(b: Seq<u8>)
    requires
        decoding(b) is Ok,
        tidy(b),
    ensures
        first_overlong(decoding(b)->Ok_0) is None,
        encoding(decoding(b)->Ok_0) == b,
{
    let start_type = MovieStartType::spec_from_code(le_u16(b, 0x01C))->0;
    let v = fields_of(b, start_type);
    assert(decoding(b)->Ok_0 == v);
    lemma_counts_of(b, start_type);
    lemma_rom_of(b, start_type);
    lemma_plugins_of(b, start_type);
    lemma_texts_of(b, start_type);
    assert(header(v) =~= b.subrange(0, 0x400));
    lemma_bytes_round_trip(b, 0x400);
    assert(encoding(v) =~= b);
}

} // verus!
