//! The typed layer: the header grouped by meaning, its strings checked, and
//! the fields of the extended format present only where the extended
//! version defines them.

use crate::raw::m64;
use crate::raw::m64::{
    law_extended_flags_pack_unpack, law_extended_flags_unpack_pack, ControllerFlags,
    ControllerState, ExtendedFlagsFields, MovieStartType,
};
use crate::raw::record::{
    frame, frame_at, frame_count, frame_total, frames, RawMovie, RawMovieView,
};
use crate::shared::{
    all_ascii, decoded, is_ascii_bytes, law_decoded_storable, law_field_round_trip,
    lemma_ascii_bytes, lemma_ascii_text, lemma_nul_index_bounds, lemma_until_nul_whole,
    null_string_as_slice, null_string_bytes, null_string_display, null_string_text, storable,
    until_nul, zeros, Ascii, EncodedFixedStr, Reserved, Utf8,
};
use crate::{EncodedFixedStrError, Fault, MovieError, MovieParseError};
use binrw::NullString;
use vstd::prelude::*;
use vstd::utf8::{decode_utf8, encode_utf8};

verus! {

/// The flags of the extended format, as far as the extended version
/// defines them.
#[derive(Debug, Clone, Eq, PartialEq)]
pub enum ExtendedFlags {
    /// Extended version 0 defines no flags.
    ExtendedFlagsV0,
    /// The flags of extended version 1.
    ExtendedFlagsV1 {
        /// Whether the movie was recorded in WiiVC emulation mode.
        wiivc_emulation_mode: bool,
    },
}

/// The data of the extended format, as far as the extended version defines
/// it.
#[derive(Debug, Clone, Eq, PartialEq)]
pub enum ExtendedData {
    /// Extended version 0 defines no data.
    ExtendedDataV0,
    /// The data of extended version 1.
    ExtendedDataV1 {
        /// Special authorship information.
        authorship_info: u32,
        /// Data regarding bruteforcing.
        bruteforce_data: u32,
        /// The high word of the rerecord count.
        rerecord_count_high: u32,
    },
}

impl ExtendedFlags {
    /// The byte that stands for the flags in the header: the flag of
    /// version 1 in its bit, every other bit zero.
    pub open spec fn raw_bits(self) -> u8 {
        match self {
            ExtendedFlags::ExtendedFlagsV0 => 0,
            ExtendedFlags::ExtendedFlagsV1 { wiivc_emulation_mode } => (ExtendedFlagsFields {
                wiivc_emulation_mode,
                reserved: 0,
            }).pack(),
        }
    }

    /// The flags as they stand in the header.
    pub fn to_raw(&self) -> (r: m64::ExtendedFlags)
        ensures
            r.bits == self.raw_bits(),
    {
        match self {
            ExtendedFlags::ExtendedFlagsV0 => m64::ExtendedFlags::default(),
            ExtendedFlags::ExtendedFlagsV1 { wiivc_emulation_mode } => {
                m64::ExtendedFlags::from_fields(
                    ExtendedFlagsFields {
                        wiivc_emulation_mode: *wiivc_emulation_mode,
                        reserved: 0,
                    },
                )
            },
        }
    }
}

impl PartialEq<m64::ExtendedFlags> for ExtendedFlags {
    /// Whether the raw flags are those that stand for these flags.
    fn eq(&self, other: &m64::ExtendedFlags) -> (r: bool) {
        self.to_raw().bits == other.bits
    }
}

impl vstd::std_specs::cmp::PartialEqSpecImpl<m64::ExtendedFlags> for ExtendedFlags {
    open spec fn obeys_eq_spec() -> bool {
        true
    }

    open spec fn eq_spec(&self, other: &m64::ExtendedFlags) -> bool {
        self.raw_bits() == other.bits
    }
}

impl From<ExtendedFlags> for m64::ExtendedFlags {
    fn from(flags: ExtendedFlags) -> (r: m64::ExtendedFlags) {
        flags.to_raw()
    }
}

impl vstd::std_specs::convert::FromSpecImpl<ExtendedFlags> for m64::ExtendedFlags {
    open spec fn obeys_from_spec() -> bool {
        true
    }

    open spec fn from_spec(flags: ExtendedFlags) -> m64::ExtendedFlags {
        m64::ExtendedFlags { bits: flags.raw_bits() }
    }
}

impl ExtendedData {
    /// The first number of the data as it stands in the header.
    pub open spec fn raw_authorship_info(self) -> u32 {
        match self {
            ExtendedData::ExtendedDataV0 => 0,
            ExtendedData::ExtendedDataV1 { authorship_info, .. } => authorship_info,
        }
    }

    /// The second number of the data as it stands in the header.
    pub open spec fn raw_bruteforce_data(self) -> u32 {
        match self {
            ExtendedData::ExtendedDataV0 => 0,
            ExtendedData::ExtendedDataV1 { bruteforce_data, .. } => bruteforce_data,
        }
    }

    /// The third number of the data as it stands in the header.
    pub open spec fn raw_rerecord_count_high(self) -> u32 {
        match self {
            ExtendedData::ExtendedDataV0 => 0,
            ExtendedData::ExtendedDataV1 { rerecord_count_high, .. } => rerecord_count_high,
        }
    }

    /// The data as it stands in the header: the numbers of version 1, or
    /// zeros, and the reserved bytes zero.
    pub fn to_raw(&self) -> (r: m64::ExtendedData)
        ensures
            r.authorship_info == self.raw_authorship_info(),
            r.bruteforce_data == self.raw_bruteforce_data(),
            r.rerecord_count_high == self.raw_rerecord_count_high(),
            r.reserved@ == zeros(20),
    {
        match self {
            ExtendedData::ExtendedDataV0 => m64::ExtendedData::default(),
            ExtendedData::ExtendedDataV1 {
                authorship_info,
                bruteforce_data,
                rerecord_count_high,
            } => m64::ExtendedData {
                authorship_info: *authorship_info,
                bruteforce_data: *bruteforce_data,
                rerecord_count_high: *rerecord_count_high,
                reserved: Reserved::default(),
            },
        }
    }
}

impl PartialEq<m64::ExtendedData> for ExtendedData {
    /// Whether the raw data holds the numbers that stand for this data.
    fn eq(&self, other: &m64::ExtendedData) -> (r: bool) {
        let raw = self.to_raw();
        raw.authorship_info == other.authorship_info && raw.bruteforce_data
            == other.bruteforce_data && raw.rerecord_count_high == other.rerecord_count_high
    }
}

impl vstd::std_specs::cmp::PartialEqSpecImpl<m64::ExtendedData> for ExtendedData {
    open spec fn obeys_eq_spec() -> bool {
        true
    }

    open spec fn eq_spec(&self, other: &m64::ExtendedData) -> bool {
        self.raw_authorship_info() == other.authorship_info && self.raw_bruteforce_data()
            == other.bruteforce_data && self.raw_rerecord_count_high()
            == other.rerecord_count_high
    }
}

impl From<ExtendedData> for m64::ExtendedData {
    fn from(data: ExtendedData) -> (r: m64::ExtendedData) {
        let r = data.to_raw();
        assert(r.reserved.reserved =~= vstd::array::spec_array_fill_for_copy_type::<u8, 20>(0u8));
        r
    }
}

impl vstd::std_specs::convert::FromSpecImpl<ExtendedData> for m64::ExtendedData {
    open spec fn obeys_from_spec() -> bool {
        true
    }

    open spec fn from_spec(data: ExtendedData) -> m64::ExtendedData {
        m64::ExtendedData {
            authorship_info: data.raw_authorship_info(),
            bruteforce_data: data.raw_bruteforce_data(),
            rerecord_count_high: data.raw_rerecord_count_high(),
            reserved: Reserved {
                reserved: vstd::array::spec_array_fill_for_copy_type::<u8, 20>(0u8),
            },
        }
    }
}

/// Version and extension of the format.
#[derive(Debug, Clone, Eq, PartialEq)]
pub struct MupenMetadata {
    /// The version of the format: 3.
    pub version: u32,
    /// The version of the extended format: 0 where there is none.
    pub extended_version: u8,
    /// The flags of the extended format.
    pub extended_flags: ExtendedFlags,
    /// The data of the extended format.
    pub extended_data: ExtendedData,
}

/// What identifies the game.
#[derive(Debug, Clone, Eq, PartialEq)]
pub struct GameInfo {
    /// The internal name of the ROM.
    pub rom_name: EncodedFixedStr<32, Ascii>,
    /// The CRC32 of the ROM.
    pub rom_crc32: u32,
    /// The country code of the ROM.
    pub rom_country: u16,
}

/// The plugins that the movie was recorded with.
#[derive(Debug, Clone, Eq, PartialEq)]
pub struct PluginInfo {
    /// The name of the video plugin.
    pub video_plugin: EncodedFixedStr<64, Ascii>,
    /// The name of the sound plugin.
    pub sound_plugin: EncodedFixedStr<64, Ascii>,
    /// The name of the input plugin.
    pub input_plugin: EncodedFixedStr<64, Ascii>,
    /// The name of the RSP plugin.
    pub rsp_plugin: EncodedFixedStr<64, Ascii>,
}

/// What describes the recording.
#[derive(Debug, Clone, Eq, PartialEq)]
pub struct RecordingInfo {
    /// The name of the author.
    pub author_name: EncodedFixedStr<222, Utf8>,
    /// The description of the movie.
    pub description: EncodedFixedStr<256, Utf8>,
    /// The identifier of the movie.
    pub uid: u32,
    /// The number of vertical interrupts.
    pub vertical_interrupts: u32,
    /// The number of rerecords.
    pub rerecord_count: u32,
    /// The number of vertical interrupts per second.
    pub vis_per_second: u8,
    /// The number of controllers.
    pub controller_count: u8,
    /// The number of input samples for any one controller.
    pub controller_input_samples: u32,
    /// Which controllers are plugged in, and with which paks.
    pub controller_flags: ControllerFlags,
    /// How the movie begins.
    pub start_type: MovieStartType,
}

/// A Mupen64 movie of version 3.
#[derive(Debug, Clone, Eq, PartialEq)]
pub struct Movie {
    /// Version and extension of the format.
    pub metadata: MupenMetadata,
    /// What identifies the game.
    pub game_info: GameInfo,
    /// The plugins that the movie was recorded with.
    pub plugin_info: PluginInfo,
    /// What describes the recording.
    pub recording_info: RecordingInfo,
    /// The input samples, one after another.
    pub inputs: Vec<ControllerState>,
}

/// The mathematical content of a [`GameInfo`].
pub struct GameInfoView {
    pub rom_name: Seq<char>,
    pub rom_crc32: u32,
    pub rom_country: u16,
}

/// The mathematical content of a [`PluginInfo`].
pub struct PluginInfoView {
    pub video_plugin: Seq<char>,
    pub sound_plugin: Seq<char>,
    pub input_plugin: Seq<char>,
    pub rsp_plugin: Seq<char>,
}

/// The mathematical content of a [`RecordingInfo`].
pub struct RecordingInfoView {
    pub author_name: Seq<char>,
    pub description: Seq<char>,
    pub uid: u32,
    pub vertical_interrupts: u32,
    pub rerecord_count: u32,
    pub vis_per_second: u8,
    pub controller_count: u8,
    pub controller_input_samples: u32,
    pub controller_flags: u32,
    pub start_type: MovieStartType,
}

/// The mathematical content of a [`Movie`].
pub struct MovieView {
    pub metadata: MupenMetadata,
    pub game_info: GameInfoView,
    pub plugin_info: PluginInfoView,
    pub recording_info: RecordingInfoView,
    pub inputs: Seq<u32>,
}

impl View for GameInfo {
    type V = GameInfoView;

    open spec fn view(&self) -> GameInfoView {
        GameInfoView {
            rom_name: self.rom_name@,
            rom_crc32: self.rom_crc32,
            rom_country: self.rom_country,
        }
    }
}

impl View for PluginInfo {
    type V = PluginInfoView;

    open spec fn view(&self) -> PluginInfoView {
        PluginInfoView {
            video_plugin: self.video_plugin@,
            sound_plugin: self.sound_plugin@,
            input_plugin: self.input_plugin@,
            rsp_plugin: self.rsp_plugin@,
        }
    }
}

impl View for RecordingInfo {
    type V = RecordingInfoView;

    open spec fn view(&self) -> RecordingInfoView {
        RecordingInfoView {
            author_name: self.author_name@,
            description: self.description@,
            uid: self.uid,
            vertical_interrupts: self.vertical_interrupts,
            rerecord_count: self.rerecord_count,
            vis_per_second: self.vis_per_second,
            controller_count: self.controller_count,
            controller_input_samples: self.controller_input_samples,
            controller_flags: self.controller_flags.bits,
            start_type: self.start_type,
        }
    }
}

impl View for Movie {
    type V = MovieView;

    open spec fn view(&self) -> MovieView {
        MovieView {
            metadata: self.metadata,
            game_info: self.game_info@,
            plugin_info: self.plugin_info@,
            recording_info: self.recording_info@,
            inputs: crate::raw::record::sample_words(self.inputs@),
        }
    }
}

/// The flags that a raw movie's extended version defines.
pub open spec fn extended_flags_of(raw: RawMovieView) -> Result<ExtendedFlags, Fault> {
    if raw.extended_version == 0 {
        Ok(ExtendedFlags::ExtendedFlagsV0)
    } else if raw.extended_version == 1 {
        Ok(
            ExtendedFlags::ExtendedFlagsV1 {
                wiivc_emulation_mode: ExtendedFlagsFields::unpack(
                    raw.extended_flags,
                ).wiivc_emulation_mode,
            },
        )
    } else {
        Err(Fault::UnsupportedExtendedVersion(raw.extended_version))
    }
}

/// The data that a raw movie's extended version defines.
pub open spec fn extended_data_of(raw: RawMovieView) -> Result<ExtendedData, Fault> {
    if raw.extended_version == 0 {
        Ok(ExtendedData::ExtendedDataV0)
    } else if raw.extended_version == 1 {
        Ok(
            ExtendedData::ExtendedDataV1 {
                authorship_info: raw.authorship_info,
                bruteforce_data: raw.bruteforce_data,
                rerecord_count_high: raw.rerecord_count_high,
            },
        )
    } else {
        Err(Fault::UnsupportedExtendedVersion(raw.extended_version))
    }
}

/// Version and extension of a raw movie: the version must be 3 and the
/// extended version 0 or 1.
pub open spec fn metadata_of(raw: RawMovieView) -> Result<MupenMetadata, Fault> {
    if raw.version != 3 {
        Err(Fault::UnsupportedVersion(raw.version))
    } else {
        match extended_flags_of(raw) {
            Err(fault) => Err(fault),
            Ok(extended_flags) => match extended_data_of(raw) {
                Err(fault) => Err(fault),
                Ok(extended_data) => Ok(
                    MupenMetadata {
                        version: raw.version,
                        extended_version: raw.extended_version,
                        extended_flags,
                        extended_data,
                    },
                ),
            },
        }
    }
}

/// The text of an ASCII field of a raw movie. A byte of 0x80 or more
/// anywhere in the field makes it invalid, and the fault names the field
/// as binrw displays it; ASCII bytes are then read as any string is.
pub open spec fn ascii_field_of(capacity: usize, bytes: Seq<u8>) -> Result<Seq<char>, Fault> {
    if !all_ascii(bytes) {
        Err(Fault::InvalidAscii(null_string_text(bytes)))
    } else {
        decoded(capacity, true, bytes)
    }
}

/// What reading an ASCII field can give: a byte of 0x80 or more anywhere in
/// it makes the field invalid ASCII; without one the field is text, and
/// only its length can be at fault.
pub proof fn law_ascii_field(capacity: usize, bytes: Seq<u8>)
    ensures
        !all_ascii(bytes) ==> ascii_field_of(capacity, bytes) == Err::<Seq<char>, Fault>(
            Fault::InvalidAscii(null_string_text(bytes)),
        ),
        all_ascii(bytes) && until_nul(bytes).len() < capacity ==> ascii_field_of(capacity, bytes)
            == Ok::<Seq<char>, Fault>(decode_utf8(until_nul(bytes))),
        all_ascii(bytes) && until_nul(bytes).len() >= capacity ==> ascii_field_of(capacity, bytes)
            == Err::<Seq<char>, Fault>(Fault::StringTooLong(decode_utf8(until_nul(bytes)))),
{
    if all_ascii(bytes) {
        lemma_nul_index_bounds(bytes);
        let content = until_nul(bytes);
        assert forall|i: int| 0 <= i < content.len() implies #[trigger] content[i] < 0x80 by {
            assert(content[i] == bytes[i]);
        }
        lemma_ascii_bytes(content);
    }
}

/// What identifies the game of a raw movie.
pub open spec fn game_info_of(raw: RawMovieView) -> Result<GameInfoView, Fault> {
    match ascii_field_of(32, raw.rom_name) {
        Err(fault) => Err(fault),
        Ok(rom_name) => Ok(
            GameInfoView { rom_name, rom_crc32: raw.rom_crc32, rom_country: raw.rom_country },
        ),
    }
}

/// The plugins of a raw movie; the first name that is invalid gives the
/// fault.
pub open spec fn plugin_info_of(raw: RawMovieView) -> Result<PluginInfoView, Fault> {
    match ascii_field_of(64, raw.video_plugin) {
        Err(fault) => Err(fault),
        Ok(video_plugin) => match ascii_field_of(64, raw.sound_plugin) {
            Err(fault) => Err(fault),
            Ok(sound_plugin) => match ascii_field_of(64, raw.input_plugin) {
                Err(fault) => Err(fault),
                Ok(input_plugin) => match ascii_field_of(64, raw.rsp_plugin) {
                    Err(fault) => Err(fault),
                    Ok(rsp_plugin) => Ok(
                        PluginInfoView { video_plugin, sound_plugin, input_plugin, rsp_plugin },
                    ),
                },
            },
        },
    }
}

/// What describes the recording of a raw movie; author and description
/// must be UTF-8.
pub open spec fn recording_info_of(raw: RawMovieView) -> Result<RecordingInfoView, Fault> {
    match decoded(222, false, raw.author_name) {
        Err(fault) => Err(fault),
        Ok(author_name) => match decoded(256, false, raw.description) {
            Err(fault) => Err(fault),
            Ok(description) => Ok(
                RecordingInfoView {
                    author_name,
                    description,
                    uid: raw.uid,
                    vertical_interrupts: raw.vertical_interrupts,
                    rerecord_count: raw.rerecord_count,
                    vis_per_second: raw.vis_per_second,
                    controller_count: raw.controller_count,
                    controller_input_samples: raw.controller_input_samples,
                    controller_flags: raw.controller_flags,
                    start_type: raw.start_type,
                },
            ),
        },
    }
}

/// The movie that a raw movie stands for, or the first fault of its parts
/// in their order: version and extension, game, plugins, recording.
pub open spec fn typed(raw: RawMovieView) -> Result<MovieView, Fault> {
    match metadata_of(raw) {
        Err(fault) => Err(fault),
        Ok(metadata) => match game_info_of(raw) {
            Err(fault) => Err(fault),
            Ok(game_info) => match plugin_info_of(raw) {
                Err(fault) => Err(fault),
                Ok(plugin_info) => match recording_info_of(raw) {
                    Err(fault) => Err(fault),
                    Ok(recording_info) => Ok(
                        MovieView {
                            metadata,
                            game_info,
                            plugin_info,
                            recording_info,
                            inputs: raw.inputs,
                        },
                    ),
                },
            },
        },
    }
}

/// The raw movie that stands for a movie: every field at its place, the
/// fields of the extended format expanded, zeros where the extended version
/// defines nothing, and every reserved span zero.
pub open spec fn untyped(movie: MovieView) -> RawMovieView {
    RawMovieView {
        version: movie.metadata.version,
        uid: movie.recording_info.uid,
        vertical_interrupts: movie.recording_info.vertical_interrupts,
        rerecord_count: movie.recording_info.rerecord_count,
        vis_per_second: movie.recording_info.vis_per_second,
        controller_count: movie.recording_info.controller_count,
        extended_version: movie.metadata.extended_version,
        extended_flags: movie.metadata.extended_flags.raw_bits(),
        controller_input_samples: movie.recording_info.controller_input_samples,
        start_type: movie.recording_info.start_type,
        reserved01: zeros(2),
        controller_flags: movie.recording_info.controller_flags,
        authorship_info: movie.metadata.extended_data.raw_authorship_info(),
        bruteforce_data: movie.metadata.extended_data.raw_bruteforce_data(),
        rerecord_count_high: movie.metadata.extended_data.raw_rerecord_count_high(),
        extended_reserved: zeros(20),
        reserved02: zeros(128),
        rom_name: encode_utf8(movie.game_info.rom_name),
        rom_crc32: movie.game_info.rom_crc32,
        rom_country: movie.game_info.rom_country,
        reserved03: zeros(56),
        video_plugin: encode_utf8(movie.plugin_info.video_plugin),
        sound_plugin: encode_utf8(movie.plugin_info.sound_plugin),
        input_plugin: encode_utf8(movie.plugin_info.input_plugin),
        rsp_plugin: encode_utf8(movie.plugin_info.rsp_plugin),
        author_name: encode_utf8(movie.recording_info.author_name),
        description: encode_utf8(movie.recording_info.description),
        inputs: movie.inputs,
    }
}

impl MovieView {
    /// Whether the movie is one that a raw movie can stand for: the version
    /// is 3, the extended version is 0 or 1 and the fields of the extended
    /// format are those of that version, and every string can be stored in
    /// its field.
    pub open spec fn wf(self) -> bool {
        &&& self.metadata.version == 3
        &&& if self.metadata.extended_version == 0 {
            self.metadata.extended_flags is ExtendedFlagsV0 && self.metadata.extended_data
                is ExtendedDataV0
        } else {
            self.metadata.extended_version == 1 && self.metadata.extended_flags is ExtendedFlagsV1
                && self.metadata.extended_data is ExtendedDataV1
        }
        &&& storable(32, true, self.game_info.rom_name)
        &&& storable(64, true, self.plugin_info.video_plugin)
        &&& storable(64, true, self.plugin_info.sound_plugin)
        &&& storable(64, true, self.plugin_info.input_plugin)
        &&& storable(64, true, self.plugin_info.rsp_plugin)
        &&& storable(222, false, self.recording_info.author_name)
        &&& storable(256, false, self.recording_info.description)
    }
}

/// An ASCII text that can be stored reads back from its bytes.
proof fn lemma_ascii_field_round_trip(capacity: usize, text: Seq<char>)
    requires
        storable(capacity, true, text),
    ensures
        ascii_field_of(capacity, encode_utf8(text)) == Ok::<Seq<char>, Fault>(text),
{
    law_field_round_trip(capacity, true, text);
    lemma_ascii_text(text);
}

/// The text read from an ASCII field has the bytes of the field, where the
/// field holds no zero byte.
proof fn lemma_ascii_field_bytes(capacity: usize, bytes: Seq<u8>)
    requires
        ascii_field_of(capacity, bytes) is Ok,
        !bytes.contains(0u8),
    ensures
        encode_utf8(ascii_field_of(capacity, bytes)->Ok_0) == bytes,
{
    law_decoded_storable(capacity, true, bytes);
    lemma_until_nul_whole(bytes);
}

/// The text read from a UTF-8 field has the bytes of the field, where the
/// field holds no zero byte.
proof fn lemma_utf8_field_bytes(capacity: usize, bytes: Seq<u8>)
    requires
        decoded(capacity, false, bytes) is Ok,
        !bytes.contains(0u8),
    ensures
        encode_utf8(decoded(capacity, false, bytes)->Ok_0) == bytes,
{
    law_decoded_storable(capacity, false, bytes);
    lemma_until_nul_whole(bytes);
}

/// The byte that stands for the flags of a raw movie's extended version is
/// the raw movie's byte, where that byte's reserved bits are zero and its
/// flag is set only under extended version 1.
proof fn lemma_flags_byte(extended_version: u8, bits: u8)
    requires
        extended_version <= 1,
        ExtendedFlagsFields::unpack(bits).reserved == 0,
        extended_version == 1 || !ExtendedFlagsFields::unpack(bits).wiivc_emulation_mode,
    ensures
        extended_version == 0 ==> bits == 0,
        (ExtendedFlagsFields {
            wiivc_emulation_mode: ExtendedFlagsFields::unpack(bits).wiivc_emulation_mode,
            reserved: 0,
        }).pack() == bits,
{
    law_extended_flags_pack_unpack(bits);
    assert((bits & 1 != 1 && bits >> 1 == 0) ==> bits == 0) by (bit_vector);
}

/// Making a raw movie of a movie and a movie of that again gives the movie
/// back: for every movie that meets [`MovieView::wf`].
pub proof fn law_typed_round_trip(movie: MovieView)
    requires
        movie.wf(),
    ensures
        typed(untyped(movie)) == Ok::<MovieView, Fault>(movie),
{
    let raw = untyped(movie);
    lemma_ascii_field_round_trip(32, movie.game_info.rom_name);
    lemma_ascii_field_round_trip(64, movie.plugin_info.video_plugin);
    lemma_ascii_field_round_trip(64, movie.plugin_info.sound_plugin);
    lemma_ascii_field_round_trip(64, movie.plugin_info.input_plugin);
    lemma_ascii_field_round_trip(64, movie.plugin_info.rsp_plugin);
    law_field_round_trip(222, false, movie.recording_info.author_name);
    law_field_round_trip(256, false, movie.recording_info.description);
    match movie.metadata.extended_flags {
        ExtendedFlags::ExtendedFlagsV0 => {},
        ExtendedFlags::ExtendedFlagsV1 { wiivc_emulation_mode } => {
            law_extended_flags_unpack_pack(
                ExtendedFlagsFields { wiivc_emulation_mode, reserved: 0 },
            );
        },
    }
    assert(metadata_of(raw) == Ok::<MupenMetadata, Fault>(movie.metadata));
    assert(game_info_of(raw) == Ok::<GameInfoView, Fault>(movie.game_info));
    assert(plugin_info_of(raw) == Ok::<PluginInfoView, Fault>(movie.plugin_info));
    assert(recording_info_of(raw) == Ok::<RecordingInfoView, Fault>(movie.recording_info));
}

/// Making a movie of a raw movie and a raw movie of that again gives the
/// raw movie back, where the raw movie's reserved spans and reserved flag
/// bits are zero, its extension fields agree with its extended version, and
/// its strings hold no zero byte.
pub proof fn law_untyped_round_trip(raw: RawMovieView)
    requires
        typed(raw) is Ok,
        raw.wf(),
        ExtendedFlagsFields::unpack(raw.extended_flags).reserved == 0,
    ensures
        untyped(typed(raw)->Ok_0) == raw,
{
    let movie = typed(raw)->Ok_0;
    lemma_ascii_field_bytes(32, raw.rom_name);
    lemma_ascii_field_bytes(64, raw.video_plugin);
    lemma_ascii_field_bytes(64, raw.sound_plugin);
    lemma_ascii_field_bytes(64, raw.input_plugin);
    lemma_ascii_field_bytes(64, raw.rsp_plugin);
    lemma_utf8_field_bytes(222, raw.author_name);
    lemma_utf8_field_bytes(256, raw.description);
    lemma_flags_byte(raw.extended_version, raw.extended_flags);
    assert(untyped(movie).extended_flags == raw.extended_flags);
    assert(untyped(movie).authorship_info == raw.authorship_info);
    assert(untyped(movie).bruteforce_data == raw.bruteforce_data);
    assert(untyped(movie).rerecord_count_high == raw.rerecord_count_high);
}

/// A part of a movie that is made from a raw movie.
pub trait MovieDetails: Sized {
    /// Makes the part from the raw movie.
    fn from_raw(raw: &RawMovie) -> Result<Self, MovieError>;
}

impl MovieDetails for ExtendedFlags {
    fn from_raw(raw: &RawMovie) -> (r: Result<Self, MovieError>)
        ensures
            match extended_flags_of(raw@) {
                Ok(flags) => r matches Ok(v) && v == flags,
                Err(fault) => r matches Err(e) && e@ == fault,
            },
    {
        if raw.extended_version == 0 {
            Ok(ExtendedFlags::ExtendedFlagsV0)
        } else if raw.extended_version == 1 {
            Ok(
                ExtendedFlags::ExtendedFlagsV1 {
                    wiivc_emulation_mode: raw.extended_flags.wiivc_emulation_mode(),
                },
            )
        } else {
            Err(
                MovieError::MovieParseError(
                    MovieParseError::UnsupportedExtendedVersion(raw.extended_version),
                ),
            )
        }
    }
}

impl MovieDetails for ExtendedData {
    fn from_raw(raw: &RawMovie) -> (r: Result<Self, MovieError>)
        ensures
            match extended_data_of(raw@) {
                Ok(data) => r matches Ok(v) && v == data,
                Err(fault) => r matches Err(e) && e@ == fault,
            },
    {
        if raw.extended_version == 0 {
            Ok(ExtendedData::ExtendedDataV0)
        } else if raw.extended_version == 1 {
            Ok(
                ExtendedData::ExtendedDataV1 {
                    authorship_info: raw.extended_data.authorship_info,
                    bruteforce_data: raw.extended_data.bruteforce_data,
                    rerecord_count_high: raw.extended_data.rerecord_count_high,
                },
            )
        } else {
            Err(
                MovieError::MovieParseError(
                    MovieParseError::UnsupportedExtendedVersion(raw.extended_version),
                ),
            )
        }
    }
}

impl MovieDetails for MupenMetadata {
    fn from_raw(raw: &RawMovie) -> (r: Result<Self, MovieError>)
        ensures
            match metadata_of(raw@) {
                Ok(metadata) => r matches Ok(v) && v == metadata,
                Err(fault) => r matches Err(e) && e@ == fault,
            },
    {
        if raw.version != 3 {
            return Err(
                MovieError::MovieParseError(MovieParseError::UnsupportedVersion(raw.version)),
            );
        }
        let extended_flags = match ExtendedFlags::from_raw(raw) {
            Ok(flags) => flags,
            Err(e) => {
                return Err(e);
            },
        };
        let extended_data = match ExtendedData::from_raw(raw) {
            Ok(data) => data,
            Err(e) => {
                return Err(e);
            },
        };
        Ok(
            MupenMetadata {
                version: raw.version,
                extended_version: raw.extended_version,
                extended_flags,
                extended_data,
            },
        )
    }
}

/// Reads an ASCII field of a raw movie.
fn ascii_field<const N: usize>(text: &NullString) -> (r: Result<
    EncodedFixedStr<N, Ascii>,
    MovieError,
>)
    ensures
        match ascii_field_of(N, null_string_bytes(*text)) {
            Ok(value) => r matches Ok(v) && v@ == value,
            Err(fault) => r matches Err(e) && e@ == fault,
        },
{
    let bytes = null_string_as_slice(text);
    if !is_ascii_bytes(bytes) {
        let shown = null_string_display(text);
        return Err(MovieError::FixedStrError(EncodedFixedStrError::InvalidAscii(shown)));
    }
    EncodedFixedStr::<N, Ascii>::from_ascii(bytes)
}

/// Reads a UTF-8 field of a raw movie.
fn utf8_field<const N: usize>(text: &NullString) -> (r: Result<
    EncodedFixedStr<N, Utf8>,
    MovieError,
>)
    ensures
        match decoded(N, false, null_string_bytes(*text)) {
            Ok(value) => r matches Ok(v) && v@ == value,
            Err(fault) => r matches Err(e) && e@ == fault,
        },
{
    EncodedFixedStr::<N, Utf8>::from_utf8(null_string_as_slice(text))
}

impl MovieDetails for GameInfo {
    fn from_raw(raw: &RawMovie) -> (r: Result<Self, MovieError>)
        ensures
            match game_info_of(raw@) {
                Ok(info) => r matches Ok(v) && v@ == info,
                Err(fault) => r matches Err(e) && e@ == fault,
            },
    {
        let rom_name = match ascii_field::<32>(&raw.rom_name) {
            Ok(text) => text,
            Err(e) => {
                return Err(e);
            },
        };
        Ok(GameInfo { rom_name, rom_crc32: raw.rom_crc32, rom_country: raw.rom_country })
    }
}

impl MovieDetails for PluginInfo {
    fn from_raw(raw: &RawMovie) -> (r: Result<Self, MovieError>)
        ensures
            match plugin_info_of(raw@) {
                Ok(info) => r matches Ok(v) && v@ == info,
                Err(fault) => r matches Err(e) && e@ == fault,
            },
    {
        let video_plugin = match ascii_field::<64>(&raw.video_plugin) {
            Ok(text) => text,
            Err(e) => {
                return Err(e);
            },
        };
        let sound_plugin = match ascii_field::<64>(&raw.sound_plugin) {
            Ok(text) => text,
            Err(e) => {
                return Err(e);
            },
        };
        let input_plugin = match ascii_field::<64>(&raw.input_plugin) {
            Ok(text) => text,
            Err(e) => {
                return Err(e);
            },
        };
        let rsp_plugin = match ascii_field::<64>(&raw.rsp_plugin) {
            Ok(text) => text,
            Err(e) => {
                return Err(e);
            },
        };
        Ok(PluginInfo { video_plugin, sound_plugin, input_plugin, rsp_plugin })
    }
}

impl MovieDetails for RecordingInfo {
    fn from_raw(raw: &RawMovie) -> (r: Result<Self, MovieError>)
        ensures
            match recording_info_of(raw@) {
                Ok(info) => r matches Ok(v) && v@ == info,
                Err(fault) => r matches Err(e) && e@ == fault,
            },
    {
        let author_name = match utf8_field::<222>(&raw.author_name) {
            Ok(text) => text,
            Err(e) => {
                return Err(e);
            },
        };
        let description = match utf8_field::<256>(&raw.description) {
            Ok(text) => text,
            Err(e) => {
                return Err(e);
            },
        };
        Ok(
            RecordingInfo {
                author_name,
                description,
                uid: raw.uid,
                vertical_interrupts: raw.vertical_interrupts,
                rerecord_count: raw.rerecord_count,
                vis_per_second: raw.vis_per_second,
                controller_count: raw.controller_count,
                controller_input_samples: raw.controller_input_samples,
                controller_flags: raw.controller_flags,
                start_type: raw.start_type,
            },
        )
    }
}

/// A copy of the input samples.
fn copy_inputs(inputs: &Vec<ControllerState>) -> (r: Vec<ControllerState>)
    ensures
        r@ == inputs@,
{
    let mut copy: Vec<ControllerState> = Vec::new();
    let mut i: usize = 0;
    while i < inputs.len()
        invariant
            i <= inputs@.len(),
            copy@ == inputs@.take(i as int),
        decreases inputs@.len() - i,
    {
        copy.push(inputs[i]);
        assert(copy@ =~= inputs@.take(i + 1));
        i += 1;
    }
    assert(inputs@.take(inputs@.len() as int) =~= inputs@);
    copy
}

impl Movie {
    /// Makes a movie from a raw movie: checks version and extended version,
    /// reads every string, and groups the fields.
    pub fn from_raw(raw: RawMovie) -> (r: Result<Self, MovieError>)
        ensures
            match typed(raw@) {
                Ok(movie) => r matches Ok(v) && v@ == movie,
                Err(fault) => r matches Err(e) && e@ == fault,
            },
    {
        let metadata = match MupenMetadata::from_raw(&raw) {
            Ok(part) => part,
            Err(e) => {
                return Err(e);
            },
        };
        let game_info = match GameInfo::from_raw(&raw) {
            Ok(part) => part,
            Err(e) => {
                return Err(e);
            },
        };
        let plugin_info = match PluginInfo::from_raw(&raw) {
            Ok(part) => part,
            Err(e) => {
                return Err(e);
            },
        };
        let recording_info = match RecordingInfo::from_raw(&raw) {
            Ok(part) => part,
            Err(e) => {
                return Err(e);
            },
        };
        Ok(Movie { metadata, game_info, plugin_info, recording_info, inputs: raw.inputs })
    }

    /// The raw movie that stands for this movie, which stays as it is.
    pub fn to_raw(&self) -> (r: RawMovie)
        ensures
            r@ == untyped(self@),
            crate::raw::record::first_overlong(r@) is None,
    {
        let rom_name = self.game_info.rom_name.clone().into_null_string();
        let video_plugin = self.plugin_info.video_plugin.clone().into_null_string();
        let sound_plugin = self.plugin_info.sound_plugin.clone().into_null_string();
        let input_plugin = self.plugin_info.input_plugin.clone().into_null_string();
        let rsp_plugin = self.plugin_info.rsp_plugin.clone().into_null_string();
        let author_name = self.recording_info.author_name.clone().into_null_string();
        let description = self.recording_info.description.clone().into_null_string();
        RawMovie {
            version: self.metadata.version,
            extended_version: self.metadata.extended_version,
            extended_flags: self.metadata.extended_flags.to_raw(),
            extended_data: self.metadata.extended_data.to_raw(),
            rom_name,
            rom_crc32: self.game_info.rom_crc32,
            rom_country: self.game_info.rom_country,
            video_plugin,
            sound_plugin,
            input_plugin,
            rsp_plugin,
            author_name,
            description,
            uid: self.recording_info.uid,
            vertical_interrupts: self.recording_info.vertical_interrupts,
            rerecord_count: self.recording_info.rerecord_count,
            vis_per_second: self.recording_info.vis_per_second,
            controller_count: self.recording_info.controller_count,
            controller_input_samples: self.recording_info.controller_input_samples,
            controller_flags: self.recording_info.controller_flags,
            start_type: self.recording_info.start_type,
            inputs: copy_inputs(&self.inputs),
            reserved01: Reserved::default(),
            reserved02: Reserved::default(),
            reserved03: Reserved::default(),
        }
    }

    /// The raw movie that stands for this movie.
    pub fn into_raw(self) -> (r: RawMovie)
        ensures
            r@ == untyped(self@),
            crate::raw::record::first_overlong(r@) is None,
    {
        self.to_raw()
    }

    /// The input samples frame by frame: consecutive groups of
    /// `controller_count` samples, the last one shorter where the samples do
    /// not come out even.
    pub fn controller_inputs_stream(&self) -> (r: Vec<&[ControllerState]>)
        requires
            self.recording_info.controller_count > 0,
        ensures
            r@.len() == frame_count(
                self.inputs@.len() as int,
                self.recording_info.controller_count as int,
            ),
            forall|i: int|
                0 <= i < r@.len() ==> (#[trigger] r@[i])@ == frame_at(
                    self.inputs@,
                    self.recording_info.controller_count as int,
                    i,
                ),
    {
        frames(self.inputs.as_slice(), self.recording_info.controller_count as usize)
    }

    /// How many frames the movie has: the groups of `controller_count`
    /// samples, a last shorter one counted.
    pub fn frame_count(&self) -> (r: usize)
        requires
            self.recording_info.controller_count > 0,
        ensures
            r == frame_count(
                self.inputs@.len() as int,
                self.recording_info.controller_count as int,
            ),
    {
        frame_total(self.inputs.len(), self.recording_info.controller_count as usize)
    }

    /// The frame at position `index`, borrowed from the movie.
    pub fn frame(&self, index: usize) -> (r: &[ControllerState])
        requires
            self.recording_info.controller_count > 0,
            index < frame_count(
                self.inputs@.len() as int,
                self.recording_info.controller_count as int,
            ),
        ensures
            r@ == frame_at(
                self.inputs@,
                self.recording_info.controller_count as int,
                index as int,
            ),
    {
        frame(self.inputs.as_slice(), self.recording_info.controller_count as usize, index)
    }
}

impl TryFrom<RawMovie> for Movie {
    type Error = MovieError;

    fn try_from(raw: RawMovie) -> (r: Result<Movie, MovieError>)
        ensures
            match typed(raw@) {
                Ok(movie) => r matches Ok(v) && v@ == movie,
                Err(fault) => r matches Err(e) && e@ == fault,
            },
    {
        Movie::from_raw(raw)
    }
}

impl vstd::std_specs::convert::TryFromSpecImpl<RawMovie> for Movie {
    open spec fn obeys_try_from_spec() -> bool {
        false
    }

    open spec fn try_from_spec(raw: RawMovie) -> Result<Movie, MovieError> {
        arbitrary()
    }
}

impl From<Movie> for RawMovie {
    fn from(movie: Movie) -> (r: RawMovie)
        ensures
            r@ == untyped(movie@),
    {
        movie.into_raw()
    }
}

impl vstd::std_specs::convert::FromSpecImpl<Movie> for RawMovie {
    open spec fn obeys_from_spec() -> bool {
        false
    }

    open spec fn from_spec(movie: Movie) -> RawMovie {
        arbitrary()
    }
}

} // verus!
