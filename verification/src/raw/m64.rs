//! The binary layer: the packed words of the format with their named
//! fields, the start type, the data of the extended format, and, from its
//! own file, the raw movie that holds them.

pub use crate::raw::record::{RawMovie, RawMovieView};

use crate::bits::{
    axis_byte, axis_value, bit_of, bits_of, byte_to_i8, count, flag, flag_bit, flip_bit, flipped,
    get_bit, get_bits, i8_to_byte, lemma_byte_bound, lemma_flipped, lemma_signed_byte,
    lemma_with_bit, lemma_with_bit_keeps, lemma_with_bits, lemma_with_bits_keeps,
    lemma_zero_word, low_mask, set_bit, set_bits, with_bit, with_bits,
};
use crate::movie::ControllerButton;
use crate::shared::{null_string_bytes, Reserved};
use binrw::NullString;
use vstd::prelude::*;

verus! {

/// `NullString`'s `Clone`, which binrw derives: the copy holds the same
/// bytes.
pub assume_specification[ <NullString as Clone>::clone ](s: &NullString) -> (r: NullString)
    ensures
        null_string_bytes(r) == null_string_bytes(*s),
;

/// The named fields of an [`ExtendedFlags`] byte, from the lowest bit up.
#[derive(Debug, Copy, Clone, Eq, PartialEq)]
pub struct ExtendedFlagsFields {
    /// Whether the movie was recorded in WiiVC emulation mode.
    pub wiivc_emulation_mode: bool,
    /// The seven reserved bits, as a number below 128.
    pub reserved: u8,
}

impl ExtendedFlagsFields {
    /// The byte that holds these fields.
    pub open spec fn pack(self) -> u8 {
        (if self.wiivc_emulation_mode {
            1u8
        } else {
            0u8
        }) | ((self.reserved & 0x7f) << 1)
    }

    /// The fields that `bits` holds.
    pub open spec fn unpack(bits: u8) -> ExtendedFlagsFields {
        ExtendedFlagsFields { wiivc_emulation_mode: bits & 1 == 1, reserved: bits >> 1 }
    }
}

/// The flags of the extended format: a packed byte.
#[derive(Debug, Copy, Clone, Eq, PartialEq, Structural)]
pub struct ExtendedFlags {
    /// The packed byte.
    pub bits: u8,
}

impl View for ExtendedFlags {
    type V = ExtendedFlagsFields;

    open spec fn view(&self) -> ExtendedFlagsFields {
        ExtendedFlagsFields::unpack(self.bits)
    }
}

impl Default for ExtendedFlags {
    /// The byte with no bit set.
    fn default() -> (r: Self)
        ensures
            r.bits == 0,
            r@ == (ExtendedFlagsFields { wiivc_emulation_mode: false, reserved: 0 }),
    {
        proof {
            assert(0u8 & 1 != 1 && 0u8 >> 1 == 0) by (bit_vector);
        }
        ExtendedFlags { bits: 0 }
    }
}

impl ExtendedFlags {
    /// The flags that a byte holds.
    pub fn from_bits(bits: u8) -> (r: Self)
        ensures
            r.bits == bits,
    {
        ExtendedFlags { bits }
    }

    /// The byte that holds the flags.
    pub fn into_bits(self) -> (r: u8)
        ensures
            r == self.bits,
    {
        self.bits
    }

    /// The flags with the given fields.
    pub fn from_fields(fields: ExtendedFlagsFields) -> (r: Self)
        ensures
            r.bits == fields.pack(),
    {
        let low: u8 = if fields.wiivc_emulation_mode {
            1
        } else {
            0
        };
        ExtendedFlags { bits: low | ((fields.reserved & 0x7f) << 1) }
    }

    /// The fields of the flags.
    pub fn fields(&self) -> (r: ExtendedFlagsFields)
        ensures
            r == self@,
    {
        ExtendedFlagsFields { wiivc_emulation_mode: self.bits & 1 == 1, reserved: self.bits >> 1 }
    }

    /// Whether the movie was recorded in WiiVC emulation mode.
    pub fn wiivc_emulation_mode(&self) -> (r: bool)
        ensures
            r == self@.wiivc_emulation_mode,
    {
        self.bits & 1 == 1
    }

    /// Records whether the movie was recorded in WiiVC emulation mode; the
    /// reserved bits stay.
    pub fn set_wiivc_emulation_mode(&mut self, value: bool)
        ensures
            final(self)@ == (ExtendedFlagsFields { wiivc_emulation_mode: value, ..old(self)@ }),
    {
        let bits = self.bits;
        proof {
            assert((bits | 1) & 1 == 1 && (bits | 1) >> 1 == bits >> 1) by (bit_vector);
            assert((bits & 0xfe) & 1 != 1 && (bits & 0xfe) >> 1 == bits >> 1) by (bit_vector);
        }
        if value {
            self.bits = bits | 1;
        } else {
            self.bits = bits & 0xfe;
        }
    }
}

/// An extended flags byte is its named fields and nothing more: packing
/// the fields of a byte gives the byte.
pub proof fn law_extended_flags_pack_unpack(bits: u8)
    ensures
        ExtendedFlagsFields::unpack(bits).pack() == bits,
{
    assert((if bits & 1 == 1 {
        1u8
    } else {
        0u8
    }) | (((bits >> 1) & 0x7f) << 1) == bits) by (bit_vector);
}

/// Unpacking packed extended flags gives the fields back, as long as the
/// reserved field fits its seven bits.
pub proof fn law_extended_flags_unpack_pack(fields: ExtendedFlagsFields)
    requires
        fields.reserved < 128,
    ensures
        ExtendedFlagsFields::unpack(fields.pack()) == fields,
{
    let reserved = fields.reserved;
    assert(((1u8 | ((reserved & 0x7f) << 1)) & 1 == 1) && (1u8 | ((reserved & 0x7f) << 1)) >> 1
        == reserved) by (bit_vector)
        requires
            reserved < 128,
    ;
    assert(((0u8 | ((reserved & 0x7f) << 1)) & 1 != 1) && (0u8 | ((reserved & 0x7f) << 1)) >> 1
        == reserved) by (bit_vector)
        requires
            reserved < 128,
    ;
}

/// How a movie begins.
#[derive(Debug, Copy, Clone, Eq, PartialEq, Structural)]
pub enum MovieStartType {
    /// From a saved state of the emulator.
    Snapshot,
    /// From power on.
    PowerOn,
    /// From the contents of the cartridge's EEPROM.
    EEPROM,
}

impl MovieStartType {
    /// The number that stands for the start type in the file.
    pub open spec fn spec_code(self) -> u16 {
        match self {
            MovieStartType::Snapshot => 1,
            MovieStartType::PowerOn => 2,
            MovieStartType::EEPROM => 4,
        }
    }

    /// The start type that `code` stands for, if any.
    pub open spec fn spec_from_code(code: u16) -> Option<MovieStartType> {
        if code == 1 {
            Some(MovieStartType::Snapshot)
        } else if code == 2 {
            Some(MovieStartType::PowerOn)
        } else if code == 4 {
            Some(MovieStartType::EEPROM)
        } else {
            None
        }
    }

    /// The number that stands for the start type in the file.
    #[verifier::when_used_as_spec(spec_code)]
    pub fn code(self) -> (r: u16)
        ensures
            r == self.spec_code(),
    {
        match self {
            MovieStartType::Snapshot => 1,
            MovieStartType::PowerOn => 2,
            MovieStartType::EEPROM => 4,
        }
    }

    /// The start type that `code` stands for, if any.
    #[verifier::when_used_as_spec(spec_from_code)]
    pub fn from_code(code: u16) -> (r: Option<MovieStartType>)
        ensures
            r == Self::spec_from_code(code),
    {
        if code == 1 {
            Some(MovieStartType::Snapshot)
        } else if code == 2 {
            Some(MovieStartType::PowerOn)
        } else if code == 4 {
            Some(MovieStartType::EEPROM)
        } else {
            None
        }
    }
}

/// The data of the extended format, as it stands in the header.
#[derive(Debug, Copy, Clone, Eq, PartialEq)]
pub struct ExtendedData {
    /// Special authorship information.
    pub authorship_info: u32,
    /// Data regarding bruteforcing.
    pub bruteforce_data: u32,
    /// The high word of the rerecord count.
    pub rerecord_count_high: u32,
    /// Twenty reserved bytes.
    pub reserved: Reserved<20>,
}

impl Default for ExtendedData {
    /// Every field zero.
    fn default() -> (r: Self)
        ensures
            r.authorship_info == 0,
            r.bruteforce_data == 0,
            r.rerecord_count_high == 0,
            r.reserved@ == crate::shared::zeros(20),
    {
        ExtendedData {
            authorship_info: 0,
            bruteforce_data: 0,
            rerecord_count_high: 0,
            reserved: Reserved::default(),
        }
    }
}

/// Writing one of the sixteen buttons changes that button and nothing else.
proof fn lemma_button_written(bits: u32, index: u32, value: bool)
    requires
        index < 16,
    ensures
        bit_of(with_bit(bits, index, value), index) == value,
        forall|j: u32| j != index
            ==> #[trigger] bit_of(with_bit(bits, index, value), j) == bit_of(bits, j),
        bits_of(with_bit(bits, index, value), 16, 8) == bits_of(bits, 16, 8),
        bits_of(with_bit(bits, index, value), 24, 8) == bits_of(bits, 24, 8),
{
    lemma_with_bit(bits, index, value);
    lemma_with_bit_keeps(bits, index, value, 16, 8);
    lemma_with_bit_keeps(bits, index, value, 24, 8);
}

/// Writing one axis changes that axis and nothing else.
proof fn lemma_axis_written(bits: u32, at: u32, byte: u8)
    requires
        at == 16 || at == 24,
    ensures
        bits_of(with_bits(bits, at, 8, byte as u32), at, 8) == byte,
        forall|j: u32| j < 16
            ==> #[trigger] bit_of(with_bits(bits, at, 8, byte as u32), j) == bit_of(bits, j),
        bits_of(with_bits(bits, at, 8, byte as u32), (40 - at) as u32, 8) == bits_of(
            bits,
            (40 - at) as u32,
            8,
        ),
{
    lemma_with_bits(bits, at, 8, byte as u32);
    lemma_with_bits_keeps(bits, at, 8, byte as u32, (40 - at) as u32, 8);
    let wide = byte as u32;
    assert(wide & low_mask(8) == wide) by (bit_vector)
        requires
            wide < 256,
    ;
}

/// Two buttons with the same bit are the same button.
proof fn lemma_button_of_bit(a: ControllerButton, b: ControllerButton)
    requires
        a.spec_bit() == b.spec_bit(),
    ensures
        a == b,
{
}

/// The named fields of a [`ControllerFlags`] word, from the lowest bit up:
/// four presence bits, four memory pak bits, four rumble pak bits, and
/// twenty reserved bits.
#[derive(Debug, Copy, Clone, Eq, PartialEq)]
pub struct ControllerFlagsFields {
    /// Whether controller 1 is plugged in.
    pub controller_01_present: bool,
    /// Whether controller 2 is plugged in.
    pub controller_02_present: bool,
    /// Whether controller 3 is plugged in.
    pub controller_03_present: bool,
    /// Whether controller 4 is plugged in.
    pub controller_04_present: bool,
    /// Whether controller 1 has a memory pak.
    pub controller_01_has_mempak: bool,
    /// Whether controller 2 has a memory pak.
    pub controller_02_has_mempak: bool,
    /// Whether controller 3 has a memory pak.
    pub controller_03_has_mempak: bool,
    /// Whether controller 4 has a memory pak.
    pub controller_04_has_mempak: bool,
    /// Whether controller 1 has a rumble pak.
    pub controller_01_has_rumblepak: bool,
    /// Whether controller 2 has a rumble pak.
    pub controller_02_has_rumblepak: bool,
    /// Whether controller 3 has a rumble pak.
    pub controller_03_has_rumblepak: bool,
    /// Whether controller 4 has a rumble pak.
    pub controller_04_has_rumblepak: bool,
    /// The twenty reserved bits, as a number below 2^20.
    pub reserved: u32,
}

/// The word with the twelve flag bits and the reserved bits in their places.
pub open spec fn packed_flags(
    b0: bool,
    b1: bool,
    b2: bool,
    b3: bool,
    b4: bool,
    b5: bool,
    b6: bool,
    b7: bool,
    b8: bool,
    b9: bool,
    b10: bool,
    b11: bool,
    reserved: u32,
) -> u32 {
    flag(b0, 0)
        | flag(b1, 1)
        | flag(b2, 2)
        | flag(b3, 3)
        | flag(b4, 4)
        | flag(b5, 5)
        | flag(b6, 6)
        | flag(b7, 7)
        | flag(b8, 8)
        | flag(b9, 9)
        | flag(b10, 10)
        | flag(b11, 11)
        | ((reserved & low_mask(20)) << 12)
}

/// Packs twelve flag bits and the reserved bits.
fn pack_flags(
    b0: bool,
    b1: bool,
    b2: bool,
    b3: bool,
    b4: bool,
    b5: bool,
    b6: bool,
    b7: bool,
    b8: bool,
    b9: bool,
    b10: bool,
    b11: bool,
    reserved: u32,
) -> (r: u32)
    ensures
        r == packed_flags(b0, b1, b2, b3, b4, b5, b6, b7, b8, b9, b10, b11, reserved),
{
    proof {
        reveal(low_mask);
    }
    flag_bit(b0, 0)
        | flag_bit(b1, 1)
        | flag_bit(b2, 2)
        | flag_bit(b3, 3)
        | flag_bit(b4, 4)
        | flag_bit(b5, 5)
        | flag_bit(b6, 6)
        | flag_bit(b7, 7)
        | flag_bit(b8, 8)
        | flag_bit(b9, 9)
        | flag_bit(b10, 10)
        | flag_bit(b11, 11)
        | ((reserved & !(0xffff_ffffu32 << 20)) << 12)
}

impl ControllerFlagsFields {
    /// The word that holds these fields.
    pub open spec fn pack(self) -> u32 {
        packed_flags(
            self.controller_01_present,
            self.controller_02_present,
            self.controller_03_present,
            self.controller_04_present,
            self.controller_01_has_mempak,
            self.controller_02_has_mempak,
            self.controller_03_has_mempak,
            self.controller_04_has_mempak,
            self.controller_01_has_rumblepak,
            self.controller_02_has_rumblepak,
            self.controller_03_has_rumblepak,
            self.controller_04_has_rumblepak,
            self.reserved,
        )
    }

    /// The fields that `bits` holds.
    pub open spec fn unpack(bits: u32) -> ControllerFlagsFields {
        ControllerFlagsFields {
            controller_01_present: bit_of(bits, 0),
            controller_02_present: bit_of(bits, 1),
            controller_03_present: bit_of(bits, 2),
            controller_04_present: bit_of(bits, 3),
            controller_01_has_mempak: bit_of(bits, 4),
            controller_02_has_mempak: bit_of(bits, 5),
            controller_03_has_mempak: bit_of(bits, 6),
            controller_04_has_mempak: bit_of(bits, 7),
            controller_01_has_rumblepak: bit_of(bits, 8),
            controller_02_has_rumblepak: bit_of(bits, 9),
            controller_03_has_rumblepak: bit_of(bits, 10),
            controller_04_has_rumblepak: bit_of(bits, 11),
            reserved: bits_of(bits, 12, 20),
        }
    }
}

/// Which controllers are plugged in, and with which paks: a packed word of
/// 32 bits.
#[derive(Debug, Copy, Clone, Eq, PartialEq, Structural)]
pub struct ControllerFlags {
    /// The packed word.
    pub bits: u32,
}

impl View for ControllerFlags {
    type V = ControllerFlagsFields;

    open spec fn view(&self) -> ControllerFlagsFields {
        ControllerFlagsFields::unpack(self.bits)
    }
}

impl Default for ControllerFlags {
    /// The word with no bit set: no controller, no pak.
    fn default() -> (r: Self)
        ensures
            r.bits == 0,
            r@ == (ControllerFlagsFields {
                controller_01_present: false,
                controller_02_present: false,
                controller_03_present: false,
                controller_04_present: false,
                controller_01_has_mempak: false,
                controller_02_has_mempak: false,
                controller_03_has_mempak: false,
                controller_04_has_mempak: false,
                controller_01_has_rumblepak: false,
                controller_02_has_rumblepak: false,
                controller_03_has_rumblepak: false,
                controller_04_has_rumblepak: false,
                reserved: 0,
            }),
    {
        proof {
            lemma_zero_word();
        }
        ControllerFlags { bits: 0 }
    }
}

/// Writing one of the twelve flags changes that flag and nothing else.
proof fn lemma_flag_written(bits: u32, index: u32, value: bool)
    requires
        index < 12,
    ensures
        bit_of(with_bit(bits, index, value), index) == value,
        forall|j: u32|
            j != index ==> #[trigger] bit_of(with_bit(bits, index, value), j) == bit_of(bits, j),
        bits_of(with_bit(bits, index, value), 12, 20) == bits_of(bits, 12, 20),
{
    lemma_with_bit(bits, index, value);
    lemma_with_bit_keeps(bits, index, value, 12, 20);
}

impl ControllerFlags {
    /// The flags that a word holds.
    pub fn from_bits(bits: u32) -> (r: Self)
        ensures
            r.bits == bits,
    {
        ControllerFlags { bits }
    }

    /// The word that holds the flags.
    pub fn into_bits(self) -> (r: u32)
        ensures
            r == self.bits,
    {
        self.bits
    }

    /// The flags with the given fields.
    pub fn from_fields(fields: ControllerFlagsFields) -> (r: Self)
        ensures
            r.bits == fields.pack(),
    {
        let bits = pack_flags(
            fields.controller_01_present,
            fields.controller_02_present,
            fields.controller_03_present,
            fields.controller_04_present,
            fields.controller_01_has_mempak,
            fields.controller_02_has_mempak,
            fields.controller_03_has_mempak,
            fields.controller_04_has_mempak,
            fields.controller_01_has_rumblepak,
            fields.controller_02_has_rumblepak,
            fields.controller_03_has_rumblepak,
            fields.controller_04_has_rumblepak,
            fields.reserved,
        );
        ControllerFlags { bits }
    }

    /// The fields of the flags.
    pub fn fields(&self) -> (r: ControllerFlagsFields)
        ensures
            r == self@,
    {
        ControllerFlagsFields {
            controller_01_present: get_bit(self.bits, 0),
            controller_02_present: get_bit(self.bits, 1),
            controller_03_present: get_bit(self.bits, 2),
            controller_04_present: get_bit(self.bits, 3),
            controller_01_has_mempak: get_bit(self.bits, 4),
            controller_02_has_mempak: get_bit(self.bits, 5),
            controller_03_has_mempak: get_bit(self.bits, 6),
            controller_04_has_mempak: get_bit(self.bits, 7),
            controller_01_has_rumblepak: get_bit(self.bits, 8),
            controller_02_has_rumblepak: get_bit(self.bits, 9),
            controller_03_has_rumblepak: get_bit(self.bits, 10),
            controller_04_has_rumblepak: get_bit(self.bits, 11),
            reserved: get_bits(self.bits, 12, 20),
        }
    }

    /// How many of the four controllers are plugged in.
    pub fn num_controllers_present(&self) -> (r: u8)
        ensures
            r == count(self@.controller_01_present) + count(self@.controller_02_present) + count(
                self@.controller_03_present,
            ) + count(self@.controller_04_present),
    {
        let mut n: u8 = 0;
        if self.controller_01_present() {
            n += 1;
        }
        if self.controller_02_present() {
            n += 1;
        }
        if self.controller_03_present() {
            n += 1;
        }
        if self.controller_04_present() {
            n += 1;
        }
        n
    }

    /// Whether controller 1 is plugged in.
    pub fn controller_01_present(&self) -> (r: bool)
        ensures
            r == self@.controller_01_present,
    {
        get_bit(self.bits, 0)
    }

    /// Records whether controller 1 is plugged in; every other field stays.
    pub fn set_controller_01_present(&mut self, value: bool)
        ensures
            final(self)@ == (ControllerFlagsFields { controller_01_present: value, ..old(self)@ }),
            final(self).bits == with_bit(old(self).bits, 0, value),
    {
        proof {
            lemma_flag_written(self.bits, 0, value);
        }
        self.bits = set_bit(self.bits, 0, value);
    }

    /// Whether controller 2 is plugged in.
    pub fn controller_02_present(&self) -> (r: bool)
        ensures
            r == self@.controller_02_present,
    {
        get_bit(self.bits, 1)
    }

    /// Records whether controller 2 is plugged in; every other field stays.
    pub fn set_controller_02_present(&mut self, value: bool)
        ensures
            final(self)@ == (ControllerFlagsFields { controller_02_present: value, ..old(self)@ }),
            final(self).bits == with_bit(old(self).bits, 1, value),
    {
        proof {
            lemma_flag_written(self.bits, 1, value);
        }
        self.bits = set_bit(self.bits, 1, value);
    }

    /// Whether controller 3 is plugged in.
    pub fn controller_03_present(&self) -> (r: bool)
        ensures
            r == self@.controller_03_present,
    {
        get_bit(self.bits, 2)
    }

    /// Records whether controller 3 is plugged in; every other field stays.
    pub fn set_controller_03_present(&mut self, value: bool)
        ensures
            final(self)@ == (ControllerFlagsFields { controller_03_present: value, ..old(self)@ }),
            final(self).bits == with_bit(old(self).bits, 2, value),
    {
        proof {
            lemma_flag_written(self.bits, 2, value);
        }
        self.bits = set_bit(self.bits, 2, value);
    }

    /// Whether controller 4 is plugged in.
    pub fn controller_04_present(&self) -> (r: bool)
        ensures
            r == self@.controller_04_present,
    {
        get_bit(self.bits, 3)
    }

    /// Records whether controller 4 is plugged in; every other field stays.
    pub fn set_controller_04_present(&mut self, value: bool)
        ensures
            final(self)@ == (ControllerFlagsFields { controller_04_present: value, ..old(self)@ }),
            final(self).bits == with_bit(old(self).bits, 3, value),
    {
        proof {
            lemma_flag_written(self.bits, 3, value);
        }
        self.bits = set_bit(self.bits, 3, value);
    }

    /// Whether controller 1 has a memory pak.
    pub fn controller_01_has_mempak(&self) -> (r: bool)
        ensures
            r == self@.controller_01_has_mempak,
    {
        get_bit(self.bits, 4)
    }

    /// Records whether controller 1 has a memory pak; every other field stays.
    pub fn set_controller_01_has_mempak(&mut self, value: bool)
        ensures
            final(self)@ == (ControllerFlagsFields {
                controller_01_has_mempak: value,
                ..old(self)@
            }),
            final(self).bits == with_bit(old(self).bits, 4, value),
    {
        proof {
            lemma_flag_written(self.bits, 4, value);
        }
        self.bits = set_bit(self.bits, 4, value);
    }

    /// Whether controller 2 has a memory pak.
    pub fn controller_02_has_mempak(&self) -> (r: bool)
        ensures
            r == self@.controller_02_has_mempak,
    {
        get_bit(self.bits, 5)
    }

    /// Records whether controller 2 has a memory pak; every other field stays.
    pub fn set_controller_02_has_mempak(&mut self, value: bool)
        ensures
            final(self)@ == (ControllerFlagsFields {
                controller_02_has_mempak: value,
                ..old(self)@
            }),
            final(self).bits == with_bit(old(self).bits, 5, value),
    {
        proof {
            lemma_flag_written(self.bits, 5, value);
        }
        self.bits = set_bit(self.bits, 5, value);
    }

    /// Whether controller 3 has a memory pak.
    pub fn controller_03_has_mempak(&self) -> (r: bool)
        ensures
            r == self@.controller_03_has_mempak,
    {
        get_bit(self.bits, 6)
    }

    /// Records whether controller 3 has a memory pak; every other field stays.
    pub fn set_controller_03_has_mempak(&mut self, value: bool)
        ensures
            final(self)@ == (ControllerFlagsFields {
                controller_03_has_mempak: value,
                ..old(self)@
            }),
            final(self).bits == with_bit(old(self).bits, 6, value),
    {
        proof {
            lemma_flag_written(self.bits, 6, value);
        }
        self.bits = set_bit(self.bits, 6, value);
    }

    /// Whether controller 4 has a memory pak.
    pub fn controller_04_has_mempak(&self) -> (r: bool)
        ensures
            r == self@.controller_04_has_mempak,
    {
        get_bit(self.bits, 7)
    }

    /// Records whether controller 4 has a memory pak; every other field stays.
    pub fn set_controller_04_has_mempak(&mut self, value: bool)
        ensures
            final(self)@ == (ControllerFlagsFields {
                controller_04_has_mempak: value,
                ..old(self)@
            }),
            final(self).bits == with_bit(old(self).bits, 7, value),
    {
        proof {
            lemma_flag_written(self.bits, 7, value);
        }
        self.bits = set_bit(self.bits, 7, value);
    }

    /// Whether controller 1 has a rumble pak.
    pub fn controller_01_has_rumblepak(&self) -> (r: bool)
        ensures
            r == self@.controller_01_has_rumblepak,
    {
        get_bit(self.bits, 8)
    }

    /// Records whether controller 1 has a rumble pak; every other field stays.
    pub fn set_controller_01_has_rumblepak(&mut self, value: bool)
        ensures
            final(self)@ == (ControllerFlagsFields {
                controller_01_has_rumblepak: value,
                ..old(self)@
            }),
            final(self).bits == with_bit(old(self).bits, 8, value),
    {
        proof {
            lemma_flag_written(self.bits, 8, value);
        }
        self.bits = set_bit(self.bits, 8, value);
    }

    /// Whether controller 2 has a rumble pak.
    pub fn controller_02_has_rumblepak(&self) -> (r: bool)
        ensures
            r == self@.controller_02_has_rumblepak,
    {
        get_bit(self.bits, 9)
    }

    /// Records whether controller 2 has a rumble pak; every other field stays.
    pub fn set_controller_02_has_rumblepak(&mut self, value: bool)
        ensures
            final(self)@ == (ControllerFlagsFields {
                controller_02_has_rumblepak: value,
                ..old(self)@
            }),
            final(self).bits == with_bit(old(self).bits, 9, value),
    {
        proof {
            lemma_flag_written(self.bits, 9, value);
        }
        self.bits = set_bit(self.bits, 9, value);
    }

    /// Whether controller 3 has a rumble pak.
    pub fn controller_03_has_rumblepak(&self) -> (r: bool)
        ensures
            r == self@.controller_03_has_rumblepak,
    {
        get_bit(self.bits, 10)
    }

    /// Records whether controller 3 has a rumble pak; every other field stays.
    pub fn set_controller_03_has_rumblepak(&mut self, value: bool)
        ensures
            final(self)@ == (ControllerFlagsFields {
                controller_03_has_rumblepak: value,
                ..old(self)@
            }),
            final(self).bits == with_bit(old(self).bits, 10, value),
    {
        proof {
            lemma_flag_written(self.bits, 10, value);
        }
        self.bits = set_bit(self.bits, 10, value);
    }

    /// Whether controller 4 has a rumble pak.
    pub fn controller_04_has_rumblepak(&self) -> (r: bool)
        ensures
            r == self@.controller_04_has_rumblepak,
    {
        get_bit(self.bits, 11)
    }

    /// Records whether controller 4 has a rumble pak; every other field stays.
    pub fn set_controller_04_has_rumblepak(&mut self, value: bool)
        ensures
            final(self)@ == (ControllerFlagsFields {
                controller_04_has_rumblepak: value,
                ..old(self)@
            }),
            final(self).bits == with_bit(old(self).bits, 11, value),
    {
        proof {
            lemma_flag_written(self.bits, 11, value);
        }
        self.bits = set_bit(self.bits, 11, value);
    }

}

/// The named fields of a [`ControllerState`] word, from the lowest bit up:
/// sixteen buttons, then the two axes of the stick, eight bits each.
#[derive(Debug, Copy, Clone, Eq, PartialEq)]
pub struct ControllerStateFields {
    /// Whether the right directional pad button is pressed.
    pub dpad_right: bool,
    /// Whether the left directional pad button is pressed.
    pub dpad_left: bool,
    /// Whether the down directional pad button is pressed.
    pub dpad_down: bool,
    /// Whether the up directional pad button is pressed.
    pub dpad_up: bool,
    /// Whether the start button is pressed.
    pub start_btn: bool,
    /// Whether the Z button is pressed.
    pub z_btn: bool,
    /// Whether the B button is pressed.
    pub b_btn: bool,
    /// Whether the A button is pressed.
    pub a_btn: bool,
    /// Whether the C-right button is pressed.
    pub c_right: bool,
    /// Whether the C-left button is pressed.
    pub c_left: bool,
    /// Whether the C-down button is pressed.
    pub c_down: bool,
    /// Whether the C-up button is pressed.
    pub c_up: bool,
    /// Whether the right trigger is pressed.
    pub trigger_right: bool,
    /// Whether the left trigger is pressed.
    pub trigger_left: bool,
    /// Whether the first reserved button bit is pressed.
    pub reserved01: bool,
    /// Whether the second reserved button bit is pressed.
    pub reserved02: bool,
    /// The position of the stick along the x axis.
    pub x_axis: i8,
    /// The position of the stick along the y axis.
    pub y_axis: i8,
}

/// The word with the sixteen button bits and the two axis bytes in their
/// places.
pub open spec fn packed_state(
    b0: bool,
    b1: bool,
    b2: bool,
    b3: bool,
    b4: bool,
    b5: bool,
    b6: bool,
    b7: bool,
    b8: bool,
    b9: bool,
    b10: bool,
    b11: bool,
    b12: bool,
    b13: bool,
    b14: bool,
    b15: bool,
    x: u8,
    y: u8,
) -> u32 {
    flag(b0, 0)
        | flag(b1, 1)
        | flag(b2, 2)
        | flag(b3, 3)
        | flag(b4, 4)
        | flag(b5, 5)
        | flag(b6, 6)
        | flag(b7, 7)
        | flag(b8, 8)
        | flag(b9, 9)
        | flag(b10, 10)
        | flag(b11, 11)
        | flag(b12, 12)
        | flag(b13, 13)
        | flag(b14, 14)
        | flag(b15, 15)
        | ((x as u32) << 16)
        | ((y as u32) << 24)
}

/// Packs sixteen button bits and two axis bytes.
fn pack_state(
    b0: bool,
    b1: bool,
    b2: bool,
    b3: bool,
    b4: bool,
    b5: bool,
    b6: bool,
    b7: bool,
    b8: bool,
    b9: bool,
    b10: bool,
    b11: bool,
    b12: bool,
    b13: bool,
    b14: bool,
    b15: bool,
    x: u8,
    y: u8,
) -> (r: u32)
    ensures
        r == packed_state(
            b0, b1, b2, b3, b4, b5, b6, b7,
            b8, b9, b10, b11, b12, b13, b14, b15,
            x, y,
        ),
{
    flag_bit(b0, 0)
        | flag_bit(b1, 1)
        | flag_bit(b2, 2)
        | flag_bit(b3, 3)
        | flag_bit(b4, 4)
        | flag_bit(b5, 5)
        | flag_bit(b6, 6)
        | flag_bit(b7, 7)
        | flag_bit(b8, 8)
        | flag_bit(b9, 9)
        | flag_bit(b10, 10)
        | flag_bit(b11, 11)
        | flag_bit(b12, 12)
        | flag_bit(b13, 13)
        | flag_bit(b14, 14)
        | flag_bit(b15, 15)
        | ((x as u32) << 16)
        | ((y as u32) << 24)
}

impl ControllerStateFields {
    /// The word that holds these fields.
    pub open spec fn pack(self) -> u32 {
        packed_state(
            self.dpad_right,
            self.dpad_left,
            self.dpad_down,
            self.dpad_up,
            self.start_btn,
            self.z_btn,
            self.b_btn,
            self.a_btn,
            self.c_right,
            self.c_left,
            self.c_down,
            self.c_up,
            self.trigger_right,
            self.trigger_left,
            self.reserved01,
            self.reserved02,
            i8_to_byte(self.x_axis),
            i8_to_byte(self.y_axis),
        )
    }

    /// The fields that `bits` holds.
    pub open spec fn unpack(bits: u32) -> ControllerStateFields {
        ControllerStateFields {
            dpad_right: bit_of(bits, 0),
            dpad_left: bit_of(bits, 1),
            dpad_down: bit_of(bits, 2),
            dpad_up: bit_of(bits, 3),
            start_btn: bit_of(bits, 4),
            z_btn: bit_of(bits, 5),
            b_btn: bit_of(bits, 6),
            a_btn: bit_of(bits, 7),
            c_right: bit_of(bits, 8),
            c_left: bit_of(bits, 9),
            c_down: bit_of(bits, 10),
            c_up: bit_of(bits, 11),
            trigger_right: bit_of(bits, 12),
            trigger_left: bit_of(bits, 13),
            reserved01: bit_of(bits, 14),
            reserved02: bit_of(bits, 15),
            x_axis: byte_to_i8(bits_of(bits, 16, 8) as u8),
            y_axis: byte_to_i8(bits_of(bits, 24, 8) as u8),
        }
    }
}

/// One sample of a controller: sixteen buttons and the stick, packed into a
/// word of 32 bits.
#[derive(Debug, Copy, Clone, Eq, PartialEq, Structural)]
pub struct ControllerState {
    /// The packed word.
    pub bits: u32,
}

impl View for ControllerState {
    type V = ControllerStateFields;

    open spec fn view(&self) -> ControllerStateFields {
        ControllerStateFields::unpack(self.bits)
    }
}

impl Default for ControllerState {
    /// No button pressed, the stick centred.
    fn default() -> (r: Self)
        ensures
            r.bits == 0,
            r@ == (ControllerStateFields {
                dpad_right: false,
                dpad_left: false,
                dpad_down: false,
                dpad_up: false,
                start_btn: false,
                z_btn: false,
                b_btn: false,
                a_btn: false,
                c_right: false,
                c_left: false,
                c_down: false,
                c_up: false,
                trigger_right: false,
                trigger_left: false,
                reserved01: false,
                reserved02: false,
                x_axis: 0,
                y_axis: 0,
            }),
    {
        proof {
            lemma_zero_word();
        }
        ControllerState { bits: 0 }
    }
}

impl ControllerState {
    /// The sample that a word holds.
    pub fn from_bits(bits: u32) -> (r: Self)
        ensures
            r.bits == bits,
    {
        ControllerState { bits }
    }

    /// The word that holds the sample.
    pub fn into_bits(self) -> (r: u32)
        ensures
            r == self.bits,
    {
        self.bits
    }

    /// The sample with the given fields.
    pub fn from_fields(fields: ControllerStateFields) -> (r: Self)
        ensures
            r.bits == fields.pack(),
    {
        let bits = pack_state(
            fields.dpad_right,
            fields.dpad_left,
            fields.dpad_down,
            fields.dpad_up,
            fields.start_btn,
            fields.z_btn,
            fields.b_btn,
            fields.a_btn,
            fields.c_right,
            fields.c_left,
            fields.c_down,
            fields.c_up,
            fields.trigger_right,
            fields.trigger_left,
            fields.reserved01,
            fields.reserved02,
            axis_byte(fields.x_axis),
            axis_byte(fields.y_axis),
        );
        ControllerState { bits }
    }

    /// The fields of the sample.
    pub fn fields(&self) -> (r: ControllerStateFields)
        ensures
            r == self@,
    {
        ControllerStateFields {
            dpad_right: get_bit(self.bits, 0),
            dpad_left: get_bit(self.bits, 1),
            dpad_down: get_bit(self.bits, 2),
            dpad_up: get_bit(self.bits, 3),
            start_btn: get_bit(self.bits, 4),
            z_btn: get_bit(self.bits, 5),
            b_btn: get_bit(self.bits, 6),
            a_btn: get_bit(self.bits, 7),
            c_right: get_bit(self.bits, 8),
            c_left: get_bit(self.bits, 9),
            c_down: get_bit(self.bits, 10),
            c_up: get_bit(self.bits, 11),
            trigger_right: get_bit(self.bits, 12),
            trigger_left: get_bit(self.bits, 13),
            reserved01: get_bit(self.bits, 14),
            reserved02: get_bit(self.bits, 15),
            x_axis: self.x_axis(),
            y_axis: self.y_axis(),
        }
    }

    /// Whether `button` is pressed.
    pub fn is_set(&self, button: ControllerButton) -> (r: bool)
        ensures
            r == bit_of(self.bits, button.spec_bit()),
    {
        get_bit(self.bits, button.bit())
    }

    /// Presses or releases `button`; every other bit of the sample stays.
    pub fn put(&mut self, button: ControllerButton, value: bool)
        ensures
            final(self).bits == with_bit(old(self).bits, button.spec_bit(), value),
    {
        self.bits = set_bit(self.bits, button.bit(), value);
    }

    /// Presses `button`; every other bit of the sample stays.
    pub fn set(&mut self, button: ControllerButton)
        ensures
            final(self).bits == with_bit(old(self).bits, button.spec_bit(), true),
    {
        self.put(button, true);
    }

    /// Releases `button`; every other bit of the sample stays.
    pub fn unset(&mut self, button: ControllerButton)
        ensures
            final(self).bits == with_bit(old(self).bits, button.spec_bit(), false),
    {
        self.put(button, false);
    }

    /// Presses `button` if it is released and releases it if it is pressed;
    /// every other bit of the sample stays.
    pub fn toggle(&mut self, button: ControllerButton)
        ensures
            final(self).bits == flipped(old(self).bits, button.spec_bit()),
    {
        self.bits = flip_bit(self.bits, button.bit());
    }

    /// The buttons that are pressed, in the order of their bits.
    pub fn get_pressed(&self) -> (r: Vec<ControllerButton>)
        ensures
            forall|button: ControllerButton|
                r@.contains(button) <==> bit_of(self.bits, button.spec_bit()),
            forall|i: int, j: int|
                0 <= i < j < r@.len() ==> (#[trigger] r@[i]).spec_bit() < (
                #[trigger] r@[j]).spec_bit(),
    {
        let mut pressed: Vec<ControllerButton> = Vec::new();
        let mut index: u32 = 0;
        while index < 16
            invariant
                index <= 16,
                forall|button: ControllerButton|
                    pressed@.contains(button) <==> (button.spec_bit() < index && bit_of(
                        self.bits,
                        button.spec_bit(),
                    )),
                forall|i: int, j: int|
                    0 <= i < j < pressed@.len() ==> (#[trigger] pressed@[i]).spec_bit() < (
                    #[trigger] pressed@[j]).spec_bit(),
            decreases 16 - index,
        {
            let ghost before = pressed@;
            match ControllerButton::from_bit(index) {
                Some(button) => {
                    if self.is_set(button) {
                        pressed.push(button);
                        proof {
                            lemma_pressed_extended(self.bits, before, pressed@, button);
                        }
                    } else {
                        proof {
                            assert forall|other: ControllerButton|
                                pressed@.contains(other) <==> (other.spec_bit() < index + 1
                                    && bit_of(self.bits, other.spec_bit())) by {
                                if other.spec_bit() == index {
                                    lemma_button_of_bit(other, button);
                                }
                            }
                        }
                    }
                },
                None => {},
            }
            index += 1;
        }
        pressed
    }

    /// Whether the right directional pad button is pressed.
    pub fn dpad_right(&self) -> (r: bool)
        ensures
            r == self@.dpad_right,
    {
        get_bit(self.bits, 0)
    }

    /// Presses or releases the right directional pad button; every other field stays.
    pub fn set_dpad_right(&mut self, value: bool)
        ensures
            final(self)@ == (ControllerStateFields { dpad_right: value, ..old(self)@ }),
            final(self).bits == with_bit(old(self).bits, 0, value),
    {
        proof {
            lemma_button_written(self.bits, 0, value);
        }
        self.bits = set_bit(self.bits, 0, value);
    }

    /// Whether the left directional pad button is pressed.
    pub fn dpad_left(&self) -> (r: bool)
        ensures
            r == self@.dpad_left,
    {
        get_bit(self.bits, 1)
    }

    /// Presses or releases the left directional pad button; every other field stays.
    pub fn set_dpad_left(&mut self, value: bool)
        ensures
            final(self)@ == (ControllerStateFields { dpad_left: value, ..old(self)@ }),
            final(self).bits == with_bit(old(self).bits, 1, value),
    {
        proof {
            lemma_button_written(self.bits, 1, value);
        }
        self.bits = set_bit(self.bits, 1, value);
    }

    /// Whether the down directional pad button is pressed.
    pub fn dpad_down(&self) -> (r: bool)
        ensures
            r == self@.dpad_down,
    {
        get_bit(self.bits, 2)
    }

    /// Presses or releases the down directional pad button; every other field stays.
    pub fn set_dpad_down(&mut self, value: bool)
        ensures
            final(self)@ == (ControllerStateFields { dpad_down: value, ..old(self)@ }),
            final(self).bits == with_bit(old(self).bits, 2, value),
    {
        proof {
            lemma_button_written(self.bits, 2, value);
        }
        self.bits = set_bit(self.bits, 2, value);
    }

    /// Whether the up directional pad button is pressed.
    pub fn dpad_up(&self) -> (r: bool)
        ensures
            r == self@.dpad_up,
    {
        get_bit(self.bits, 3)
    }

    /// Presses or releases the up directional pad button; every other field stays.
    pub fn set_dpad_up(&mut self, value: bool)
        ensures
            final(self)@ == (ControllerStateFields { dpad_up: value, ..old(self)@ }),
            final(self).bits == with_bit(old(self).bits, 3, value),
    {
        proof {
            lemma_button_written(self.bits, 3, value);
        }
        self.bits = set_bit(self.bits, 3, value);
    }

    /// Whether the start button is pressed.
    pub fn start_btn(&self) -> (r: bool)
        ensures
            r == self@.start_btn,
    {
        get_bit(self.bits, 4)
    }

    /// Presses or releases the start button; every other field stays.
    pub fn set_start_btn(&mut self, value: bool)
        ensures
            final(self)@ == (ControllerStateFields { start_btn: value, ..old(self)@ }),
            final(self).bits == with_bit(old(self).bits, 4, value),
    {
        proof {
            lemma_button_written(self.bits, 4, value);
        }
        self.bits = set_bit(self.bits, 4, value);
    }

    /// Whether the Z button is pressed.
    pub fn z_btn(&self) -> (r: bool)
        ensures
            r == self@.z_btn,
    {
        get_bit(self.bits, 5)
    }

    /// Presses or releases the Z button; every other field stays.
    pub fn set_z_btn(&mut self, value: bool)
        ensures
            final(self)@ == (ControllerStateFields { z_btn: value, ..old(self)@ }),
            final(self).bits == with_bit(old(self).bits, 5, value),
    {
        proof {
            lemma_button_written(self.bits, 5, value);
        }
        self.bits = set_bit(self.bits, 5, value);
    }

    /// Whether the B button is pressed.
    pub fn b_btn(&self) -> (r: bool)
        ensures
            r == self@.b_btn,
    {
        get_bit(self.bits, 6)
    }

    /// Presses or releases the B button; every other field stays.
    pub fn set_b_btn(&mut self, value: bool)
        ensures
            final(self)@ == (ControllerStateFields { b_btn: value, ..old(self)@ }),
            final(self).bits == with_bit(old(self).bits, 6, value),
    {
        proof {
            lemma_button_written(self.bits, 6, value);
        }
        self.bits = set_bit(self.bits, 6, value);
    }

    /// Whether the A button is pressed.
    pub fn a_btn(&self) -> (r: bool)
        ensures
            r == self@.a_btn,
    {
        get_bit(self.bits, 7)
    }

    /// Presses or releases the A button; every other field stays.
    pub fn set_a_btn(&mut self, value: bool)
        ensures
            final(self)@ == (ControllerStateFields { a_btn: value, ..old(self)@ }),
            final(self).bits == with_bit(old(self).bits, 7, value),
    {
        proof {
            lemma_button_written(self.bits, 7, value);
        }
        self.bits = set_bit(self.bits, 7, value);
    }

    /// Whether the C-right button is pressed.
    pub fn c_right(&self) -> (r: bool)
        ensures
            r == self@.c_right,
    {
        get_bit(self.bits, 8)
    }

    /// Presses or releases the C-right button; every other field stays.
    pub fn set_c_right(&mut self, value: bool)
        ensures
            final(self)@ == (ControllerStateFields { c_right: value, ..old(self)@ }),
            final(self).bits == with_bit(old(self).bits, 8, value),
    {
        proof {
            lemma_button_written(self.bits, 8, value);
        }
        self.bits = set_bit(self.bits, 8, value);
    }

    /// Whether the C-left button is pressed.
    pub fn c_left(&self) -> (r: bool)
        ensures
            r == self@.c_left,
    {
        get_bit(self.bits, 9)
    }

    /// Presses or releases the C-left button; every other field stays.
    pub fn set_c_left(&mut self, value: bool)
        ensures
            final(self)@ == (ControllerStateFields { c_left: value, ..old(self)@ }),
            final(self).bits == with_bit(old(self).bits, 9, value),
    {
        proof {
            lemma_button_written(self.bits, 9, value);
        }
        self.bits = set_bit(self.bits, 9, value);
    }

    /// Whether the C-down button is pressed.
    pub fn c_down(&self) -> (r: bool)
        ensures
            r == self@.c_down,
    {
        get_bit(self.bits, 10)
    }

    /// Presses or releases the C-down button; every other field stays.
    pub fn set_c_down(&mut self, value: bool)
        ensures
            final(self)@ == (ControllerStateFields { c_down: value, ..old(self)@ }),
            final(self).bits == with_bit(old(self).bits, 10, value),
    {
        proof {
            lemma_button_written(self.bits, 10, value);
        }
        self.bits = set_bit(self.bits, 10, value);
    }

    /// Whether the C-up button is pressed.
    pub fn c_up(&self) -> (r: bool)
        ensures
            r == self@.c_up,
    {
        get_bit(self.bits, 11)
    }

    /// Presses or releases the C-up button; every other field stays.
    pub fn set_c_up(&mut self, value: bool)
        ensures
            final(self)@ == (ControllerStateFields { c_up: value, ..old(self)@ }),
            final(self).bits == with_bit(old(self).bits, 11, value),
    {
        proof {
            lemma_button_written(self.bits, 11, value);
        }
        self.bits = set_bit(self.bits, 11, value);
    }

    /// Whether the right trigger is pressed.
    pub fn trigger_right(&self) -> (r: bool)
        ensures
            r == self@.trigger_right,
    {
        get_bit(self.bits, 12)
    }

    /// Presses or releases the right trigger; every other field stays.
    pub fn set_trigger_right(&mut self, value: bool)
        ensures
            final(self)@ == (ControllerStateFields { trigger_right: value, ..old(self)@ }),
            final(self).bits == with_bit(old(self).bits, 12, value),
    {
        proof {
            lemma_button_written(self.bits, 12, value);
        }
        self.bits = set_bit(self.bits, 12, value);
    }

    /// Whether the left trigger is pressed.
    pub fn trigger_left(&self) -> (r: bool)
        ensures
            r == self@.trigger_left,
    {
        get_bit(self.bits, 13)
    }

    /// Presses or releases the left trigger; every other field stays.
    pub fn set_trigger_left(&mut self, value: bool)
        ensures
            final(self)@ == (ControllerStateFields { trigger_left: value, ..old(self)@ }),
            final(self).bits == with_bit(old(self).bits, 13, value),
    {
        proof {
            lemma_button_written(self.bits, 13, value);
        }
        self.bits = set_bit(self.bits, 13, value);
    }

    /// Whether the first reserved button bit is pressed.
    pub fn reserved01(&self) -> (r: bool)
        ensures
            r == self@.reserved01,
    {
        get_bit(self.bits, 14)
    }

    /// Presses or releases the first reserved button bit; every other field stays.
    pub fn set_reserved01(&mut self, value: bool)
        ensures
            final(self)@ == (ControllerStateFields { reserved01: value, ..old(self)@ }),
            final(self).bits == with_bit(old(self).bits, 14, value),
    {
        proof {
            lemma_button_written(self.bits, 14, value);
        }
        self.bits = set_bit(self.bits, 14, value);
    }

    /// Whether the second reserved button bit is pressed.
    pub fn reserved02(&self) -> (r: bool)
        ensures
            r == self@.reserved02,
    {
        get_bit(self.bits, 15)
    }

    /// Presses or releases the second reserved button bit; every other field stays.
    pub fn set_reserved02(&mut self, value: bool)
        ensures
            final(self)@ == (ControllerStateFields { reserved02: value, ..old(self)@ }),
            final(self).bits == with_bit(old(self).bits, 15, value),
    {
        proof {
            lemma_button_written(self.bits, 15, value);
        }
        self.bits = set_bit(self.bits, 15, value);
    }

    /// The position of the stick along the x axis.
    pub fn x_axis(&self) -> (r: i8)
        ensures
            r == self@.x_axis,
    {
        let byte = get_bits(self.bits, 16, 8);
        proof {
            lemma_byte_bound(self.bits, 16);
        }
        axis_value(byte as u8)
    }

    /// The position of the stick along the y axis.
    pub fn y_axis(&self) -> (r: i8)
        ensures
            r == self@.y_axis,
    {
        let byte = get_bits(self.bits, 24, 8);
        proof {
            lemma_byte_bound(self.bits, 24);
        }
        axis_value(byte as u8)
    }

    /// The position of the stick: x, then y.
    pub fn axis(&self) -> (r: (i8, i8))
        ensures
            r.0 == self@.x_axis,
            r.1 == self@.y_axis,
    {
        (self.x_axis(), self.y_axis())
    }

    /// Moves the stick along the x axis; every other field stays.
    pub fn set_x_axis(&mut self, value: i8)
        ensures
            final(self)@ == (ControllerStateFields { x_axis: value, ..old(self)@ }),
            final(self).bits == with_bits(old(self).bits, 16, 8, i8_to_byte(value) as u32),
    {
        proof {
            lemma_axis_written(self.bits, 16, i8_to_byte(value));
            lemma_signed_byte(0, value);
        }
        self.bits = set_bits(self.bits, 16, 8, axis_byte(value) as u32);
    }

    /// Moves the stick along the y axis; every other field stays.
    pub fn set_y_axis(&mut self, value: i8)
        ensures
            final(self)@ == (ControllerStateFields { y_axis: value, ..old(self)@ }),
            final(self).bits == with_bits(old(self).bits, 24, 8, i8_to_byte(value) as u32),
    {
        proof {
            lemma_axis_written(self.bits, 24, i8_to_byte(value));
            lemma_signed_byte(0, value);
        }
        self.bits = set_bits(self.bits, 24, 8, axis_byte(value) as u32);
    }

    /// Moves the stick; the buttons stay.
    pub fn set_axis(&mut self, x: i8, y: i8)
        ensures
            final(self)@ == (ControllerStateFields { x_axis: x, y_axis: y, ..old(self)@ }),
    {
        self.set_x_axis(x);
        self.set_y_axis(y);
    }
}

/// After a pressed button was appended, the list holds the pressed buttons
/// up to that one, still in the order of their bits.
proof fn lemma_pressed_extended(
    bits: u32,
    before: Seq<ControllerButton>,
    after: Seq<ControllerButton>,
    button: ControllerButton,
)
    requires
        after == before.push(button),
        bit_of(bits, button.spec_bit()),
        forall|other: ControllerButton|
            before.contains(other) <==> (other.spec_bit() < button.spec_bit() && bit_of(
                bits,
                other.spec_bit(),
            )),
        forall|i: int, j: int|
            0 <= i < j < before.len() ==> (#[trigger] before[i]).spec_bit() < (
            #[trigger] before[j]).spec_bit(),
    ensures
        forall|other: ControllerButton|
            after.contains(other) <==> (other.spec_bit() < button.spec_bit() + 1 && bit_of(
                bits,
                other.spec_bit(),
            )),
        forall|i: int, j: int|
            0 <= i < j < after.len() ==> (#[trigger] after[i]).spec_bit() < (
            #[trigger] after[j]).spec_bit(),
{
    assert forall|other: ControllerButton|
        after.contains(other) <==> (other.spec_bit() < button.spec_bit() + 1 && bit_of(
            bits,
            other.spec_bit(),
        )) by {
        if after.contains(other) {
            let k = choose|k: int| 0 <= k < after.len() && after[k] == other;
            if k < before.len() {
                assert(before[k] == other);
                assert(before.contains(other));
            }
        }
        if other.spec_bit() < button.spec_bit() + 1 && bit_of(bits, other.spec_bit()) {
            if other.spec_bit() < button.spec_bit() {
                assert(before.contains(other));
                let k = choose|k: int| 0 <= k < before.len() && before[k] == other;
                assert(after[k] == other);
            } else {
                lemma_button_of_bit(other, button);
                assert(after[after.len() - 1] == other);
            }
        }
    }
    assert forall|i: int, j: int| 0 <= i < j < after.len() implies (#[trigger] after[i]).spec_bit()
        < (#[trigger] after[j]).spec_bit() by {
        assert(before[i] == after[i]);
        if j == after.len() - 1 {
            assert(before.contains(after[i]));
        } else {
            assert(before[j] == after[j]);
        }
    }
}
/// The word packed from the flag bits and the reserved bits of a word is
/// that word.
proof fn lemma_flags_packed(bits: u32)
    ensures
        packed_flags(
            bit_of(bits, 0),
            bit_of(bits, 1),
            bit_of(bits, 2),
            bit_of(bits, 3),
            bit_of(bits, 4),
            bit_of(bits, 5),
            bit_of(bits, 6),
            bit_of(bits, 7),
            bit_of(bits, 8),
            bit_of(bits, 9),
            bit_of(bits, 10),
            bit_of(bits, 11),
            bits_of(bits, 12, 20),
        ) == bits,
{
    reveal(bit_of);
    reveal(bits_of);
    reveal(low_mask);
    reveal(flag);
    assert(packed_flags(
        bit_of(bits, 0),
        bit_of(bits, 1),
        bit_of(bits, 2),
        bit_of(bits, 3),
        bit_of(bits, 4),
        bit_of(bits, 5),
        bit_of(bits, 6),
        bit_of(bits, 7),
        bit_of(bits, 8),
        bit_of(bits, 9),
        bit_of(bits, 10),
        bit_of(bits, 11),
        bits_of(bits, 12, 20),
    ) == bits) by (bit_vector);
}

/// The bits of a word packed from twelve flags and a reserved field are
/// those flags and that field.
proof fn lemma_flags_unpacked(
    w: u32,
    b0: bool,
    b1: bool,
    b2: bool,
    b3: bool,
    b4: bool,
    b5: bool,
    b6: bool,
    b7: bool,
    b8: bool,
    b9: bool,
    b10: bool,
    b11: bool,
    reserved: u32,
)
    requires
        reserved < 0x10_0000,
        w == packed_flags(b0, b1, b2, b3, b4, b5, b6, b7, b8, b9, b10, b11, reserved),
    ensures
        bit_of(w, 0) == b0,
        bit_of(w, 1) == b1,
        bit_of(w, 2) == b2,
        bit_of(w, 3) == b3,
        bit_of(w, 4) == b4,
        bit_of(w, 5) == b5,
        bit_of(w, 6) == b6,
        bit_of(w, 7) == b7,
        bit_of(w, 8) == b8,
        bit_of(w, 9) == b9,
        bit_of(w, 10) == b10,
        bit_of(w, 11) == b11,
        bits_of(w, 12, 20) == reserved,
{
    reveal(bit_of);
    reveal(bits_of);
    reveal(low_mask);
    reveal(flag);
    assert((reserved < 0x10_0000
        && w == packed_flags(b0, b1, b2, b3, b4, b5, b6, b7, b8, b9, b10, b11, reserved))
        ==> (bit_of(w, 0) == b0
        && bit_of(w, 1) == b1
        && bit_of(w, 2) == b2
        && bit_of(w, 3) == b3
        && bit_of(w, 4) == b4
        && bit_of(w, 5) == b5
        && bit_of(w, 6) == b6
        && bit_of(w, 7) == b7
        && bit_of(w, 8) == b8
        && bit_of(w, 9) == b9
        && bit_of(w, 10) == b10
        && bit_of(w, 11) == b11
        && bits_of(w, 12, 20) == reserved)) by (bit_vector);
}

/// A controller flags word is its named fields and nothing more: packing
/// the fields of a word gives the word.
pub proof fn law_controller_flags_pack_unpack(bits: u32)
    ensures
        ControllerFlagsFields::unpack(bits).pack() == bits,
{
    lemma_flags_packed(bits);
}

/// Unpacking packed controller flags gives the fields back, as long as the
/// reserved field fits its twenty bits.
pub proof fn law_controller_flags_unpack_pack(fields: ControllerFlagsFields)
    requires
        fields.reserved < 0x10_0000,
    ensures
        ControllerFlagsFields::unpack(fields.pack()) == fields,
{
    assert forall|b0: bool, b1: bool, b2: bool, b3: bool, b4: bool, b5: bool, b6: bool, b7: bool, b8: bool, b9: bool, b10: bool, b11: bool, reserved: u32|
        reserved < 0x10_0000 implies ({
        let w = #[trigger] packed_flags(b0, b1, b2, b3, b4, b5, b6, b7, b8, b9, b10, b11, reserved);
        bit_of(w, 0) == b0
        && bit_of(w, 1) == b1
        && bit_of(w, 2) == b2
        && bit_of(w, 3) == b3
        && bit_of(w, 4) == b4
        && bit_of(w, 5) == b5
        && bit_of(w, 6) == b6
        && bit_of(w, 7) == b7
        && bit_of(w, 8) == b8
        && bit_of(w, 9) == b9
        && bit_of(w, 10) == b10
        && bit_of(w, 11) == b11
        && bits_of(w, 12, 20) == reserved
    }) by {
        lemma_flags_unpacked(
            packed_flags(b0, b1, b2, b3, b4, b5, b6, b7, b8, b9, b10, b11, reserved),
            b0, b1, b2, b3, b4, b5, b6, b7, b8, b9, b10, b11,
            reserved,
        );
    }
}

/// The word packed from the button bits and the axis bytes of a word is
/// that word.
proof fn lemma_state_packed(bits: u32)
    ensures
        packed_state(
            bit_of(bits, 0),
            bit_of(bits, 1),
            bit_of(bits, 2),
            bit_of(bits, 3),
            bit_of(bits, 4),
            bit_of(bits, 5),
            bit_of(bits, 6),
            bit_of(bits, 7),
            bit_of(bits, 8),
            bit_of(bits, 9),
            bit_of(bits, 10),
            bit_of(bits, 11),
            bit_of(bits, 12),
            bit_of(bits, 13),
            bit_of(bits, 14),
            bit_of(bits, 15),
            bits_of(bits, 16, 8) as u8,
            bits_of(bits, 24, 8) as u8,
        ) == bits,
{
    reveal(bit_of);
    reveal(bits_of);
    reveal(low_mask);
    reveal(flag);
    assert(packed_state(
        bit_of(bits, 0),
        bit_of(bits, 1),
        bit_of(bits, 2),
        bit_of(bits, 3),
        bit_of(bits, 4),
        bit_of(bits, 5),
        bit_of(bits, 6),
        bit_of(bits, 7),
        bit_of(bits, 8),
        bit_of(bits, 9),
        bit_of(bits, 10),
        bit_of(bits, 11),
        bit_of(bits, 12),
        bit_of(bits, 13),
        bit_of(bits, 14),
        bit_of(bits, 15),
        bits_of(bits, 16, 8) as u8,
        bits_of(bits, 24, 8) as u8,
    ) == bits) by (bit_vector);
}

/// Unpacking a packed input sample gives the fields back: the button bits
/// and axis bytes of a word packed from sixteen buttons and two axis bytes
/// are those buttons and bytes. The parameters stand for the fields in the
/// order of [`ControllerStateFields`]; [`law_axis_bytes`] ties the axis
/// bytes to the axis fields.
pub proof fn law_controller_state_unpack_pack(
    w: u32,
    b0: bool,
    b1: bool,
    b2: bool,
    b3: bool,
    b4: bool,
    b5: bool,
    b6: bool,
    b7: bool,
    b8: bool,
    b9: bool,
    b10: bool,
    b11: bool,
    b12: bool,
    b13: bool,
    b14: bool,
    b15: bool,
    x: u8,
    y: u8,
)
    requires
        w == packed_state(
            b0, b1, b2, b3, b4, b5, b6, b7,
            b8, b9, b10, b11, b12, b13, b14, b15,
            x, y,
        ),
    ensures
        bit_of(w, 0) == b0,
        bit_of(w, 1) == b1,
        bit_of(w, 2) == b2,
        bit_of(w, 3) == b3,
        bit_of(w, 4) == b4,
        bit_of(w, 5) == b5,
        bit_of(w, 6) == b6,
        bit_of(w, 7) == b7,
        bit_of(w, 8) == b8,
        bit_of(w, 9) == b9,
        bit_of(w, 10) == b10,
        bit_of(w, 11) == b11,
        bit_of(w, 12) == b12,
        bit_of(w, 13) == b13,
        bit_of(w, 14) == b14,
        bit_of(w, 15) == b15,
        bits_of(w, 16, 8) == x,
        bits_of(w, 24, 8) == y,
{
    reveal(bit_of);
    reveal(bits_of);
    reveal(low_mask);
    reveal(flag);
    assert((w == packed_state(
            b0, b1, b2, b3, b4, b5, b6, b7,
            b8, b9, b10, b11, b12, b13, b14, b15,
            x, y,
        ))
        ==> (bit_of(w, 0) == b0
        && bit_of(w, 1) == b1
        && bit_of(w, 2) == b2
        && bit_of(w, 3) == b3
        && bit_of(w, 4) == b4
        && bit_of(w, 5) == b5
        && bit_of(w, 6) == b6
        && bit_of(w, 7) == b7
        && bit_of(w, 8) == b8
        && bit_of(w, 9) == b9
        && bit_of(w, 10) == b10
        && bit_of(w, 11) == b11
        && bit_of(w, 12) == b12
        && bit_of(w, 13) == b13
        && bit_of(w, 14) == b14
        && bit_of(w, 15) == b15
        && bits_of(w, 16, 8) == x
        && bits_of(w, 24, 8) == y)) by (bit_vector);
}

/// The axis fields of a word are the signed values of its two high bytes,
/// and those bytes are the bytes of the fields.
pub proof fn law_axis_bytes(bits: u32)
    ensures
        bits_of(bits, 16, 8) < 256,
        bits_of(bits, 24, 8) < 256,
        i8_to_byte(ControllerStateFields::unpack(bits).x_axis) == bits_of(bits, 16, 8),
        i8_to_byte(ControllerStateFields::unpack(bits).y_axis) == bits_of(bits, 24, 8),
{
    lemma_byte_bound(bits, 16);
    lemma_byte_bound(bits, 24);
    lemma_signed_byte(bits_of(bits, 16, 8) as u8, 0);
    lemma_signed_byte(bits_of(bits, 24, 8) as u8, 0);
}

/// An input sample is its named fields and nothing more: packing the fields
/// of a word gives the word.
pub proof fn law_controller_state_pack_unpack(bits: u32)
    ensures
        ControllerStateFields::unpack(bits).pack() == bits,
{
    law_axis_bytes(bits);
    lemma_state_packed(bits);
}

/// Writing a button and reading it back gives what was written, and every
/// other bit of the sample, so every other button and both axes, reads as
/// before.
pub proof fn law_button_write_read(bits: u32, button: ControllerButton, value: bool)
    ensures
        bit_of(with_bit(bits, button.spec_bit(), value), button.spec_bit()) == value,
        forall|j: u32|
            j != button.spec_bit() ==> #[trigger] bit_of(
                with_bit(bits, button.spec_bit(), value),
                j,
            ) == bit_of(bits, j),
        ControllerStateFields::unpack(with_bit(bits, button.spec_bit(), value)).x_axis
            == ControllerStateFields::unpack(bits).x_axis,
        ControllerStateFields::unpack(with_bit(bits, button.spec_bit(), value)).y_axis
            == ControllerStateFields::unpack(bits).y_axis,
{
    lemma_button_written(bits, button.spec_bit(), value);
}

/// Toggling a button inverts that button and keeps every other bit, and
/// toggling it twice gives the sample back.
pub proof fn law_toggle_twice(bits: u32, button: ControllerButton)
    ensures
        flipped(flipped(bits, button.spec_bit()), button.spec_bit()) == bits,
        bit_of(flipped(bits, button.spec_bit()), button.spec_bit()) == !bit_of(
            bits,
            button.spec_bit(),
        ),
        forall|j: u32|
            j != button.spec_bit() ==> #[trigger] bit_of(flipped(bits, button.spec_bit()), j)
                == bit_of(bits, j),
{
    lemma_flipped(bits, button.spec_bit());
}

impl From<u8> for ExtendedFlags {
    fn from(bits: u8) -> (r: ExtendedFlags) {
        ExtendedFlags { bits }
    }
}

impl vstd::std_specs::convert::FromSpecImpl<u8> for ExtendedFlags {
    open spec fn obeys_from_spec() -> bool {
        true
    }

    open spec fn from_spec(bits: u8) -> ExtendedFlags {
        ExtendedFlags { bits }
    }
}

impl From<ExtendedFlags> for u8 {
    fn from(value: ExtendedFlags) -> (r: u8) {
        value.bits
    }
}

impl vstd::std_specs::convert::FromSpecImpl<ExtendedFlags> for u8 {
    open spec fn obeys_from_spec() -> bool {
        true
    }

    open spec fn from_spec(value: ExtendedFlags) -> u8 {
        value.bits
    }
}

impl From<u32> for ControllerFlags {
    fn from(bits: u32) -> (r: ControllerFlags) {
        ControllerFlags { bits }
    }
}

impl vstd::std_specs::convert::FromSpecImpl<u32> for ControllerFlags {
    open spec fn obeys_from_spec() -> bool {
        true
    }

    open spec fn from_spec(bits: u32) -> ControllerFlags {
        ControllerFlags { bits }
    }
}

impl From<ControllerFlags> for u32 {
    fn from(value: ControllerFlags) -> (r: u32) {
        value.bits
    }
}

impl vstd::std_specs::convert::FromSpecImpl<ControllerFlags> for u32 {
    open spec fn obeys_from_spec() -> bool {
        true
    }

    open spec fn from_spec(value: ControllerFlags) -> u32 {
        value.bits
    }
}

impl From<u32> for ControllerState {
    fn from(bits: u32) -> (r: ControllerState) {
        ControllerState { bits }
    }
}

impl vstd::std_specs::convert::FromSpecImpl<u32> for ControllerState {
    open spec fn obeys_from_spec() -> bool {
        true
    }

    open spec fn from_spec(bits: u32) -> ControllerState {
        ControllerState { bits }
    }
}

impl From<ControllerState> for u32 {
    fn from(value: ControllerState) -> (r: u32) {
        value.bits
    }
}

impl vstd::std_specs::convert::FromSpecImpl<ControllerState> for u32 {
    open spec fn obeys_from_spec() -> bool {
        true
    }

    open spec fn from_spec(value: ControllerState) -> u32 {
        value.bits
    }
}

} // verus!
