use binrw::NullString;
use m64_movie::raw::m64::{
    ControllerFlags, ControllerState, ExtendedData, ExtendedFlags, MovieStartType,
};
use m64_movie::raw::record::{frame, frame_total, frames};
use m64_movie::raw::RawMovie;
use m64_movie::shared::Reserved;
use m64_movie::{BinReadExt, BinWriteExt, EncodedFixedStrError, MovieError, MovieParseError};

/// A raw movie with a different value in every field.
fn full_movie() -> RawMovie {
    RawMovie {
        version: 3,
        uid: 0x0403_0201,
        vertical_interrupts: 0x0807_0605,
        rerecord_count: 0x0C0B_0A09,
        vis_per_second: 0x3C,
        controller_count: 2,
        extended_version: 1,
        extended_flags: ExtendedFlags::from_bits(1),
        controller_input_samples: 0x100F_0E0D,
        start_type: MovieStartType::EEPROM,
        reserved01: Reserved::default(),
        controller_flags: ControllerFlags::from_bits(0x1413_1211),
        extended_data: ExtendedData {
            authorship_info: 0x1817_1615,
            bruteforce_data: 0x1C1B_1A19,
            rerecord_count_high: 0x201F_1E1D,
            reserved: Reserved::default(),
        },
        reserved02: Reserved::default(),
        rom_name: NullString::from("ROM"),
        rom_crc32: 0x2423_2221,
        rom_country: 0x2625,
        reserved03: Reserved::default(),
        video_plugin: NullString::from("video"),
        sound_plugin: NullString::from("sound"),
        input_plugin: NullString::from("input"),
        rsp_plugin: NullString::from("rsp"),
        author_name: NullString::from("著者"),
        description: NullString::from("described"),
        inputs: vec![
            ControllerState::from_bits(0x0403_0201),
            ControllerState::from_bits(0x0807_0605),
            ControllerState::from_bits(0xFFFE_FDFC),
        ],
    }
}

/// The smallest file that is a movie: a header and no input.
fn empty_file() -> Vec<u8> {
    let mut bytes = vec![0u8; 0x400];
    bytes[0..4].copy_from_slice(b"M64\x1A");
    bytes[4] = 3;
    bytes[0x015] = 1;
    bytes[0x01C] = 2;
    bytes
}

fn field_with(text: &[u8], width: usize) -> Vec<u8> {
    let mut field = text.to_vec();
    field.resize(width, 0);
    field
}

#[test]
fn every_field_is_written_at_its_offset() {
    let bytes = full_movie().to_bytes().unwrap();
    assert_eq!(bytes.len(), 0x400 + 12);
    assert_eq!(&bytes[0x000..0x004], &[0x4D, 0x36, 0x34, 0x1A]);
    assert_eq!(&bytes[0x004..0x008], &[3, 0, 0, 0]);
    assert_eq!(&bytes[0x008..0x00C], &[1, 2, 3, 4]);
    assert_eq!(&bytes[0x00C..0x010], &[5, 6, 7, 8]);
    assert_eq!(&bytes[0x010..0x014], &[9, 10, 11, 12]);
    assert_eq!(bytes[0x014], 0x3C);
    assert_eq!(bytes[0x015], 2);
    assert_eq!(bytes[0x016], 1);
    assert_eq!(bytes[0x017], 1);
    assert_eq!(&bytes[0x018..0x01C], &[13, 14, 15, 16]);
    assert_eq!(&bytes[0x01C..0x01E], &[4, 0]);
    assert_eq!(&bytes[0x01E..0x020], &[0, 0]);
    assert_eq!(&bytes[0x020..0x024], &[0x11, 0x12, 0x13, 0x14]);
    assert_eq!(&bytes[0x024..0x028], &[0x15, 0x16, 0x17, 0x18]);
    assert_eq!(&bytes[0x028..0x02C], &[0x19, 0x1A, 0x1B, 0x1C]);
    assert_eq!(&bytes[0x02C..0x030], &[0x1D, 0x1E, 0x1F, 0x20]);
    assert_eq!(&bytes[0x030..0x044], &[0u8; 20]);
    assert_eq!(&bytes[0x044..0x0C4], &[0u8; 128]);
    assert_eq!(&bytes[0x0C4..0x0E4], &field_with(b"ROM", 32)[..]);
    assert_eq!(&bytes[0x0E4..0x0E8], &[0x21, 0x22, 0x23, 0x24]);
    assert_eq!(&bytes[0x0E8..0x0EA], &[0x25, 0x26]);
    assert_eq!(&bytes[0x0EA..0x122], &[0u8; 56]);
    assert_eq!(&bytes[0x122..0x162], &field_with(b"video", 64)[..]);
    assert_eq!(&bytes[0x162..0x1A2], &field_with(b"sound", 64)[..]);
    assert_eq!(&bytes[0x1A2..0x1E2], &field_with(b"input", 64)[..]);
    assert_eq!(&bytes[0x1E2..0x222], &field_with(b"rsp", 64)[..]);
    assert_eq!(&bytes[0x222..0x300], &field_with("著者".as_bytes(), 222)[..]);
    assert_eq!(&bytes[0x300..0x400], &field_with(b"described", 256)[..]);
    assert_eq!(&bytes[0x400..], &[1, 2, 3, 4, 5, 6, 7, 8, 0xFC, 0xFD, 0xFE, 0xFF]);
}

#[test]
fn what_was_written_reads_back() {
    let movie = full_movie();
    let bytes = movie.to_bytes().unwrap();
    assert_eq!(RawMovie::from_bytes(&bytes).unwrap(), movie);
    assert_eq!(RawMovie::decode(&bytes).unwrap(), movie);
    assert_eq!(RawMovie::try_from(&bytes[..]).unwrap(), movie);
    assert_eq!(RawMovie::from_bytes(&bytes).unwrap().encode().unwrap(), bytes);
}

#[test]
fn every_field_is_read_from_its_offset() {
    let mut bytes = vec![0u8; 0x400];
    for (i, byte) in bytes.iter_mut().enumerate() {
        *byte = (i % 251) as u8 + 1;
    }
    bytes[0..4].copy_from_slice(b"M64\x1A");
    bytes[4..8].copy_from_slice(&3u32.to_le_bytes());
    bytes[0x016] = 1;
    bytes[0x01C..0x01E].copy_from_slice(&1u16.to_le_bytes());
    bytes.extend_from_slice(&[0xAA, 0xBB, 0xCC, 0xDD]);
    let at = |i: usize| (i % 251) as u8 + 1;
    let word = |i: usize| u32::from_le_bytes([at(i), at(i + 1), at(i + 2), at(i + 3)]);
    let span = |from: usize, to: usize| (from..to).map(at).collect::<Vec<u8>>();

    let movie = RawMovie::from_bytes(&bytes).unwrap();
    assert_eq!(movie.version, 3);
    assert_eq!(movie.uid, word(0x008));
    assert_eq!(movie.vertical_interrupts, word(0x00C));
    assert_eq!(movie.rerecord_count, word(0x010));
    assert_eq!(movie.vis_per_second, at(0x014));
    assert_eq!(movie.controller_count, at(0x015));
    assert_eq!(movie.extended_version, 1);
    assert_eq!(movie.extended_flags.bits, at(0x017));
    assert_eq!(movie.controller_input_samples, word(0x018));
    assert_eq!(movie.start_type, MovieStartType::Snapshot);
    assert_eq!(movie.reserved01.reserved.to_vec(), span(0x01E, 0x020));
    assert_eq!(movie.controller_flags.bits, word(0x020));
    assert_eq!(movie.extended_data.authorship_info, word(0x024));
    assert_eq!(movie.extended_data.bruteforce_data, word(0x028));
    assert_eq!(movie.extended_data.rerecord_count_high, word(0x02C));
    assert_eq!(movie.extended_data.reserved.reserved.to_vec(), span(0x030, 0x044));
    assert_eq!(movie.reserved02.reserved.to_vec(), span(0x044, 0x0C4));
    assert_eq!(movie.rom_name.0, span(0x0C4, 0x0E4));
    assert_eq!(movie.rom_crc32, word(0x0E4));
    assert_eq!(movie.rom_country, u16::from_le_bytes([at(0x0E8), at(0x0E9)]));
    assert_eq!(movie.reserved03.reserved.to_vec(), span(0x0EA, 0x122));
    assert_eq!(movie.video_plugin.0, span(0x122, 0x162));
    assert_eq!(movie.sound_plugin.0, span(0x162, 0x1A2));
    assert_eq!(movie.input_plugin.0, span(0x1A2, 0x1E2));
    assert_eq!(movie.rsp_plugin.0, span(0x1E2, 0x222));
    assert_eq!(movie.author_name.0, span(0x222, 0x300));
    assert_eq!(movie.description.0, span(0x300, 0x400));
    assert_eq!(movie.inputs, vec![ControllerState::from_bits(0xDDCC_BBAA)]);
}

#[test]
fn reserved_bytes_are_written_as_zeros() {
    let mut bytes = empty_file();
    bytes[0x01E] = 0xEE;
    bytes[0x043] = 0xEE;
    bytes[0x044] = 0xEE;
    bytes[0x121] = 0xEE;
    // Bytes behind the end of a string count for nothing either.
    bytes[0x0C4..0x0C8].copy_from_slice(b"ROM\0");
    bytes[0x0C8] = 0xEE;
    let movie = RawMovie::from_bytes(&bytes).unwrap();
    assert_eq!(movie.rom_name.0, b"ROM".to_vec());
    assert_eq!(movie.reserved01.reserved, [0xEE, 0]);
    let written = movie.to_bytes().unwrap();
    assert_ne!(written, bytes);
    let mut tidy = bytes.clone();
    tidy[0x01E] = 0;
    tidy[0x043] = 0;
    tidy[0x044] = 0;
    tidy[0x121] = 0;
    tidy[0x0C8] = 0;
    assert_eq!(written, tidy);
    // The reserved bits of the packed words are part of their value.
    let mut bytes = empty_file();
    bytes[0x017] = 0xFE;
    bytes[0x020..0x024].copy_from_slice(&0xFFFF_F001u32.to_le_bytes());
    let movie = RawMovie::from_bytes(&bytes).unwrap();
    assert_eq!(movie.to_bytes().unwrap(), bytes);
}

#[test]
fn the_smallest_movie_has_no_input() {
    let bytes = empty_file();
    let movie = RawMovie::from_bytes(&bytes).unwrap();
    assert!(movie.inputs.is_empty());
    assert_eq!(movie.start_type, MovieStartType::PowerOn);
    assert!(movie.rom_name.0.is_empty());
    assert_eq!(movie.to_bytes().unwrap(), bytes);
    assert!(movie.controller_inputs_stream().is_empty());
}

#[test]
fn a_wrong_signature_is_rejected_whatever_follows() {
    let good = full_movie().to_bytes().unwrap();
    for at in 0..4 {
        let mut bytes = good.clone();
        bytes[at] ^= 1;
        assert!(matches!(RawMovie::from_bytes(&bytes), Err(MovieError::BadMagic)));
    }
    // What is wrong behind the signature does not matter.
    let mut bytes = good.clone();
    bytes[0] = b'N';
    bytes[4] = 2;
    bytes[0x01C] = 3;
    bytes.push(0);
    assert!(matches!(RawMovie::from_bytes(&bytes), Err(MovieError::BadMagic)));
    for bytes in [&b""[..], &b"M"[..], &b"M64"[..], &b"m64\x1A"[..], &[0u8; 0x400][..]] {
        assert!(matches!(RawMovie::from_bytes(bytes), Err(MovieError::BadMagic)));
    }
}

#[test]
fn a_short_header_is_truncated_input() {
    let good = full_movie().to_bytes().unwrap();
    for len in [4, 8, 0x1D, 0x1E, 0x20, 0x3FF] {
        assert!(matches!(
            RawMovie::from_bytes(&good[..len]),
            Err(MovieError::TruncatedInput)
        ));
    }
    assert!(RawMovie::from_bytes(&good[..0x400]).is_ok());
}

#[test]
fn a_partial_input_sample_is_truncated_input() {
    let good = full_movie().to_bytes().unwrap();
    for extra in 1..4 {
        let mut bytes = good.clone();
        bytes.extend(std::iter::repeat(7).take(extra));
        assert!(matches!(RawMovie::from_bytes(&bytes), Err(MovieError::TruncatedInput)));
    }
    let mut bytes = good.clone();
    bytes.extend_from_slice(&[7, 7, 7, 7]);
    assert_eq!(RawMovie::from_bytes(&bytes).unwrap().inputs.len(), 4);
}

#[test]
fn start_types_are_one_two_and_four() {
    for (code, start_type) in [
        (1u16, MovieStartType::Snapshot),
        (2, MovieStartType::PowerOn),
        (4, MovieStartType::EEPROM),
    ] {
        assert_eq!(start_type.code(), code);
        assert_eq!(MovieStartType::from_code(code), Some(start_type));
        assert_eq!(MovieStartType::from_bytes(&code.to_le_bytes()).unwrap(), start_type);
        let mut bytes = empty_file();
        bytes[0x01C..0x01E].copy_from_slice(&code.to_le_bytes());
        assert_eq!(RawMovie::from_bytes(&bytes).unwrap().start_type, start_type);
    }
    for code in [0u16, 3, 5, 8, 0x0100, 0x0102, 0xFFFF] {
        assert_eq!(MovieStartType::from_code(code), None);
        assert!(matches!(
            MovieStartType::from_bytes(&code.to_le_bytes()),
            Err(MovieError::BadStartType(c)) if c == code
        ));
        let mut bytes = empty_file();
        bytes[0x01C..0x01E].copy_from_slice(&code.to_le_bytes());
        assert!(matches!(
            RawMovie::from_bytes(&bytes),
            Err(MovieError::BadStartType(c)) if c == code
        ));
    }
    assert!(matches!(MovieStartType::from_bytes(&[1]), Err(MovieError::TruncatedInput)));
}

#[test]
fn faults_come_in_the_order_of_the_file() {
    // A wrong start type is met before the end of a short header ...
    let mut bytes = empty_file();
    bytes[0x01C] = 3;
    bytes[4] = 2;
    bytes[0x024] = 1;
    assert!(matches!(
        RawMovie::from_bytes(&bytes[..0x100]),
        Err(MovieError::BadStartType(3))
    ));
    // ... and before a wrong version, which is met before the state of the
    // extension, which is met before a partial input sample.
    assert!(matches!(RawMovie::from_bytes(&bytes), Err(MovieError::BadStartType(3))));
    bytes[0x01C] = 2;
    bytes.push(0);
    assert!(matches!(RawMovie::from_bytes(&bytes[..0x100]), Err(MovieError::TruncatedInput)));
    assert!(matches!(
        RawMovie::from_bytes(&bytes),
        Err(MovieError::MovieParseError(MovieParseError::UnsupportedVersion(2)))
    ));
    bytes[4] = 3;
    assert!(matches!(RawMovie::from_bytes(&bytes), Err(MovieError::InvalidExtensionState)));
    bytes[0x024] = 0;
    assert!(matches!(RawMovie::from_bytes(&bytes), Err(MovieError::TruncatedInput)));
}

#[test]
fn versions_other_than_three_are_rejected() {
    for version in [0u32, 1, 2, 4, 0x0300, 0x0300_0000, u32::MAX] {
        let mut bytes = empty_file();
        bytes[4..8].copy_from_slice(&version.to_le_bytes());
        assert!(matches!(
            RawMovie::from_bytes(&bytes),
            Err(MovieError::MovieParseError(MovieParseError::UnsupportedVersion(v))) if v == version
        ));
    }
}

#[test]
fn extension_fields_must_be_zero_without_the_extension() {
    for extended_version in [0u8, 2, 255] {
        for at in [0x024, 0x027, 0x028, 0x02B, 0x02C, 0x02F] {
            let mut bytes = empty_file();
            bytes[0x016] = extended_version;
            bytes[at] = 1;
            assert!(matches!(
                RawMovie::from_bytes(&bytes),
                Err(MovieError::InvalidExtensionState)
            ));
        }
        let mut bytes = empty_file();
        bytes[0x016] = extended_version;
        bytes[0x017] = 1;
        assert!(matches!(RawMovie::from_bytes(&bytes), Err(MovieError::InvalidExtensionState)));
        // The reserved bits of the flags and the reserved bytes of the data
        // are not fields of the extension.
        let mut bytes = empty_file();
        bytes[0x016] = extended_version;
        bytes[0x017] = 0xFE;
        bytes[0x030] = 1;
        assert!(RawMovie::from_bytes(&bytes).is_ok());
    }
}

#[test]
fn extension_fields_may_be_anything_with_the_extension() {
    let mut bytes = empty_file();
    bytes[0x016] = 1;
    // Zero is as good a value as any other.
    let movie = RawMovie::from_bytes(&bytes).unwrap();
    assert!(!movie.extended_flags.wiivc_emulation_mode());
    assert_eq!(movie.extended_data.authorship_info, 0);
    bytes[0x017] = 1;
    bytes[0x024..0x028].copy_from_slice(&12345u32.to_le_bytes());
    bytes[0x028..0x02C].copy_from_slice(&67890u32.to_le_bytes());
    bytes[0x02C..0x030].copy_from_slice(&11111u32.to_le_bytes());
    let movie = RawMovie::from_bytes(&bytes).unwrap();
    assert!(movie.extended_flags.wiivc_emulation_mode());
    assert_eq!(movie.extended_data.authorship_info, 12345);
    assert_eq!(movie.extended_data.bruteforce_data, 67890);
    assert_eq!(movie.extended_data.rerecord_count_high, 11111);
    assert_eq!(movie.to_bytes().unwrap(), bytes);
}

#[test]
fn extended_data_is_three_numbers_and_twenty_zeros() {
    let data = ExtendedData {
        authorship_info: 0x0403_0201,
        bruteforce_data: 0x0807_0605,
        rerecord_count_high: 0x0C0B_0A09,
        reserved: Reserved { reserved: [9; 20] },
    };
    let mut expected: Vec<u8> = (1..=12).collect();
    expected.extend_from_slice(&[0; 20]);
    assert_eq!(data.to_bytes().unwrap(), expected);
    let mut bytes: Vec<u8> = (1..=32).collect();
    bytes.push(0xFF);
    let read = ExtendedData::from_bytes(&bytes).unwrap();
    assert_eq!(read.authorship_info, 0x0403_0201);
    assert_eq!(read.bruteforce_data, 0x0807_0605);
    assert_eq!(read.rerecord_count_high, 0x0C0B_0A09);
    assert_eq!(read.reserved.reserved.to_vec(), (13..=32).collect::<Vec<u8>>());
    assert!(matches!(ExtendedData::from_bytes(&bytes[..31]), Err(MovieError::TruncatedInput)));
    let zero = ExtendedData::default();
    assert_eq!(zero.to_bytes().unwrap(), vec![0u8; 32]);
}

#[test]
fn a_string_may_fill_its_field() {
    let mut movie = full_movie();
    movie.rom_name = NullString(vec![b'x'; 32]);
    movie.description = NullString(vec![b'y'; 256]);
    let bytes = movie.to_bytes().unwrap();
    assert_eq!(&bytes[0x0C4..0x0E4], &[b'x'; 32]);
    assert_eq!(&bytes[0x300..0x400], &[b'y'; 256]);
    assert_eq!(RawMovie::from_bytes(&bytes).unwrap(), movie);
}

#[test]
fn a_string_longer_than_its_field_is_not_written() {
    let mut movie = full_movie();
    movie.video_plugin = NullString(vec![b'v'; 65]);
    movie.description = NullString(vec![b'd'; 300]);
    match movie.to_bytes() {
        Err(MovieError::FixedStrError(EncodedFixedStrError::ZStrError(s))) => {
            assert_eq!(s, "v".repeat(65))
        },
        other => panic!("expected a string that does not fit, got {:?}", other),
    }
    movie.video_plugin = NullString(vec![b'v'; 64]);
    match movie.encode() {
        Err(MovieError::FixedStrError(EncodedFixedStrError::ZStrError(s))) => {
            assert_eq!(s, "d".repeat(300))
        },
        other => panic!("expected a string that does not fit, got {:?}", other),
    }
    movie.rom_name = NullString(vec![0xFF; 33]);
    match movie.encode() {
        Err(MovieError::FixedStrError(EncodedFixedStrError::ZStrError(s))) => {
            assert_eq!(s, "\u{FFFD}".repeat(33))
        },
        other => panic!("expected a string that does not fit, got {:?}", other),
    }
}

#[test]
fn samples_fall_into_groups_of_the_controller_count() {
    let samples: Vec<ControllerState> = (0..6).map(ControllerState::from_bits).collect();
    let groups = frames(&samples, 2);
    assert_eq!(groups.len(), 3);
    assert_eq!(groups[0], &samples[0..2]);
    assert_eq!(groups[1], &samples[2..4]);
    assert_eq!(groups[2], &samples[4..6]);
    let groups = frames(&samples, 1);
    assert_eq!(groups.len(), 6);
    for (i, group) in groups.iter().enumerate() {
        assert_eq!(group, &&samples[i..i + 1]);
    }
    let groups = frames(&samples, 6);
    assert_eq!(groups, vec![&samples[..]]);
}

#[test]
fn samples_left_over_form_a_short_last_group() {
    let samples: Vec<ControllerState> = (0..7).map(ControllerState::from_bits).collect();
    let groups = frames(&samples, 3);
    assert_eq!(groups.len(), 3);
    assert_eq!(groups[0], &samples[0..3]);
    assert_eq!(groups[1], &samples[3..6]);
    assert_eq!(groups[2], &samples[6..7]);
    let groups = frames(&samples, 255);
    assert_eq!(groups, vec![&samples[..]]);
    assert!(frames(&[], 4).is_empty());
    let mut movie = full_movie();
    movie.controller_count = 2;
    let groups = movie.controller_inputs_stream();
    assert_eq!(groups.len(), 2);
    assert_eq!(groups[0], &movie.inputs[0..2]);
    assert_eq!(groups[1], &movie.inputs[2..3]);
}

#[test]
fn groups_are_counted_and_reached_without_a_list() {
    let samples: Vec<ControllerState> = (0..7).map(ControllerState::from_bits).collect();
    assert_eq!(frame_total(7, 3), 3);
    assert_eq!(frame_total(6, 3), 2);
    assert_eq!(frame_total(0, 3), 0);
    assert_eq!(frame_total(1, 255), 1);
    assert_eq!(frame_total(usize::MAX, 1), usize::MAX);
    assert_eq!(frame_total(usize::MAX, usize::MAX), 1);
    for group in 1..=8usize {
        let listed = frames(&samples, group);
        assert_eq!(listed.len(), frame_total(samples.len(), group));
        for (index, expected) in listed.iter().enumerate() {
            assert_eq!(&frame(&samples, group, index), expected);
        }
    }
}
