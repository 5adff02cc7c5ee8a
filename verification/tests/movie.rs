use m64_movie::raw::m64::ControllerState;
use m64_movie::{BinReadExt, BinWriteExt, Movie};

/// A movie of one controller, as a file.
fn recorded_movie() -> Vec<u8> {
    let mut bytes = vec![0u8; 0x400];
    bytes[0..4].copy_from_slice(b"M64\x1A");
    bytes[0x004..0x008].copy_from_slice(&3u32.to_le_bytes());
    bytes[0x008..0x00C].copy_from_slice(&0x4E2A_9C01u32.to_le_bytes());
    bytes[0x00C..0x010].copy_from_slice(&90u32.to_le_bytes());
    bytes[0x010..0x014].copy_from_slice(&7u32.to_le_bytes());
    bytes[0x014] = 60;
    bytes[0x015] = 1;
    bytes[0x018..0x01C].copy_from_slice(&90u32.to_le_bytes());
    bytes[0x01C..0x01E].copy_from_slice(&1u16.to_le_bytes());
    bytes[0x020..0x024].copy_from_slice(&0x0000_0111u32.to_le_bytes());
    bytes[0x0C4..0x0C4 + 14].copy_from_slice(b"SUPER MARIO 64");
    bytes[0x0E4..0x0E8].copy_from_slice(&0x635A_2BFFu32.to_le_bytes());
    bytes[0x0E8..0x0EA].copy_from_slice(&0x45u16.to_le_bytes());
    bytes[0x122..0x122 + 5].copy_from_slice(b"video");
    bytes[0x162..0x162 + 5].copy_from_slice(b"sound");
    bytes[0x1A2..0x1A2 + 5].copy_from_slice(b"input");
    bytes[0x1E2..0x1E2 + 3].copy_from_slice(b"rsp");
    let author = "ひとり";
    bytes[0x222..0x222 + author.len()].copy_from_slice(author.as_bytes());
    bytes[0x300..0x300 + 9].copy_from_slice(b"120 stars");
    for i in 0..90u32 {
        bytes.extend_from_slice(&(i * 0x0101_0101).to_le_bytes());
    }
    bytes
}

#[test]
fn movie_test_parsed_movie_has_same_bytes() {
    let bytes = recorded_movie();
    let raw_movie = Movie::from_bytes(&bytes).unwrap();
    let movie_bytes = raw_movie.to_bytes().unwrap();

    assert!(
        bytes.eq(&movie_bytes),
        "Parsed movie bytes should match original"
    );
}

#[test]
fn movie_test_button_state_to_bytes() {
    // DPad makes up the first 4 bits:
    let mut btn = ControllerState::default();
    btn.set_dpad_up(true);
    btn.set_dpad_down(true);
    btn.set_dpad_left(true);
    btn.set_dpad_right(true);

    let bytes = u32::from(btn).to_le_bytes();
    assert_eq!(
        bytes,
        [15, 0, 0, 0],
        "ButtonState should serialize to [15, 0, 0, 0]"
    );
}

#[test]
fn movie_test_button_state_from_bytes() {
    // DPad makes up the first 4 bits:
    let bytes: u32 = u32::from_le_bytes([15, 00, 00, 00]);
    let button_state = ControllerState::from(bytes);

    assert!(button_state.dpad_right(), "DPad Right should be pressed");
    assert!(button_state.dpad_left(), "DPad Left should be pressed");
    assert!(button_state.dpad_down(), "DPad Down should be pressed");
    assert!(button_state.dpad_up(), "DPad Up should be pressed");
}
