use m64_movie::movie::ControllerButton;
use m64_movie::parsed::m64::Movie;
use m64_movie::raw::m64::{
    ControllerFlags, ControllerState, ExtendedData, ExtendedFlags, MovieStartType,
};
use m64_movie::raw::RawMovie;
use m64_movie::shared::Reserved;
use m64_movie::{BinReadExt, BinWriteExt, MovieError};

/// Writes a string into a field of a header.
fn put_text(bytes: &mut [u8], offset: usize, text: &str) {
    bytes[offset..offset + text.len()].copy_from_slice(text.as_bytes());
}

/// A movie of one controller with the given input samples, as a file.
fn movie_file(uid: u32, rom: &str, author: &str, inputs: &[u32]) -> Vec<u8> {
    let mut bytes = vec![0u8; 0x400];
    bytes[0..4].copy_from_slice(b"M64\x1A");
    bytes[0x004..0x008].copy_from_slice(&3u32.to_le_bytes());
    bytes[0x008..0x00C].copy_from_slice(&uid.to_le_bytes());
    bytes[0x00C..0x010].copy_from_slice(&(inputs.len() as u32).to_le_bytes());
    bytes[0x010..0x014].copy_from_slice(&1234u32.to_le_bytes());
    bytes[0x014] = 60;
    bytes[0x015] = 1;
    bytes[0x018..0x01C].copy_from_slice(&(inputs.len() as u32).to_le_bytes());
    bytes[0x01C..0x01E].copy_from_slice(&2u16.to_le_bytes());
    bytes[0x020..0x024].copy_from_slice(&1u32.to_le_bytes());
    put_text(&mut bytes, 0x0C4, rom);
    bytes[0x0E4..0x0E8].copy_from_slice(&0x635A_2BFFu32.to_le_bytes());
    bytes[0x0E8..0x0EA].copy_from_slice(&0x45u16.to_le_bytes());
    put_text(&mut bytes, 0x122, "Jabo's Direct3D8 1.6");
    put_text(&mut bytes, 0x162, "Jabo's DirectSound 1.6");
    put_text(&mut bytes, 0x1A2, "TAS Input Plugin 0.6");
    put_text(&mut bytes, 0x1E2, "RSP emulation Plugin");
    put_text(&mut bytes, 0x222, author);
    put_text(&mut bytes, 0x300, "A run of all 120 stars");
    for input in inputs {
        bytes.extend_from_slice(&input.to_le_bytes());
    }
    bytes
}

fn star_movie() -> Vec<u8> {
    let inputs: Vec<u32> = (0..600u32).map(|i| (i * 2654435761u32) ^ (i << 16)).collect();
    movie_file(0x4E2A_9C01, "SUPER MARIO 64", "many authors", &inputs)
}

fn key_movie() -> Vec<u8> {
    movie_file(0x0BAD_CAFE, "SUPER MARIO 64", "someone", &[0x0000_0080, 0, 0x7F00_0010])
}

/// An error as text.
fn shown(e: &MovieError) -> String {
    format!("{:?}", e)
}

/// Replaces a section of a byte slice with new bytes at the specified offset.
fn replace_bytes(bytes: &mut [u8], offset: usize, new_bytes: &[u8]) -> Result<(), String> {
    if offset + new_bytes.len() > bytes.len() {
        return Err("Replacement exceeds byte slice length".to_string());
    }

    bytes[offset..offset + new_bytes.len()].copy_from_slice(new_bytes);
    Ok(())
}

#[test]
fn m64_test_parsed_movie_has_same_bytes() {
    for bytes in [star_movie(), key_movie()] {
        let raw_movie = RawMovie::from_bytes(&bytes).unwrap();
        let movie_bytes = raw_movie.to_bytes().unwrap();

        assert!(
            bytes.eq(&movie_bytes),
            "Parsed movie bytes should match original"
        );
    }
}

#[test]
fn test_movie_parsing_basic_properties() {
    for bytes in [star_movie(), key_movie()] {
        let movie = RawMovie::from_bytes(&bytes).unwrap();

        // Check basic properties
        assert_eq!(movie.version, 3);
        assert_eq!(movie.controller_count, 1);
        assert_ne!(movie.uid, 0);
        assert!(movie.vis_per_second > 0);
        assert!(!movie.inputs.is_empty());
    }
}

#[test]
fn test_movie_inputs_grouped() {
    let movie = RawMovie::from_bytes(&star_movie()).unwrap();
    let grouped = movie.controller_inputs_stream();

    // Should have the correct number of groups
    assert_eq!(
        grouped.len(),
        movie.inputs.len() / movie.controller_count as usize
    );

    // Each group should have the correct number of controllers
    for group in grouped {
        assert_eq!(group.iter().count(), movie.controller_count as usize);
    }
}

#[test]
fn m64_test_button_state_to_bytes() {
    // DPad makes up the first 4 bits:
    let mut btn = ControllerState::default();
    btn.set_dpad_up(true);
    btn.set_dpad_down(true);
    btn.set_dpad_left(true);
    btn.set_dpad_right(true);

    let bytes = u32::from(btn).to_le_bytes();
    assert_eq!(
        bytes,
        [15, 0, 0, 0],
        "ButtonState should serialize to [15, 0, 0, 0]"
    );
}

#[test]
fn m64_test_button_state_from_bytes() {
    // DPad makes up the first 4 bits:
    let bytes: u32 = u32::from_le_bytes([15, 0, 0, 0]);
    let button_state = ControllerState::from(bytes);

    assert!(button_state.dpad_right(), "DPad Right should be pressed");
    assert!(button_state.dpad_left(), "DPad Left should be pressed");
    assert!(button_state.dpad_down(), "DPad Down should be pressed");
    assert!(button_state.dpad_up(), "DPad Up should be pressed");
}

#[test]
fn test_controller_state_default() {
    let state = ControllerState::default();

    // All buttons should be unpressed by default
    assert!(!state.dpad_right());
    assert!(!state.dpad_left());
    assert!(!state.dpad_down());
    assert!(!state.dpad_up());
    assert!(!state.start_btn());
    assert!(!state.z_btn());
    assert!(!state.b_btn());
    assert!(!state.a_btn());
    assert!(!state.c_right());
    assert!(!state.c_left());
    assert!(!state.c_down());
    assert!(!state.c_up());
    assert!(!state.trigger_right());
    assert!(!state.trigger_left());
    assert!(!state.reserved01());
    assert!(!state.reserved02());

    // Axes should be centered
    assert_eq!(state.x_axis(), 0);
    assert_eq!(state.y_axis(), 0);
}

#[test]
fn test_controller_state_button_operations() {
    let mut state = ControllerState::default();

    // Test setting buttons
    state.set(ControllerButton::A);
    assert!(state.is_set(ControllerButton::A));
    assert!(!state.is_set(ControllerButton::B));

    state.set(ControllerButton::B);
    assert!(state.is_set(ControllerButton::A));
    assert!(state.is_set(ControllerButton::B));

    // Test unsetting buttons
    state.unset(ControllerButton::A);
    assert!(!state.is_set(ControllerButton::A));
    assert!(state.is_set(ControllerButton::B));

    // Test toggling buttons
    state.toggle(ControllerButton::Start);
    assert!(state.is_set(ControllerButton::Start));
    state.toggle(ControllerButton::Start);
    assert!(!state.is_set(ControllerButton::Start));
}

#[test]
fn test_controller_state_axis_operations() {
    let mut state = ControllerState::default();

    // Test setting individual axes
    state.set_x_axis(127);
    state.set_y_axis(-128);

    assert_eq!(state.x_axis(), 127);
    assert_eq!(state.y_axis(), -128);

    // Test setting both axes at once
    state.set_axis(-64, 64);
    assert_eq!(state.axis(), (-64, 64));
}

#[test]
fn test_controller_state_get_pressed() {
    let mut state = ControllerState::default();

    // Set some buttons
    state.set(ControllerButton::A);
    state.set(ControllerButton::B);
    state.set(ControllerButton::Start);
    state.set(ControllerButton::DPadUp);

    let pressed = state.get_pressed();

    assert!(pressed.contains(&ControllerButton::A));
    assert!(pressed.contains(&ControllerButton::B));
    assert!(pressed.contains(&ControllerButton::Start));
    assert!(pressed.contains(&ControllerButton::DPadUp));
    assert!(!pressed.contains(&ControllerButton::Z));
}

#[test]
fn test_extended_flags() {
    let mut flags = ExtendedFlags::default();

    // Test default state
    assert!(!flags.wiivc_emulation_mode());

    // Test setting WiiVC emulation mode
    flags.set_wiivc_emulation_mode(true);
    assert!(flags.wiivc_emulation_mode());

    flags.set_wiivc_emulation_mode(false);
    assert!(!flags.wiivc_emulation_mode());
}

#[test]
fn test_controller_flags() {
    let mut flags = ControllerFlags::default();

    // Test default state
    assert!(!flags.controller_01_present());
    assert!(!flags.controller_02_present());
    assert!(!flags.controller_03_present());
    assert!(!flags.controller_04_present());

    // Test setting controllers
    flags.set_controller_01_present(true);
    flags.set_controller_02_present(true);

    assert!(flags.controller_01_present());
    assert!(flags.controller_02_present());
    assert!(!flags.controller_03_present());
    assert!(!flags.controller_04_present());

    // Test controller count
    assert_eq!(flags.num_controllers_present(), 2);

    // Test memory pack flags
    flags.set_controller_01_has_mempak(true);
    assert!(flags.controller_01_has_mempak());

    // Test rumble pack flags
    flags.set_controller_02_has_rumblepak(true);
    assert!(flags.controller_02_has_rumblepak());
}

#[test]
fn test_movie_start_types() {
    let pairs = [
        (MovieStartType::Snapshot, 1u16),
        (MovieStartType::PowerOn, 2u16),
        (MovieStartType::EEPROM, 4u16),
    ];

    for (start_type, expected_value) in pairs.iter() {
        let actual_bytes = start_type.to_bytes().expect("Failed to write bytes");
        assert!(
            actual_bytes.eq(&expected_value.to_le_bytes()),
            "Bytes do not match"
        );
    }
}

#[test]
fn test_extended_data() {
    let mut data = ExtendedData {
        authorship_info: 0,
        bruteforce_data: 0,
        rerecord_count_high: 0,
        reserved: Reserved { reserved: [0; 20] },
    };

    // Test default values
    assert_eq!(data.authorship_info, 0);
    assert_eq!(data.bruteforce_data, 0);
    assert_eq!(data.rerecord_count_high, 0);

    // Test setting values
    data.authorship_info = 12345;
    data.bruteforce_data = 67890;
    data.rerecord_count_high = 11111;

    assert_eq!(data.authorship_info, 12345);
    assert_eq!(data.bruteforce_data, 67890);
    assert_eq!(data.rerecord_count_high, 11111);
}

#[test]
fn test_movie_rom_info() {
    let movie = RawMovie::from_bytes(&star_movie()).unwrap();

    // ROM name should be ASCII and not empty
    let rom_name = movie.rom_name.to_string();
    assert!(!rom_name.is_empty());
    assert!(rom_name.is_ascii());

    // CRC32 should be non-zero
    assert_ne!(movie.rom_crc32, 0);
    assert!(movie.rom_country > 0);
}

#[test]
fn test_movie_plugin_names() {
    let movie = RawMovie::from_bytes(&star_movie()).unwrap();

    // All plugin names should be ASCII
    assert!(movie.video_plugin.to_string().is_ascii());
    assert!(movie.sound_plugin.to_string().is_ascii());
    assert!(movie.input_plugin.to_string().is_ascii());
    assert!(movie.rsp_plugin.to_string().is_ascii());
}

#[test]
fn test_movie_author_info() {
    let movie = RawMovie::from_bytes(&star_movie()).unwrap();

    // Author name and description should be ASCII
    assert!(movie.author_name.to_string().is_ascii());
    assert!(movie.description.to_string().is_ascii());
}

#[test]
fn test_invalid_magic() {
    let mut invalid_bytes = star_movie();

    // Change the magic bytes
    invalid_bytes[0..4].copy_from_slice(b"INV\x1A");

    let result = RawMovie::from_bytes(&invalid_bytes);
    assert!(result.is_err());
}

#[test]
fn test_invalid_version() {
    let mut invalid_bytes = star_movie();

    // Change version to something other than 3
    invalid_bytes[4..8].copy_from_slice(&2u32.to_le_bytes());

    let result = RawMovie::from_bytes(&invalid_bytes);
    assert!(result.is_err());
}

#[test]
fn test_movie_roundtrip() {
    let original_movie = RawMovie::from_bytes(&star_movie()).unwrap();
    let movie_bytes = original_movie.to_bytes().unwrap();
    let roundtrip_movie = RawMovie::from_bytes(&movie_bytes).unwrap();

    // The movies should be identical
    assert_eq!(original_movie, roundtrip_movie);
}

#[test]
fn test_ext_version_cases() -> Result<(), String> {
    let mut bytes = star_movie();

    let movie =
        RawMovie::from_bytes(&bytes).map_err(|e| format!("Failed to parse movie: {}", shown(&e)))?;
    assert_eq!(movie.extended_version, 0, "Initial ext_version should be 0");

    // Set the extended version to 1
    replace_bytes(
        &mut bytes,
        0x16, // Offset for extended version
        &1u8.to_le_bytes(),
    )?;

    let movie =
        RawMovie::from_bytes(&bytes).map_err(|e| format!("Failed to parse movie: {}", shown(&e)))?;
    assert_eq!(movie.extended_version, 1, "Extended version should be 1");

    // Set the extended flags to enable WiiVC emulation mode.
    // This should be valid for ext_version 1.
    let mut ext_flags = ExtendedFlags::default();
    ext_flags.set_wiivc_emulation_mode(true);

    let ext_flags_bytes = ext_flags
        .to_bytes()
        .map_err(|e| format!("Failed to serialize ExtendedFlags: {}", shown(&e)))?;

    replace_bytes(
        &mut bytes,
        0x17, // Offset for extended flags
        &ext_flags_bytes,
    )?;

    let movie =
        RawMovie::from_bytes(&bytes).map_err(|e| format!("Failed to parse movie: {}", shown(&e)))?;
    assert_eq!(
        movie.extended_flags, ext_flags,
        "Extended flags should match after modification"
    );

    // Now set the extended version to 0, which should not be valid.
    replace_bytes(
        &mut bytes,
        0x16, // Offset for extended version
        &0u8.to_le_bytes(),
    )?;

    let movie = RawMovie::from_bytes(&bytes);
    assert!(
        movie.is_err(),
        "RawMovie should not parse with ext_version 1"
    );

    Ok(())
}

#[test]
fn test_parsed_from_raw_movie() {
    let raw_movie = RawMovie::from_bytes(&star_movie()).unwrap();
    let parsed_movie: Movie = raw_movie.clone().try_into().unwrap();

    // Metadata checks
    assert_eq!(parsed_movie.metadata.version, raw_movie.version);
    assert_eq!(
        parsed_movie.metadata.extended_version,
        raw_movie.extended_version
    );
    assert_eq!(
        parsed_movie.metadata.extended_flags,
        raw_movie.extended_flags
    );
    assert_eq!(parsed_movie.metadata.extended_data, raw_movie.extended_data);

    // Game info checks
    assert_eq!(
        parsed_movie.game_info.rom_name.to_string(),
        raw_movie.rom_name.to_string()
    );
    assert_eq!(parsed_movie.game_info.rom_crc32, raw_movie.rom_crc32);
    assert_eq!(parsed_movie.game_info.rom_country, raw_movie.rom_country);

    // Plugin info checks
    assert_eq!(
        parsed_movie.plugin_info.video_plugin.to_string(),
        raw_movie.video_plugin.to_string()
    );
    assert_eq!(
        parsed_movie.plugin_info.sound_plugin.to_string(),
        raw_movie.sound_plugin.to_string()
    );
    assert_eq!(
        parsed_movie.plugin_info.input_plugin.to_string(),
        raw_movie.input_plugin.to_string()
    );
    assert_eq!(
        parsed_movie.plugin_info.rsp_plugin.to_string(),
        raw_movie.rsp_plugin.to_string()
    );

    // Recording info checks
    assert_eq!(
        parsed_movie.recording_info.author_name.to_string(),
        raw_movie.author_name.to_string()
    );
    assert_eq!(
        parsed_movie.recording_info.description.to_string(),
        raw_movie.description.to_string()
    );
    assert_eq!(parsed_movie.recording_info.uid, raw_movie.uid);
    assert_eq!(
        parsed_movie.recording_info.vertical_interrupts,
        raw_movie.vertical_interrupts
    );
    assert_eq!(
        parsed_movie.recording_info.rerecord_count,
        raw_movie.rerecord_count
    );
    assert_eq!(
        parsed_movie.recording_info.vis_per_second,
        raw_movie.vis_per_second
    );
    assert_eq!(
        parsed_movie.recording_info.controller_count,
        raw_movie.controller_count
    );
    assert_eq!(
        parsed_movie.recording_info.controller_input_samples,
        raw_movie.controller_input_samples
    );
    assert_eq!(
        parsed_movie.recording_info.controller_flags,
        raw_movie.controller_flags
    );
    assert_eq!(parsed_movie.recording_info.start_type, raw_movie.start_type);

    // Inputs checks
    assert_eq!(parsed_movie.inputs, raw_movie.inputs);
}
