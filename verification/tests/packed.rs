use m64_movie::bits::{axis_byte, axis_value, flip_bit, get_bit, get_bits, set_bit, set_bits};
use m64_movie::movie::ControllerButton;
use m64_movie::raw::m64::{
    ControllerFlags, ControllerFlagsFields, ControllerState, ControllerStateFields, ExtendedFlags,
    ExtendedFlagsFields,
};
use m64_movie::{BinReadExt, BinWriteExt, MovieError};

const ALL_BUTTONS: [ControllerButton; 16] = [
    ControllerButton::DPadRight,
    ControllerButton::DPadLeft,
    ControllerButton::DPadDown,
    ControllerButton::DPadUp,
    ControllerButton::Start,
    ControllerButton::Z,
    ControllerButton::B,
    ControllerButton::A,
    ControllerButton::CRight,
    ControllerButton::CLeft,
    ControllerButton::CDown,
    ControllerButton::CUp,
    ControllerButton::TriggerRight,
    ControllerButton::TriggerLeft,
    ControllerButton::Reserved01,
    ControllerButton::Reserved02,
];

const SAMPLE_WORDS: [u32; 8] = [
    0,
    1,
    0x8000_0000,
    0xFFFF_FFFF,
    0x1234_5678,
    0x00FF_0000,
    0x7F80_FFFF,
    0xDEAD_BEEF,
];

#[test]
fn single_bits_are_read_and_written_in_place() {
    assert!(get_bit(0b100, 2));
    assert!(!get_bit(0b100, 1));
    assert!(get_bit(0x8000_0000, 31));
    assert_eq!(set_bit(0, 5, true), 0x20);
    assert_eq!(set_bit(0xFFFF_FFFF, 5, false), 0xFFFF_FFDF);
    assert_eq!(set_bit(0x20, 5, true), 0x20);
    assert_eq!(flip_bit(0x20, 5), 0);
    assert_eq!(flip_bit(0, 31), 0x8000_0000);
}

#[test]
fn bit_ranges_are_read_and_written_in_place() {
    assert_eq!(get_bits(0x1234_5678, 16, 8), 0x34);
    assert_eq!(get_bits(0x1234_5678, 24, 8), 0x12);
    assert_eq!(get_bits(0xFFFF_F000, 12, 20), 0xF_FFFF);
    assert_eq!(set_bits(0x1234_5678, 16, 8, 0xAB), 0x12AB_5678);
    assert_eq!(set_bits(0x1234_5678, 24, 8, 0x1FF), 0xFF34_5678);
    assert_eq!(set_bits(0, 0, 4, 0xFF), 0xF);
}

#[test]
fn axis_bytes_are_twos_complement() {
    assert_eq!(axis_byte(0), 0);
    assert_eq!(axis_byte(127), 0x7F);
    assert_eq!(axis_byte(-1), 0xFF);
    assert_eq!(axis_byte(-128), 0x80);
    assert_eq!(axis_value(0x80), -128);
    assert_eq!(axis_value(0xFF), -1);
    assert_eq!(axis_value(0x7F), 127);
    for byte in 0..=255u8 {
        assert_eq!(axis_byte(axis_value(byte)), byte);
    }
}

#[test]
fn buttons_have_the_bits_of_their_order() {
    for (index, button) in ALL_BUTTONS.iter().enumerate() {
        assert_eq!(button.bit(), index as u32);
        assert_eq!(ControllerButton::from_bit(index as u32), Some(*button));
        let mut state = ControllerState::default();
        state.set(*button);
        assert_eq!(state.bits, 1u32 << index);
    }
    assert_eq!(ControllerButton::from_bit(16), None);
    assert_eq!(ControllerButton::from_bit(u32::MAX), None);
}

#[test]
fn named_buttons_sit_at_their_bits() {
    let mut state = ControllerState::default();
    state.set_dpad_right(true);
    assert_eq!(state.bits, 0x0001);
    state.set_dpad_right(false);
    state.set_start_btn(true);
    assert_eq!(state.bits, 0x0010);
    state.set_start_btn(false);
    state.set_a_btn(true);
    assert_eq!(state.bits, 0x0080);
    state.set_a_btn(false);
    state.set_c_up(true);
    assert_eq!(state.bits, 0x0800);
    state.set_c_up(false);
    state.set_trigger_left(true);
    assert_eq!(state.bits, 0x2000);
    state.set_trigger_left(false);
    state.set_reserved02(true);
    assert_eq!(state.bits, 0x8000);
}

#[test]
fn axes_sit_in_the_two_high_bytes() {
    let mut state = ControllerState::default();
    state.set_x_axis(-1);
    assert_eq!(state.bits, 0x00FF_0000);
    state.set_y_axis(1);
    assert_eq!(state.bits, 0x01FF_0000);
    state.set_x_axis(0x12);
    assert_eq!(state.bits, 0x0112_0000);
    let state = ControllerState::from_bits(0x80_7F_FFFF);
    assert_eq!(state.x_axis(), 127);
    assert_eq!(state.y_axis(), -128);
}

#[test]
fn setting_a_button_keeps_every_other_bit() {
    for word in SAMPLE_WORDS {
        for (index, button) in ALL_BUTTONS.iter().enumerate() {
            let mask = 1u32 << index;
            let mut state = ControllerState::from_bits(word);
            state.set(*button);
            assert!(state.is_set(*button));
            assert_eq!(state.bits, word | mask);
            state.unset(*button);
            assert!(!state.is_set(*button));
            assert_eq!(state.bits, word & !mask);
        }
    }
}

#[test]
fn toggling_twice_restores_the_sample() {
    for word in SAMPLE_WORDS {
        for (index, button) in ALL_BUTTONS.iter().enumerate() {
            let mut state = ControllerState::from_bits(word);
            let was = state.is_set(*button);
            state.toggle(*button);
            assert_eq!(state.is_set(*button), !was);
            assert_eq!(state.bits, word ^ (1u32 << index));
            state.toggle(*button);
            assert_eq!(state.bits, word);
        }
    }
}

#[test]
fn setting_an_axis_keeps_the_buttons_and_the_other_axis() {
    let mut state = ControllerState::from_bits(0x1234_5678);
    state.set_x_axis(-2);
    assert_eq!(state.bits, 0x12FE_5678);
    state.set_y_axis(-3);
    assert_eq!(state.bits, 0xFDFE_5678);
    state.set_axis(5, 6);
    assert_eq!(state.bits, 0x0605_5678);
    assert_eq!(state.axis(), (5, 6));
}

#[test]
fn pressed_buttons_come_in_the_order_of_their_bits() {
    let state = ControllerState::from_bits(0xFFFF_0000 | 0b1000_0000_1001_0001);
    assert_eq!(
        state.get_pressed(),
        vec![
            ControllerButton::DPadRight,
            ControllerButton::Start,
            ControllerButton::A,
            ControllerButton::Reserved02,
        ]
    );
    assert!(ControllerState::default().get_pressed().is_empty());
    assert_eq!(ControllerState::from_bits(0xFFFF).get_pressed(), ALL_BUTTONS.to_vec());
}

#[test]
fn a_sample_is_its_fields() {
    for word in SAMPLE_WORDS {
        let state = ControllerState::from_bits(word);
        let fields = state.fields();
        assert_eq!(ControllerState::from_fields(fields).bits, word);
        assert_eq!(ControllerState::from_fields(fields).fields(), fields);
    }
    let fields = ControllerStateFields {
        dpad_right: true,
        dpad_left: false,
        dpad_down: false,
        dpad_up: true,
        start_btn: false,
        z_btn: true,
        b_btn: false,
        a_btn: false,
        c_right: false,
        c_left: false,
        c_down: true,
        c_up: false,
        trigger_right: false,
        trigger_left: false,
        reserved01: false,
        reserved02: true,
        x_axis: -100,
        y_axis: 100,
    };
    let state = ControllerState::from_fields(fields);
    assert_eq!(state.bits, 0x649C_8429);
    assert_eq!(state.fields(), fields);
}

#[test]
fn controller_flags_are_their_fields() {
    for word in SAMPLE_WORDS {
        let flags = ControllerFlags::from_bits(word);
        let fields = flags.fields();
        assert_eq!(fields.reserved, word >> 12);
        assert_eq!(ControllerFlags::from_fields(fields).bits, word);
        assert_eq!(ControllerFlags::from_fields(fields).into_bits(), word);
    }
    let fields = ControllerFlagsFields {
        controller_01_present: true,
        controller_02_present: false,
        controller_03_present: true,
        controller_04_present: false,
        controller_01_has_mempak: false,
        controller_02_has_mempak: true,
        controller_03_has_mempak: false,
        controller_04_has_mempak: false,
        controller_01_has_rumblepak: false,
        controller_02_has_rumblepak: false,
        controller_03_has_rumblepak: false,
        controller_04_has_rumblepak: true,
        reserved: 0xABCDE,
    };
    let flags = ControllerFlags::from_fields(fields);
    assert_eq!(flags.bits, 0xABCD_E825);
    assert_eq!(flags.fields(), fields);
    assert_eq!(flags.num_controllers_present(), 2);
}

#[test]
fn controller_flags_sit_at_their_bits() {
    let mut flags = ControllerFlags::default();
    flags.set_controller_04_present(true);
    assert_eq!(flags.bits, 0x008);
    flags.set_controller_01_has_mempak(true);
    assert_eq!(flags.bits, 0x018);
    flags.set_controller_03_has_rumblepak(true);
    assert_eq!(flags.bits, 0x418);
    flags.set_controller_04_present(false);
    assert_eq!(flags.bits, 0x410);
    let mut flags = ControllerFlags::from_bits(0xFFFF_F000);
    flags.set_controller_02_present(true);
    assert_eq!(flags.bits, 0xFFFF_F002);
    assert_eq!(ControllerFlags::from_bits(0xF).num_controllers_present(), 4);
    assert_eq!(ControllerFlags::from_bits(0xFFFF_FFF0).num_controllers_present(), 0);
}

#[test]
fn extended_flags_are_their_fields() {
    for byte in 0..=255u8 {
        let flags = ExtendedFlags::from_bits(byte);
        let fields = flags.fields();
        assert_eq!(fields.wiivc_emulation_mode, byte & 1 == 1);
        assert_eq!(fields.reserved, byte >> 1);
        assert_eq!(ExtendedFlags::from_fields(fields).bits, byte);
        assert_eq!(u8::from(flags), byte);
        assert_eq!(ExtendedFlags::from(byte), flags);
    }
    let mut flags = ExtendedFlags::from_bits(0xFE);
    flags.set_wiivc_emulation_mode(true);
    assert_eq!(flags.bits, 0xFF);
    flags.set_wiivc_emulation_mode(false);
    assert_eq!(flags.bits, 0xFE);
    let fields = ExtendedFlagsFields { wiivc_emulation_mode: true, reserved: 0x40 };
    assert_eq!(ExtendedFlags::from_fields(fields).into_bits(), 0x81);
}

#[test]
fn packed_words_are_written_low_byte_first() {
    assert_eq!(
        ControllerFlags::from_bits(0x1234_5678).to_bytes().unwrap(),
        vec![0x78, 0x56, 0x34, 0x12]
    );
    assert_eq!(
        ControllerState::from_bits(0x0102_0304).to_bytes().unwrap(),
        vec![0x04, 0x03, 0x02, 0x01]
    );
    assert_eq!(ExtendedFlags::from_bits(0x81).to_bytes().unwrap(), vec![0x81]);
    assert_eq!(
        ControllerFlags::from_bytes(&[0x78, 0x56, 0x34, 0x12, 0xFF]).unwrap().bits,
        0x1234_5678
    );
    assert_eq!(ControllerState::try_from(&[1u8, 0, 0, 0x80][..]).unwrap().bits, 0x8000_0001);
    assert_eq!(ExtendedFlags::from_bytes(&[3]).unwrap().bits, 3);
    assert!(matches!(ControllerFlags::from_bytes(&[1, 2, 3]), Err(MovieError::TruncatedInput)));
    assert!(matches!(ControllerState::from_bytes(&[]), Err(MovieError::TruncatedInput)));
    assert!(matches!(ExtendedFlags::from_bytes(&[]), Err(MovieError::TruncatedInput)));
}
