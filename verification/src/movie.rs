//! The buttons of a controller.

use vstd::prelude::*;

verus! {

/// A button of a Mupen64 controller, in the order of the bits of an input
/// sample.
#[derive(Debug, Copy, Clone, Eq, PartialEq, Structural)]
pub enum ControllerButton {
    /// The right directional pad button.
    DPadRight,
    /// The left directional pad button.
    DPadLeft,
    /// The down directional pad button.
    DPadDown,
    /// The up directional pad button.
    DPadUp,
    /// The start button.
    Start,
    /// The Z button.
    Z,
    /// The B button.
    B,
    /// The A button.
    A,
    /// The C-right button.
    CRight,
    /// The C-left button.
    CLeft,
    /// The C-down button.
    CDown,
    /// The C-up button.
    CUp,
    /// The right trigger button.
    TriggerRight,
    /// The left trigger button.
    TriggerLeft,
    /// Reserved button 01.
    Reserved01,
    /// Reserved button 02.
    Reserved02,
}

impl ControllerButton {
    /// The position of the button's bit in an input sample, counted from the
    /// least significant bit.
    pub open spec fn spec_bit(self) -> u32 {
        match self {
            ControllerButton::DPadRight => 0,
            ControllerButton::DPadLeft => 1,
            ControllerButton::DPadDown => 2,
            ControllerButton::DPadUp => 3,
            ControllerButton::Start => 4,
            ControllerButton::Z => 5,
            ControllerButton::B => 6,
            ControllerButton::A => 7,
            ControllerButton::CRight => 8,
            ControllerButton::CLeft => 9,
            ControllerButton::CDown => 10,
            ControllerButton::CUp => 11,
            ControllerButton::TriggerRight => 12,
            ControllerButton::TriggerLeft => 13,
            ControllerButton::Reserved01 => 14,
            ControllerButton::Reserved02 => 15,
        }
    }

    /// The position of the button's bit in an input sample.
    #[verifier::when_used_as_spec(spec_bit)]
    pub fn bit(self) -> (r: u32)
        ensures
            r == self.spec_bit(),
            r < 16,
    {
        match self {
            ControllerButton::DPadRight => 0,
            ControllerButton::DPadLeft => 1,
            ControllerButton::DPadDown => 2,
            ControllerButton::DPadUp => 3,
            ControllerButton::Start => 4,
            ControllerButton::Z => 5,
            ControllerButton::B => 6,
            ControllerButton::A => 7,
            ControllerButton::CRight => 8,
            ControllerButton::CLeft => 9,
            ControllerButton::CDown => 10,
            ControllerButton::CUp => 11,
            ControllerButton::TriggerRight => 12,
            ControllerButton::TriggerLeft => 13,
            ControllerButton::Reserved01 => 14,
            ControllerButton::Reserved02 => 15,
        }
    }

    /// The button whose bit is at position `bit`, if there is one.
    pub fn from_bit(bit: u32) -> (r: Option<ControllerButton>)
        ensures
            bit < 16 <==> r is Some,
            r matches Some(b) ==> b.spec_bit() == bit,
    {
        match bit {
            0 => Some(ControllerButton::DPadRight),
            1 => Some(ControllerButton::DPadLeft),
            2 => Some(ControllerButton::DPadDown),
            3 => Some(ControllerButton::DPadUp),
            4 => Some(ControllerButton::Start),
            5 => Some(ControllerButton::Z),
            6 => Some(ControllerButton::B),
            7 => Some(ControllerButton::A),
            8 => Some(ControllerButton::CRight),
            9 => Some(ControllerButton::CLeft),
            10 => Some(ControllerButton::CDown),
            11 => Some(ControllerButton::CUp),
            12 => Some(ControllerButton::TriggerRight),
            13 => Some(ControllerButton::TriggerLeft),
            14 => Some(ControllerButton::Reserved01),
            15 => Some(ControllerButton::Reserved02),
            _ => None,
        }
    }
}

} // verus!
