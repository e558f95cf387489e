//! Frame layout: the header constant, the byte offsets of each field and the
//! identifiers that select a button bit, a stick axis or a trigger.
use vstd::prelude::*;

verus! {

/// Header byte.
pub const HEADER: u8 = 0x80;

/// Frame length in bytes.
pub const LENGTH: usize = 10;

/// Button bits.
#[derive(Clone, Copy, Debug, PartialEq, Eq, Structural, PartialOrd, Ord)]
pub enum Button {
    /// Circle button.
    Circle,
    /// Triangle button.
    Triangle,
    /// Square button.
    Square,
    /// Cross button.
    Cross,
    /// D-pad right button.
    Right,
    /// D-pad up button.
    Up,
    /// D-pad left button.
    Left,
    /// D-pad down button.
    Down,
    /// Right bumper button.
    R1,
    /// Left bumper button.
    L1,
    /// Right stick button.
    R3,
    /// Left stick button.
    L3,
    /// Center-right button.
    Options,
    /// Center-left button.
    Share,
    /// Logo button.
    PSLogo,
    /// Touchpad button.
    Touchpad,
}

impl Button {
    /// Position of the button's bit in the 16-bit button word: bits 0 to 7
    /// live in the low byte, bits 8 to 15 in the high byte.
    pub open spec fn bit(self) -> u8 {
        match self {
            Button::Circle => 0,
            Button::Triangle => 1,
            Button::Square => 2,
            Button::Cross => 3,
            Button::Right => 4,
            Button::Up => 5,
            Button::Left => 6,
            Button::Down => 7,
            Button::R1 => 8,
            Button::L1 => 9,
            Button::R3 => 10,
            Button::L3 => 11,
            Button::Options => 12,
            Button::Share => 13,
            Button::PSLogo => 14,
            Button::Touchpad => 15,
        }
    }

    /// The 16-bit mask with exactly the button's bit set.
    pub fn mask(self) -> (r: u16)
        ensures
            r == 1u16 << self.bit(),
    {
        proof {
            lemma_single_bit_masks();
        }
        match self {
            Button::Circle => 0x0001,
            Button::Triangle => 0x0002,
            Button::Square => 0x0004,
            Button::Cross => 0x0008,
            Button::Right => 0x0010,
            Button::Up => 0x0020,
            Button::Left => 0x0040,
            Button::Down => 0x0080,
            Button::R1 => 0x0100,
            Button::L1 => 0x0200,
            Button::R3 => 0x0400,
            Button::L3 => 0x0800,
            Button::Options => 0x1000,
            Button::Share => 0x2000,
            Button::PSLogo => 0x4000,
            Button::Touchpad => 0x8000,
        }
    }
}

proof fn lemma_single_bit_masks()
    by (bit_vector)
    ensures
        1u16 << 0u8 == 0x0001u16,
        1u16 << 1u8 == 0x0002u16,
        1u16 << 2u8 == 0x0004u16,
        1u16 << 3u8 == 0x0008u16,
        1u16 << 4u8 == 0x0010u16,
        1u16 << 5u8 == 0x0020u16,
        1u16 << 6u8 == 0x0040u16,
        1u16 << 7u8 == 0x0080u16,
        1u16 << 8u8 == 0x0100u16,
        1u16 << 9u8 == 0x0200u16,
        1u16 << 10u8 == 0x0400u16,
        1u16 << 11u8 == 0x0800u16,
        1u16 << 12u8 == 0x1000u16,
        1u16 << 13u8 == 0x2000u16,
        1u16 << 14u8 == 0x4000u16,
        1u16 << 15u8 == 0x8000u16,
{
}

/// Stick axis identifier.
#[derive(Clone, Copy, Debug, PartialEq, Eq, Structural, PartialOrd, Ord)]
pub enum StickAxis {
    RX,
    RY,
    LX,
    LY,
}

/// Trigger identifier.
#[derive(Clone, Copy, Debug, PartialEq, Eq, Structural, PartialOrd, Ord)]
pub enum Trigger {
    R2,
    L2,
}

/// The fields of a frame, in the order in which they are laid out. Used
/// inside the crate only.
#[derive(Clone, Copy, Debug, PartialEq, Eq, Structural, PartialOrd, Ord)]
pub enum Byte {
    Header,
    BtnHigh,
    BtnLow,
    StickRX,
    StickRY,
    StickLX,
    StickLY,
    R2,
    L2,
    Checksum,
}

impl Byte {
    pub open spec fn spec_offset(self) -> int {
        match self {
            Byte::Header => 0,
            Byte::BtnHigh => 1,
            Byte::BtnLow => 2,
            Byte::StickRX => 3,
            Byte::StickRY => 4,
            Byte::StickLX => 5,
            Byte::StickLY => 6,
            Byte::R2 => 7,
            Byte::L2 => 8,
            Byte::Checksum => 9,
        }
    }

    /// Index of the field within a frame.
    pub fn offset(self) -> (r: usize)
        ensures
            r == self.spec_offset(),
            r < LENGTH,
    {
        match self {
            Byte::Header => 0,
            Byte::BtnHigh => 1,
            Byte::BtnLow => 2,
            Byte::StickRX => 3,
            Byte::StickRY => 4,
            Byte::StickLX => 5,
            Byte::StickLY => 6,
            Byte::R2 => 7,
            Byte::L2 => 8,
            Byte::Checksum => 9,
        }
    }
}

impl StickAxis {
    /// Offset of the axis byte within a frame.
    pub open spec fn offset(self) -> int {
        match self {
            StickAxis::RX => 3,
            StickAxis::RY => 4,
            StickAxis::LX => 5,
            StickAxis::LY => 6,
        }
    }
}

impl Trigger {
    /// Offset of the trigger byte within a frame.
    pub open spec fn offset(self) -> int {
        match self {
            Trigger::R2 => 7,
            Trigger::L2 => 8,
        }
    }
}

impl From<StickAxis> for Byte {
    fn from(value: StickAxis) -> Self {
        match value {
            StickAxis::RX => Byte::StickRX,
            StickAxis::RY => Byte::StickRY,
            StickAxis::LX => Byte::StickLX,
            StickAxis::LY => Byte::StickLY,
        }
    }
}

impl vstd::std_specs::convert::FromSpecImpl<StickAxis> for Byte {
    open spec fn obeys_from_spec() -> bool {
        true
    }

    open spec fn from_spec(v: StickAxis) -> Byte {
        match v {
            StickAxis::RX => Byte::StickRX,
            StickAxis::RY => Byte::StickRY,
            StickAxis::LX => Byte::StickLX,
            StickAxis::LY => Byte::StickLY,
        }
    }
}

impl From<Trigger> for Byte {
    fn from(value: Trigger) -> Self {
        match value {
            Trigger::R2 => Byte::R2,
            Trigger::L2 => Byte::L2,
        }
    }
}

impl vstd::std_specs::convert::FromSpecImpl<Trigger> for Byte {
    open spec fn obeys_from_spec() -> bool {
        true
    }

    open spec fn from_spec(v: Trigger) -> Byte {
        match v {
            Trigger::R2 => Byte::R2,
            Trigger::L2 => Byte::L2,
        }
    }
}

} // verus!
