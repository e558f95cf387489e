//! The validated packet and the values decoded from it.
use vstd::prelude::*;

use crate::layout::{Button, Byte, StickAxis, Trigger, HEADER, LENGTH};

verus! {

/// Sum, as an unbounded integer, of the first `n` bytes of `s`.
pub open spec fn byte_sum(s: Seq<u8>, n: nat) -> int
    decreases n,
{
    if n == 0 {
        0
    } else {
        byte_sum(s, (n - 1) as nat) + s[n - 1]
    }
}

/// The checksum that a frame must carry: the sum of bytes 0 to 8, wrapped to
/// eight bits.
pub open spec fn checksum_of(f: Seq<u8>) -> u8 {
    (byte_sum(f, 9) % 256) as u8
}

/// A frame that passes validation: ten bytes, the header constant first and
/// the checksum of the rest last.
pub open spec fn is_valid_frame(f: Seq<u8>) -> bool {
    &&& f.len() == LENGTH
    &&& f[0] == HEADER
    &&& f[9] == checksum_of(f)
}

/// Whether bit `i` of `b` is set.
pub open spec fn bit_is_set(b: u8, i: u8) -> bool {
    (b >> i) & 1u8 == 1u8
}

/// Whether the frame reports button `t` as pressed: its bit in the low byte
/// (offset 2) for bits 0 to 7, in the high byte (offset 1) for bits 8 to 15.
pub open spec fn button_pressed(f: Seq<u8>, t: Button) -> bool {
    if t.bit() < 8 {
        bit_is_set(f[2], t.bit())
    } else {
        bit_is_set(f[1], (t.bit() - 8) as u8)
    }
}

/// A byte read as a two's-complement signed value.
pub open spec fn signed(b: u8) -> int {
    if b < 128 {
        b as int
    } else {
        b - 256
    }
}

/// Analog sticks.
#[derive(Clone, Copy, Debug, PartialEq, Eq, Structural, PartialOrd, Ord)]
pub struct Sticks {
    /// X coordinate of right stick.
    pub rx: i8,
    /// Y coordinate of right stick.
    pub ry: i8,
    /// X coordinate of left stick.
    pub lx: i8,
    /// Y coordinate of left stick.
    pub ly: i8,
}

impl Sticks {
    /// The field that holds axis `a`.
    pub open spec fn axis(self, a: StickAxis) -> i8 {
        match a {
            StickAxis::RX => self.rx,
            StickAxis::RY => self.ry,
            StickAxis::LX => self.lx,
            StickAxis::LY => self.ly,
        }
    }
}

/// Trigger buttons.
#[derive(Clone, Copy, Debug, PartialEq, Eq, Structural, PartialOrd, Ord)]
pub struct Triggers {
    /// Right trigger button.
    pub r2: u8,
    /// Left trigger button.
    pub l2: u8,
}

impl Triggers {
    /// The field that holds trigger `t`.
    pub open spec fn trigger(self, t: Trigger) -> u8 {
        match t {
            Trigger::R2 => self.r2,
            Trigger::L2 => self.l2,
        }
    }
}

/// Packet validation error: a wrong header or a wrong checksum.
#[derive(Clone, Copy, Debug, PartialEq, Eq, Structural, PartialOrd, Ord)]
pub struct ValidationError;

impl ValidationError {
    /// Human-readable description of the error.
    pub fn message(&self) -> (r: &'static str)
        ensures
            r@ == "packet validation failed!"@,
    {
        "packet validation failed!"
    }
}

/// Packet data: a frame that passed validation.
#[derive(Clone, Copy, Debug, PartialEq, Eq, PartialOrd, Ord)]
pub struct Packet {
    raw: [u8; LENGTH],
}

impl View for Packet {
    type V = Seq<u8>;

    closed spec fn view(&self) -> Seq<u8> {
        self.raw@
    }
}

impl Packet {
    /// Every packet holds a frame that passed validation.
    #[verifier::type_invariant]
    spec fn inv(self) -> bool {
        is_valid_frame(self.raw@)
    }

    /// Creates an instance with raw data, which must carry the header byte
    /// first and the checksum of bytes 0 to 8 last.
    pub fn from(raw: [u8; LENGTH]) -> (r: Result<Self, ValidationError>)
        ensures
            r is Ok <==> is_valid_frame(raw@),
            r matches Ok(p) ==> p@ == raw@,
    {
        if Self::validate(&raw) {
            Ok(Self { raw })
        } else {
            Err(ValidationError)
        }
    }

    /// Gets the bit of the specified button: true if it is set.
    pub fn get_bit(&self, t: Button) -> (r: bool)
        ensures
            r == button_pressed(self@, t),
    {
        let m = t.mask();
        proof {
            lemma_mask_test(self.raw[1], t.bit());
            lemma_mask_test(self.raw[2], t.bit());
        }
        if 0xff < m {
            (self.raw[Byte::BtnHigh.offset()] & (m >> 8u16) as u8) != 0
        } else {
            (self.raw[Byte::BtnLow.offset()] & m as u8) != 0
        }
    }

    /// Gets the four stick axes, each byte read as a signed value.
    pub fn get_sticks(&self) -> (r: Sticks)
        ensures
            r.rx == signed(self@[3]),
            r.ry == signed(self@[4]),
            r.lx == signed(self@[5]),
            r.ly == signed(self@[6]),
    {
        let rx = self.raw[Byte::StickRX.offset()];
        let ry = self.raw[Byte::StickRY.offset()];
        let lx = self.raw[Byte::StickLX.offset()];
        let ly = self.raw[Byte::StickLY.offset()];
        proof {
            lemma_signed_cast(rx);
            lemma_signed_cast(ry);
            lemma_signed_cast(lx);
            lemma_signed_cast(ly);
        }
        Sticks { rx: rx as i8, ry: ry as i8, lx: lx as i8, ly: ly as i8 }
    }

    /// Gets the value of the specified stick axis, read as a signed value.
    pub fn get_stick_axis(&self, axis: StickAxis) -> (r: i8)
        ensures
            r == signed(self@[axis.offset()]),
    {
        let b = self.raw[Byte::from(axis).offset()];
        proof {
            lemma_signed_cast(b);
        }
        b as i8
    }

    /// Gets the two trigger values.
    pub fn get_triggers(&self) -> (r: Triggers)
        ensures
            r.r2 == self@[7],
            r.l2 == self@[8],
    {
        Triggers { r2: self.raw[Byte::R2.offset()], l2: self.raw[Byte::L2.offset()] }
    }

    /// Gets the value of the specified trigger.
    pub fn get_trigger(&self, trigger: Trigger) -> (r: u8)
        ensures
            r == self@[trigger.offset()],
    {
        self.raw[Byte::from(trigger).offset()]
    }

    /// Whether `raw` passes validation: header byte first, checksum last.
    pub fn validate(raw: &[u8; LENGTH]) -> (r: bool)
        ensures
            r == is_valid_frame(raw@),
    {
        if HEADER != raw[Byte::Header.offset()] {
            return false;
        }
        if Self::get_checksum(raw) != raw[Byte::Checksum.offset()] {
            return false;
        }
        true
    }

    /// The checksum of a frame: the wrapping sum of bytes 0 to 8. The last
    /// byte is not read, so a frame can be completed with this value.
    pub fn get_checksum(raw: &[u8; LENGTH]) -> (r: u8)
        ensures
            r == checksum_of(raw@),
    {
        let mut acc: u8 = 0;
        let mut i: usize = 0;
        while i < LENGTH - 1
            invariant
                i <= LENGTH - 1,
                acc == byte_sum(raw@, i as nat) % 256,
            decreases LENGTH - 1 - i,
        {
            acc = acc.wrapping_add(raw[i]);
            i = i + 1;
        }
        acc
    }
}

proof fn lemma_mask_test(b: u8, i: u8)
    by (bit_vector)
    requires
        i < 16,
    ensures
        (0xffu16 < (1u16 << i)) == (8 <= i),
        8 <= i ==> (((b & (((1u16 << i) >> 8u16) as u8)) != 0) == ((b >> ((i - 8) as u8))
            & 1u8 == 1u8)),
        i < 8 ==> (((b & ((1u16 << i) as u8)) != 0) == ((b >> i) & 1u8 == 1u8)),
{
}

proof fn lemma_signed_cast(b: u8)
    by (bit_vector)
    ensures
        b < 128 ==> (b as i8) == b,
        b >= 128 ==> (b as i8) == b - 256,
{
}

} // verus!
