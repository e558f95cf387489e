//! Properties that relate the packet operations to one another, stated over
//! the spec functions that their contracts use.
use vstd::prelude::*;

use crate::layout::{Button, StickAxis, Trigger, HEADER, LENGTH};
use crate::packet::{
    bit_is_set, button_pressed, byte_sum, checksum_of, is_valid_frame, signed, Packet, Sticks,
    Triggers,
};

verus! {

/// The checksum is the sum of bytes 0 to 8, in order, taken modulo 256.
pub proof fn lemma_checksum_is_wrapped_sum(f: Seq<u8>)
    requires
        f.len() == LENGTH,
    ensures
        checksum_of(f) as int == (f[0] + f[1] + f[2] + f[3] + f[4] + f[5] + f[6] + f[7] + f[8])
            % 256,
{
    reveal_with_fuel(byte_sum, 10);
}

/// Replacing byte `i` by `x` moves the sum of the first `n` bytes by the
/// difference when `i` is among them, and leaves it alone otherwise.
proof fn lemma_byte_sum_update(s: Seq<u8>, i: int, x: u8, n: nat)
    requires
        0 <= i < s.len(),
        n <= s.len(),
    ensures
        byte_sum(s.update(i, x), n) == byte_sum(s, n) + (if i < n {
            x - s[i]
        } else {
            0
        }),
    decreases n,
{
    if n > 0 {
        lemma_byte_sum_update(s, i, x, (n - 1) as nat);
    }
}

/// A frame with the header byte first, completed with the checksum computed
/// from it, always passes validation.
pub proof fn lemma_completed_frame_is_valid(f: Seq<u8>, c: u8)
    requires
        f.len() == LENGTH,
        f[0] == HEADER,
        c == checksum_of(f),
    ensures
        is_valid_frame(f.update(9, c)),
{
    lemma_byte_sum_update(f, 9, c, 9);
}

/// Changing any single byte of a valid frame, the header, a data byte or the
/// checksum, makes it fail validation.
pub proof fn lemma_single_byte_change_is_detected(f: Seq<u8>, i: int, x: u8)
    requires
        is_valid_frame(f),
        0 <= i < LENGTH,
        x != f[i],
    ensures
        !is_valid_frame(f.update(i, x)),
{
    lemma_byte_sum_update(f, i, x, 9);
}

/// Each button owns one of the sixteen bits of the button word, and no two
/// buttons share a bit.
pub proof fn lemma_button_bits_distinct(a: Button, b: Button)
    ensures
        a.bit() < 16,
        a.bit() == b.bit() ==> a == b,
{
}

/// The frame `f` with the bit of button `u` set to `on`, other bits unchanged.
pub open spec fn with_button(f: Seq<u8>, u: Button, on: bool) -> Seq<u8> {
    if u.bit() < 8 {
        f.update(2, set_bit(f[2], u.bit(), on))
    } else {
        f.update(1, set_bit(f[1], (u.bit() - 8) as u8, on))
    }
}

/// The byte `b` with bit `i` set to `on`.
pub open spec fn set_bit(b: u8, i: u8, on: bool) -> u8 {
    if on {
        b | (1u8 << i)
    } else {
        b & !(1u8 << i)
    }
}

proof fn lemma_set_bit(b: u8, i: u8, j: u8, on: bool)
    by (bit_vector)
    requires
        i < 8,
        j < 8,
    ensures
        bit_is_set(set_bit(b, i, on), i) == on,
        i != j ==> bit_is_set(set_bit(b, i, on), j) == bit_is_set(b, j),
{
}

/// Setting or clearing the bit of one button changes what that button reads
/// as, and no other button.
pub proof fn lemma_button_independent(f: Seq<u8>, u: Button, on: bool, t: Button)
    requires
        f.len() == LENGTH,
    ensures
        button_pressed(with_button(f, u, on), t) == if t == u {
            on
        } else {
            button_pressed(f, t)
        },
{
    let ub: u8 = if u.bit() < 8 { u.bit() } else { (u.bit() - 8) as u8 };
    let tb: u8 = if t.bit() < 8 { t.bit() } else { (t.bit() - 8) as u8 };
    lemma_button_bits_distinct(u, t);
    lemma_set_bit(f[1], ub, tb, on);
    lemma_set_bit(f[2], ub, tb, on);
}

/// What `get_sticks` reports for a packet holds, field by field, the value that
/// `get_stick_axis` reports for each axis.
pub proof fn lemma_sticks_agree_with_axes(p: Packet, s: Sticks, a: StickAxis)
    requires
        s.rx == signed(p@[3]),
        s.ry == signed(p@[4]),
        s.lx == signed(p@[5]),
        s.ly == signed(p@[6]),
    ensures
        s.axis(a) == signed(p@[a.offset()]),
{
}

/// What `get_triggers` reports for a packet holds, field by field, the value
/// that `get_trigger` reports for each trigger.
pub proof fn lemma_triggers_agree_with_trigger(p: Packet, r: Triggers, t: Trigger)
    requires
        r.r2 == p@[7],
        r.l2 == p@[8],
    ensures
        r.trigger(t) == p@[t.offset()],
{
}

} // verus!
