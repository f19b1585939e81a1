//! What one controller reports for one frame, and the 32-bit word that
//! stores it.

use vstd::prelude::*;
use crate::wire::has_bit;
use crate::wire::le_byte;
use crate::wire::signed8;
use crate::wire::unsigned8;

verus! {

/// The state of one controller during one frame: fourteen buttons and the
/// two axes of the analog stick.
#[derive(Clone, Copy, Debug, PartialEq, Eq, Structural)]
pub struct Input {
    pub r_dpad: bool,
    pub l_dpad: bool,
    pub d_dpad: bool,
    pub u_dpad: bool,
    pub start: bool,
    pub z_trig: bool,
    pub b_button: bool,
    pub a_button: bool,
    pub c_right: bool,
    pub c_left: bool,
    pub c_down: bool,
    pub c_up: bool,
    pub r_trig: bool,
    pub l_trig: bool,
    pub x: i8,
    pub y: i8,
}

/// What a button adds to the word: the weight of its bit while it is held.
pub open spec fn bit_value(held: bool, weight: int) -> int {
    if held {
        weight
    } else {
        0
    }
}

impl Input {
    /// The state with no button held and the stick at rest.
    pub open spec fn neutral() -> Input {
        Input {
            r_dpad: false,
            l_dpad: false,
            d_dpad: false,
            u_dpad: false,
            start: false,
            z_trig: false,
            b_button: false,
            a_button: false,
            c_right: false,
            c_left: false,
            c_down: false,
            c_up: false,
            r_trig: false,
            l_trig: false,
            x: 0,
            y: 0,
        }
    }

    /// The state that the sample word `w` records.  Bits 0 to 13 are the
    /// buttons, bits 14 and 15 mean nothing, the third byte is the X axis and
    /// the fourth the Y axis, both signed.
    pub open spec fn spec_from_word(w: u32) -> Input {
        Input {
            r_dpad: has_bit(w, 0x0001),
            l_dpad: has_bit(w, 0x0002),
            d_dpad: has_bit(w, 0x0004),
            u_dpad: has_bit(w, 0x0008),
            start: has_bit(w, 0x0010),
            z_trig: has_bit(w, 0x0020),
            b_button: has_bit(w, 0x0040),
            a_button: has_bit(w, 0x0080),
            c_right: has_bit(w, 0x0100),
            c_left: has_bit(w, 0x0200),
            c_down: has_bit(w, 0x0400),
            c_up: has_bit(w, 0x0800),
            r_trig: has_bit(w, 0x1000),
            l_trig: has_bit(w, 0x2000),
            x: signed8(le_byte(w, 2)),
            y: signed8(le_byte(w, 3)),
        }
    }

    /// The sample word that records this state; bits 14 and 15 are clear.
    pub open spec fn spec_to_word(self) -> u32 {
        (bit_value(self.r_dpad, 0x0001) + bit_value(self.l_dpad, 0x0002) + bit_value(
            self.d_dpad,
            0x0004,
        ) + bit_value(self.u_dpad, 0x0008) + bit_value(self.start, 0x0010) + bit_value(
            self.z_trig,
            0x0020,
        ) + bit_value(self.b_button, 0x0040) + bit_value(self.a_button, 0x0080) + bit_value(
            self.c_right,
            0x0100,
        ) + bit_value(self.c_left, 0x0200) + bit_value(self.c_down, 0x0400) + bit_value(
            self.c_up,
            0x0800,
        ) + bit_value(self.r_trig, 0x1000) + bit_value(self.l_trig, 0x2000) + 0x1_0000
            * unsigned8(self.x) + 0x100_0000 * unsigned8(self.y)) as u32
    }

    /// A word decodes to the state it was encoded from.
    #[verifier::rlimit(40)]
    pub proof fn lemma_word_round_trip(self)
        ensures
            Input::spec_from_word(self.spec_to_word()) == self,
    {
        let w = self.spec_to_word();
        let xb = unsigned8(self.x);
        let yb = unsigned8(self.y);
        let p = packed(
            self.r_dpad,
            self.l_dpad,
            self.d_dpad,
            self.u_dpad,
            self.start,
            self.z_trig,
            self.b_button,
            self.a_button,
            self.c_right,
            self.c_left,
            self.c_down,
            self.c_up,
            self.r_trig,
            self.l_trig,
            xb,
            yb,
        );
        assert(w == p as u32) by {
            reveal(packed);
        }
        lemma_packed_bits(
            self.r_dpad,
            self.l_dpad,
            self.d_dpad,
            self.u_dpad,
            self.start,
            self.z_trig,
            self.b_button,
            self.a_button,
            self.c_right,
            self.c_left,
            self.c_down,
            self.c_up,
            self.r_trig,
            self.l_trig,
            xb,
            yb,
        );
        assert(signed8(xb) == self.x && signed8(yb) == self.y);
    }

    /// The neutral state.
    pub fn new() -> (input: Input)
        ensures
            input == Input::neutral(),
    {
        Input {
            r_dpad: false,
            l_dpad: false,
            d_dpad: false,
            u_dpad: false,
            start: false,
            z_trig: false,
            b_button: false,
            a_button: false,
            c_right: false,
            c_left: false,
            c_down: false,
            c_up: false,
            r_trig: false,
            l_trig: false,
            x: 0,
            y: 0,
        }
    }

    /// Decodes one sample word.
    pub fn from_word(w: u32) -> (input: Input)
        ensures
            input == Input::spec_from_word(w),
    {
        proof {
            lemma_masks_test_bits(w);
            lemma_axis_bytes(w);
        }
        Input {
            r_dpad: (w & 0x0001) != 0,
            l_dpad: (w & 0x0002) != 0,
            d_dpad: (w & 0x0004) != 0,
            u_dpad: (w & 0x0008) != 0,
            start: (w & 0x0010) != 0,
            z_trig: (w & 0x0020) != 0,
            b_button: (w & 0x0040) != 0,
            a_button: (w & 0x0080) != 0,
            c_right: (w & 0x0100) != 0,
            c_left: (w & 0x0200) != 0,
            c_down: (w & 0x0400) != 0,
            c_up: (w & 0x0800) != 0,
            r_trig: (w & 0x1000) != 0,
            l_trig: (w & 0x2000) != 0,
            x: (w >> 16) as u8 as i8,
            y: (w >> 24) as u8 as i8,
        }
    }

    /// Encodes this state as one sample word.
    pub fn to_word(&self) -> (w: u32)
        ensures
            w == self.spec_to_word(),
    {
        let xb = self.x as u8;
        let yb = self.y as u8;
        proof {
            lemma_axis_stored(self.x);
            lemma_axis_stored(self.y);
            lemma_or_of_bits(
                self.r_dpad,
                self.l_dpad,
                self.d_dpad,
                self.u_dpad,
                self.start,
                self.z_trig,
                self.b_button,
                self.a_button,
                self.c_right,
                self.c_left,
                self.c_down,
                self.c_up,
                self.r_trig,
                self.l_trig,
                xb,
                yb,
            );
            reveal(packed);
        }
        mask_if(self.r_dpad, 0x0001) | mask_if(self.l_dpad, 0x0002) | mask_if(self.d_dpad, 0x0004)
            | mask_if(self.u_dpad, 0x0008) | mask_if(self.start, 0x0010) | mask_if(
            self.z_trig,
            0x0020,
        ) | mask_if(self.b_button, 0x0040) | mask_if(self.a_button, 0x0080) | mask_if(
            self.c_right,
            0x0100,
        ) | mask_if(self.c_left, 0x0200) | mask_if(self.c_down, 0x0400) | mask_if(
            self.c_up,
            0x0800,
        ) | mask_if(self.r_trig, 0x1000) | mask_if(self.l_trig, 0x2000) | (xb as u32) << 16 | (
        yb as u32) << 24
    }
}

/// The mask of a button while it is held, no bit otherwise.
fn mask_if(held: bool, mask: u32) -> (m: u32)
    ensures
        m == (if held {
            mask
        } else {
            0u32
        }),
{
    if held {
        mask
    } else {
        0
    }
}

/// Cutting a signed byte to an unsigned one stores it in two's complement.
proof fn lemma_axis_stored(x: i8)
    by (bit_vector)
    ensures
        x as u8 == (if x < 0 {
            (x + 0x100) as u8
        } else {
            x as u8
        }),
{
}

/// Masks that share no bit add up when they are joined, and so do bytes
/// moved to the third and fourth place.
proof fn lemma_or_of_bits(
    b0: bool,
    b1: bool,
    b2: bool,
    b3: bool,
    b4: bool,
    b5: bool,
    b6: bool,
    b7: bool,
    b8: bool,
    b9: bool,
    b10: bool,
    b11: bool,
    b12: bool,
    b13: bool,
    xb: u8,
    yb: u8,
)
    by (bit_vector)
    ensures
        (if b0 { 0x0001u32 } else { 0u32 }) | (if b1 { 0x0002u32 } else { 0u32 }) | (if b2 { 0x0004u32 } else { 0u32 }) | (if b3 { 0x0008u32 } else { 0u32 })
            | (if b4 { 0x0010u32 } else { 0u32 }) | (if b5 { 0x0020u32 } else { 0u32 }) | (if b6 { 0x0040u32 } else { 0u32 }) | (if b7 { 0x0080u32 } else { 0u32 })
            | (if b8 { 0x0100u32 } else { 0u32 }) | (if b9 { 0x0200u32 } else { 0u32 }) | (if b10 { 0x0400u32 } else { 0u32 }) | (if b11 { 0x0800u32 } else { 0u32 })
            | (if b12 { 0x1000u32 } else { 0u32 }) | (if b13 { 0x2000u32 } else { 0u32 }) | (xb as u32) << 16 | (yb as u32) << 24
            == packed(b0, b1, b2, b3, b4, b5, b6, b7, b8, b9, b10, b11, b12, b13, xb, yb),
{
}

/// Masking with a power of two tests the bit of that weight.
proof fn lemma_masks_test_bits(w: u32)
    by (bit_vector)
    ensures
        ((w & 0x0001) != 0) == ((w / 0x0001) % 2 == 1),
        ((w & 0x0002) != 0) == ((w / 0x0002) % 2 == 1),
        ((w & 0x0004) != 0) == ((w / 0x0004) % 2 == 1),
        ((w & 0x0008) != 0) == ((w / 0x0008) % 2 == 1),
        ((w & 0x0010) != 0) == ((w / 0x0010) % 2 == 1),
        ((w & 0x0020) != 0) == ((w / 0x0020) % 2 == 1),
        ((w & 0x0040) != 0) == ((w / 0x0040) % 2 == 1),
        ((w & 0x0080) != 0) == ((w / 0x0080) % 2 == 1),
        ((w & 0x0100) != 0) == ((w / 0x0100) % 2 == 1),
        ((w & 0x0200) != 0) == ((w / 0x0200) % 2 == 1),
        ((w & 0x0400) != 0) == ((w / 0x0400) % 2 == 1),
        ((w & 0x0800) != 0) == ((w / 0x0800) % 2 == 1),
        ((w & 0x1000) != 0) == ((w / 0x1000) % 2 == 1),
        ((w & 0x2000) != 0) == ((w / 0x2000) % 2 == 1),
{
}

/// Shifting a word right and cutting it to a byte takes out that byte; read
/// as signed, a byte from 0x80 on is negative.
proof fn lemma_axis_bytes(w: u32)
    by (bit_vector)
    ensures
        (w >> 16) as u8 == (w / 0x1_0000 % 0x100) as u8,
        (w >> 24) as u8 == (w / 0x100_0000 % 0x100) as u8,
        (w >> 16) as u8 as i8 == (if (w >> 16) as u8 >= 0x80u8 {
            ((w >> 16) as u8 - 0x100) as i8
        } else {
            (w >> 16) as u8 as i8
        }),
        (w >> 24) as u8 as i8 == (if (w >> 24) as u8 >= 0x80u8 {
            ((w >> 24) as u8 - 0x100) as i8
        } else {
            (w >> 24) as u8 as i8
        }),
{
}

/// The sum of the weights of the bits among `b0` to `b13` that are set, with
/// `xb` as third byte and `yb` as fourth.
#[verifier::opaque]
spec fn packed(
    b0: bool,
    b1: bool,
    b2: bool,
    b3: bool,
    b4: bool,
    b5: bool,
    b6: bool,
    b7: bool,
    b8: bool,
    b9: bool,
    b10: bool,
    b11: bool,
    b12: bool,
    b13: bool,
    xb: u8,
    yb: u8,
) -> int {
    bit_value(b0, 0x0001) + bit_value(b1, 0x0002) + bit_value(b2, 0x0004) + bit_value(b3, 0x0008)
        + bit_value(b4, 0x0010) + bit_value(b5, 0x0020) + bit_value(b6, 0x0040) + bit_value(
        b7,
        0x0080,
    ) + bit_value(b8, 0x0100) + bit_value(b9, 0x0200) + bit_value(b10, 0x0400) + bit_value(
        b11,
        0x0800,
    ) + bit_value(b12, 0x1000) + bit_value(b13, 0x2000) + 0x1_0000 * xb + 0x100_0000 * yb
}

/// In a packed word each bit and each of the two bytes can be told apart
/// again, and the word fits in 32 bits.
proof fn lemma_packed_bits(
    b0: bool,
    b1: bool,
    b2: bool,
    b3: bool,
    b4: bool,
    b5: bool,
    b6: bool,
    b7: bool,
    b8: bool,
    b9: bool,
    b10: bool,
    b11: bool,
    b12: bool,
    b13: bool,
    xb: u8,
    yb: u8,
)
    by (bit_vector)
    ensures
        ({
            let w = packed(b0, b1, b2, b3, b4, b5, b6, b7, b8, b9, b10, b11, b12, b13, xb, yb);
            &&& 0 <= w <= 0xffff_ffff
            &&& ((w / 0x0001) % 2 == 1) == b0
            &&& ((w / 0x0002) % 2 == 1) == b1
            &&& ((w / 0x0004) % 2 == 1) == b2
            &&& ((w / 0x0008) % 2 == 1) == b3
            &&& ((w / 0x0010) % 2 == 1) == b4
            &&& ((w / 0x0020) % 2 == 1) == b5
            &&& ((w / 0x0040) % 2 == 1) == b6
            &&& ((w / 0x0080) % 2 == 1) == b7
            &&& ((w / 0x0100) % 2 == 1) == b8
            &&& ((w / 0x0200) % 2 == 1) == b9
            &&& ((w / 0x0400) % 2 == 1) == b10
            &&& ((w / 0x0800) % 2 == 1) == b11
            &&& ((w / 0x1000) % 2 == 1) == b12
            &&& ((w / 0x2000) % 2 == 1) == b13
            &&& w / 0x1_0000 % 0x100 == xb
            &&& w / 0x100_0000 % 0x100 == yb
        }),
{
}

} // verus!
