use vstd::prelude::*;

verus! {

/// Snapshot of the three digital button lines, sampled once per poll
/// iteration. The lines are active-low at the pins; whoever samples them
/// hands this struct already-interpreted levels (`true` = pressed).
#[derive(Clone, Copy, Debug, PartialEq, Eq, Structural)]
pub struct ButtonData {
    pub left_click: bool,
    pub middle_click: bool,
    pub right_click: bool,
}

/// The wire byte a button snapshot packs into: bit 0 = primary (left),
/// bit 1 = auxiliary (middle), bit 2 = secondary (right). The upper five
/// bits are reserved and always zero.
pub open spec fn button_byte(b: ButtonData) -> u8 {
    ((if b.left_click {
        1int
    } else {
        0int
    }) + (if b.middle_click {
        2int
    } else {
        0int
    }) + (if b.right_click {
        4int
    } else {
        0int
    })) as u8
}

/// The button snapshot a wire byte stands for; only the low three bits
/// carry data, anything above them is ignored.
pub open spec fn buttons_of_byte(byte: u8) -> ButtonData {
    ButtonData {
        left_click: byte % 2 == 1,
        middle_click: (byte / 2) % 2 == 1,
        right_click: (byte / 4) % 2 == 1,
    }
}

impl ButtonData {
    /// Pack the three flags into the low three bits of one byte.
    pub fn encode(&self) -> (r: u8)
        ensures
            r == button_byte(*self),
            r < 8,
    {
        let mut byte: u8 = 0;
        if self.left_click {
            byte += 1;
        }
        if self.middle_click {
            byte += 2;
        }
        if self.right_click {
            byte += 4;
        }
        byte
    }

    /// Read the three flags back out of a wire byte, ignoring the reserved
    /// upper bits.
    pub fn decode(byte: u8) -> (r: ButtonData)
        ensures
            r == buttons_of_byte(byte),
    {
        ButtonData {
            left_click: byte % 2 == 1,
            middle_click: (byte / 2) % 2 == 1,
            right_click: (byte / 4) % 2 == 1,
        }
    }
}

/// Packing a button snapshot and unpacking the byte returns the original
/// snapshot, for every combination of the three flags.
pub proof fn lemma_button_decode_encode(b: ButtonData)
    ensures
        buttons_of_byte(button_byte(b)) == b,
{
}

/// Unpacking a byte whose reserved upper five bits are zero and packing the
/// result returns the same byte: the packing is a bijection on the three
/// meaningful bits.
pub proof fn lemma_button_encode_decode(byte: u8)
    requires
        byte < 8,
    ensures
        button_byte(buttons_of_byte(byte)) == byte,
{
}

} // verus!
