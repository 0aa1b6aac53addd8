use crate::regs::BURST_PACKET_LEN;
use vstd::arithmetic::div_mod::lemma_mod_multiples_vanish;
use vstd::prelude::*;

verus! {

/// Build-time axis configuration: when on, both motion axes are negated
/// before narrowing, matching the sensor's mounting orientation.
pub const SWAP_DIRECTION: bool = true;

/// One decoded motion reading: signed horizontal and vertical displacement
/// at the report's 8-bit precision. Produced fresh from each burst packet
/// and consumed immediately; never retained across polls.
#[derive(Clone, Copy, Debug, PartialEq, Eq, Structural)]
pub struct MotionData {
    pub delta_x: i8,
    pub delta_y: i8,
}

/// The unsigned value of a little-endian byte pair.
pub open spec fn le_u16(lo: u8, hi: u8) -> int {
    lo + 256 * hi
}

/// The value of a little-endian byte pair read as a two's-complement
/// 16-bit signed integer.
pub open spec fn le_i16(lo: u8, hi: u8) -> int {
    if le_u16(lo, hi) >= 32768 {
        le_u16(lo, hi) - 65536
    } else {
        le_u16(lo, hi)
    }
}

/// Truncation of an integer to signed 8-bit width: keep the low eight
/// bits, read them as two's complement. This is the narrowing the report
/// field forces on a full-width delta; it wraps rather than saturates,
/// exactly as the hardware report format does.
pub open spec fn trunc_i8(v: int) -> int {
    let low = v % 256;
    if low >= 128 {
        low - 256
    } else {
        low
    }
}

/// The narrowing policy applied to a full-width delta: negate both axes
/// when the build-time direction swap is on, then truncate to the 8-bit
/// report field.
pub open spec fn narrowed(v: int) -> int {
    if SWAP_DIRECTION {
        trunc_i8(-v)
    } else {
        trunc_i8(v)
    }
}

/// Whether byte 0 of a burst packet carries the "motion occurred" flag,
/// bit 7.
pub open spec fn motion_flag_set(packet: Seq<u8>) -> bool {
    packet[0] >= 128
}

/// The reading a twelve-byte burst packet decodes to. With the flag clear
/// the cycle saw no motion and both deltas are zero whatever the remaining
/// bytes hold; with it set, bytes 2-3 and 4-5 are the little-endian signed
/// horizontal and vertical deltas, narrowed per the configured policy.
pub open spec fn decoded_motion(packet: Seq<u8>) -> MotionData {
    if motion_flag_set(packet) {
        MotionData {
            delta_x: narrowed(le_i16(packet[2], packet[3])) as i8,
            delta_y: narrowed(le_i16(packet[4], packet[5])) as i8,
        }
    } else {
        MotionData { delta_x: 0, delta_y: 0 }
    }
}

/// The unsigned 16-bit value `raw` reinterpreted as two's-complement.
pub open spec fn signed_of_u16(raw: u16) -> int {
    if raw >= 32768 {
        raw - 65536
    } else {
        raw as int
    }
}

/// Narrow one full-width delta to the report's 8-bit field, applying the
/// configured direction swap.
fn narrow_delta(raw: u16) -> (r: i8)
    ensures
        r as int == narrowed(signed_of_u16(raw)),
{
    let value: u16 = if SWAP_DIRECTION {
        // Two's-complement negation at 16-bit width.
        if raw == 0 {
            0
        } else {
            65535 - raw + 1
        }
    } else {
        raw
    };
    let low: u8 = (value % 256) as u8;
    let r: i8 = if low >= 128 {
        ((low as i16) - 256) as i8
    } else {
        low as i8
    };
    proof {
        let s = signed_of_u16(raw);
        let t = if SWAP_DIRECTION {
            -s
        } else {
            s
        };
        // The computed 16-bit value agrees with the mathematical delta
        // modulo 256, so both truncate to the same low byte.
        assert(t == value || t == value - 65536);
        lemma_mod_multiples_vanish(-256, value as int, 256);
        assert((value - 65536) % 256 == value % 256);
        assert(trunc_i8(t) == r as int);
    }
    r
}

impl MotionData {
    /// Decode a twelve-byte burst packet into a motion reading.
    pub fn decode(packet: &[u8]) -> (r: MotionData)
        requires
            packet@.len() == BURST_PACKET_LEN,
        ensures
            r == decoded_motion(packet@),
    {
        let b0 = packet[0];
        let motion = b0 & 0x80 != 0;
        proof {
            assert((b0 & 0x80 != 0) == (b0 >= 128)) by (bit_vector);
        }
        if motion {
            let raw_x: u16 = (packet[2] as u16) + (packet[3] as u16) * 256;
            let raw_y: u16 = (packet[4] as u16) + (packet[5] as u16) * 256;
            MotionData { delta_x: narrow_delta(raw_x), delta_y: narrow_delta(raw_y) }
        } else {
            MotionData { delta_x: 0, delta_y: 0 }
        }
    }

    /// Decode a buffer that should hold a burst packet. A length other
    /// than twelve marks a malformed response from the transport binding
    /// and is rejected rather than guessed at.
    pub fn try_decode(bytes: &[u8]) -> (r: Option<MotionData>)
        ensures
            bytes@.len() == BURST_PACKET_LEN ==> r == Some(decoded_motion(bytes@)),
            bytes@.len() != BURST_PACKET_LEN ==> r is None,
    {
        if bytes.len() == BURST_PACKET_LEN {
            Some(Self::decode(bytes))
        } else {
            None
        }
    }
}

/// Law: a packet whose motion flag is clear decodes to the zero reading,
/// regardless of every remaining byte.
pub proof fn lemma_no_motion_decodes_to_zero(packet: Seq<u8>)
    requires
        packet.len() == BURST_PACKET_LEN,
        !motion_flag_set(packet),
    ensures
        decoded_motion(packet).delta_x == 0,
        decoded_motion(packet).delta_y == 0,
{
}

/// Law: with the motion flag set, the decoded reading is exactly the
/// little-endian signed 16-bit values of byte pairs (2,3) and (4,5), put
/// through the configured narrowing policy; the decode is a pure function
/// of those five bytes.
pub proof fn lemma_motion_decode_narrowing(packet: Seq<u8>)
    requires
        packet.len() == BURST_PACKET_LEN,
        motion_flag_set(packet),
    ensures
        decoded_motion(packet).delta_x as int == narrowed(le_i16(packet[2], packet[3])),
        decoded_motion(packet).delta_y as int == narrowed(le_i16(packet[4], packet[5])),
{
}

/// Law: decoding reads nothing but the flag byte and the two delta byte
/// pairs: two packets agreeing on bytes 0, 2, 3, 4 and 5 decode to the
/// same reading, whatever their other seven bytes hold.
pub proof fn lemma_decode_depends_only_on_flag_and_deltas(p: Seq<u8>, q: Seq<u8>)
    requires
        p.len() == BURST_PACKET_LEN,
        q.len() == BURST_PACKET_LEN,
        p[0] == q[0],
        p[2] == q[2],
        p[3] == q[3],
        p[4] == q[4],
        p[5] == q[5],
    ensures
        decoded_motion(p) == decoded_motion(q),
{
}

} // verus!
