use crate::button_data::{button_byte, ButtonData};
use crate::motion_data::MotionData;
use vstd::prelude::*;

verus! {

/// The fixed four-byte input report handed to the transport collaborator:
/// byte 0 = button mask, byte 1 = horizontal delta, byte 2 = vertical
/// delta (both two's complement), byte 3 = reserved wheel field, always
/// zero. Immutable once constructed.
pub struct MouseReport {
    bytes: [u8; 4],
}

impl View for MouseReport {
    type V = Seq<u8>;

    closed spec fn view(&self) -> Seq<u8> {
        self.bytes@
    }
}

/// The wire byte of a signed 8-bit delta: its two's-complement image.
pub open spec fn u8_of_i8(v: i8) -> u8 {
    if v >= 0 {
        v as u8
    } else {
        (v + 256) as u8
    }
}

/// The signed 8-bit delta a wire byte stands for.
pub open spec fn i8_of_u8(v: u8) -> i8 {
    if v < 128 {
        v as i8
    } else {
        (v - 256) as i8
    }
}

/// The wire bytes of the report a reading and a button mask merge into.
pub open spec fn report_bytes(motion: MotionData, buttons: ButtonData) -> Seq<u8> {
    seq![button_byte(buttons), u8_of_i8(motion.delta_x), u8_of_i8(motion.delta_y), 0u8]
}

/// Wire byte of one signed delta.
fn delta_byte(v: i8) -> (r: u8)
    ensures
        r == u8_of_i8(v),
{
    if v >= 0 {
        v as u8
    } else {
        ((v as i16) + 256) as u8
    }
}

impl MouseReport {
    /// Merge a motion reading and a button snapshot into the fixed-layout
    /// report. Total: every reading and every mask encode successfully.
    pub fn new(motion_data: MotionData, button_data: ButtonData) -> (r: Self)
        ensures
            r@ == report_bytes(motion_data, button_data),
            r@.len() == 4,
            r@[3] == 0,
            r@[0] < 8,
    {
        let bytes: [u8; 4] = [
            button_data.encode(),
            delta_byte(motion_data.delta_x),
            delta_byte(motion_data.delta_y),
            0,
        ];
        let r = MouseReport { bytes };
        proof {
            assert(r@ =~= report_bytes(motion_data, button_data));
        }
        r
    }

    /// The report's wire bytes, as the transport transmits them.
    pub fn as_bytes(&self) -> (r: &[u8; 4])
        ensures
            r@ == self@,
    {
        &self.bytes
    }
}

/// Law: every encoded report is exactly four bytes long, its reserved
/// wheel byte is zero, and the five reserved bits above the button mask
/// are zero.
pub proof fn lemma_report_well_formed(motion: MotionData, buttons: ButtonData)
    ensures
        report_bytes(motion, buttons).len() == 4,
        report_bytes(motion, buttons)[3] == 0,
        report_bytes(motion, buttons)[0] < 8,
{
}

/// Law: a delta byte decodes back to the delta it encodes, and encoding
/// the decoded value of any byte returns that byte: the report's delta
/// fields lose nothing.
pub proof fn lemma_delta_byte_round_trip(v: i8, b: u8)
    ensures
        i8_of_u8(u8_of_i8(v)) == v,
        u8_of_i8(i8_of_u8(b)) == b,
{
}

/// The wire-level report descriptor the transport advertises for this
/// format: three button bits, five constant padding bits, then three
/// signed 8-bit relative axes (horizontal, vertical, wheel), each ranged
/// -127..127. Fixed at build time and never recomputed.
pub open spec fn hid_descriptor_bytes() -> Seq<u8> {
    seq![
        0x05u8, 0x01,  // usage page: generic desktop
        0x09, 0x02,  // usage: mouse
        0xa1, 0x01,  // collection: application
        0x09, 0x01,  // usage: pointer
        0xa1, 0x00,  // collection: physical
        0x05, 0x09,  // usage page: button
        0x19, 0x01,  // usage minimum: button 1
        0x29, 0x03,  // usage maximum: button 3
        0x15, 0x00,  // logical minimum: 0
        0x25, 0x01,  // logical maximum: 1
        0x95, 0x03,  // report count: 3
        0x75, 0x01,  // report size: 1
        0x81, 0x02,  // input: data, variable, absolute
        0x95, 0x01,  // report count: 1
        0x75, 0x05,  // report size: 5
        0x81, 0x01,  // input: constant padding
        0x05, 0x01,  // usage page: generic desktop
        0x09, 0x30,  // usage: x
        0x09, 0x31,  // usage: y
        0x09, 0x38,  // usage: wheel
        0x15, 0x81,  // logical minimum: -127
        0x25, 0x7f,  // logical maximum: 127
        0x75, 0x08,  // report size: 8
        0x95, 0x03,  // report count: 3
        0x81, 0x06,  // input: data, variable, relative
        0xc0,  // end collection
        0xc0,  // end collection
    ]
}

/// The descriptor as bytes for the transport collaborator to advertise.
pub fn hid_descriptor() -> (r: [u8; 52])
    ensures
        r@ == hid_descriptor_bytes(),
{
    let r: [u8; 52] = [
        0x05, 0x01, 0x09, 0x02, 0xa1, 0x01, 0x09, 0x01, 0xa1, 0x00, 0x05, 0x09, 0x19, 0x01, 0x29,
        0x03, 0x15, 0x00, 0x25, 0x01, 0x95, 0x03, 0x75, 0x01, 0x81, 0x02, 0x95, 0x01, 0x75, 0x05,
        0x81, 0x01, 0x05, 0x01, 0x09, 0x30, 0x09, 0x31, 0x09, 0x38, 0x15, 0x81, 0x25, 0x7f, 0x75,
        0x08, 0x95, 0x03, 0x81, 0x06, 0xc0, 0xc0,
    ];
    proof {
        assert(r@ =~= hid_descriptor_bytes());
    }
    r
}

} // verus!
