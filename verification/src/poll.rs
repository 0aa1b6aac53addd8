use crate::bus::{op_address_wf, BusOp, BusOpModel};
use crate::button_data::ButtonData;
use crate::motion_data::{decoded_motion, MotionData};
use crate::mouse_report::{report_bytes, MouseReport};
use crate::regs::{BURST_PACKET_LEN, MOTION_BURST_ARM_BYTE, REG_MOTION_BURST};
use vstd::prelude::*;

verus! {

/// The operation that arms burst mode: one fixed byte written to the
/// burst register, priming the sensor to return a full packet on the next
/// read of that register. Performed once, after initialization and before
/// the first poll.
pub fn arm_burst_op() -> (r: BusOp)
    ensures
        r@ == (BusOpModel::Write {
            address: REG_MOTION_BURST,
            data: seq![MOTION_BURST_ARM_BYTE],
        }),
        op_address_wf(r@),
{
    let mut data: Vec<u8> = Vec::new();
    data.push(MOTION_BURST_ARM_BYTE);
    proof {
        assert(data@ =~= seq![MOTION_BURST_ARM_BYTE]);
    }
    BusOp::Write { address: REG_MOTION_BURST, data }
}

/// The operation one poll iteration performs: read the full twelve-byte
/// packet from the burst register.
pub fn burst_read_op() -> (r: BusOp)
    ensures
        r@ == (BusOpModel::Read { address: REG_MOTION_BURST, count: BURST_PACKET_LEN as nat }),
        op_address_wf(r@),
{
    BusOp::Read { address: REG_MOTION_BURST, count: BURST_PACKET_LEN }
}

/// The pure step of one poll iteration: decode the burst packet the bus
/// returned, merge the reading with the button snapshot sampled this
/// iteration, and yield the report to hand to the transport collaborator.
/// A response of the wrong length is a malformed packet and yields no
/// report; the next iteration simply polls afresh.
pub fn poll_step(bytes: &[u8], button_data: ButtonData) -> (r: Option<MouseReport>)
    ensures
        bytes@.len() == BURST_PACKET_LEN ==> (r matches Some(report) && report@ == report_bytes(
            decoded_motion(bytes@),
            button_data,
        )),
        bytes@.len() != BURST_PACKET_LEN ==> r is None,
{
    match MotionData::try_decode(bytes) {
        Some(motion_data) => Some(MouseReport::new(motion_data, button_data)),
        None => None,
    }
}

} // verus!
