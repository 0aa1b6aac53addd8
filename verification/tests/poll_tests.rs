use pmw_mouse::bus::BusOp;
use pmw_mouse::button_data::ButtonData;
use pmw_mouse::poll::{arm_burst_op, burst_read_op, poll_step};
use pmw_mouse::regs::REG_MOTION_BURST;

#[test]
fn arm_op_primes_the_burst_register() {
    assert_eq!(arm_burst_op(), BusOp::Write { address: REG_MOTION_BURST, data: vec![0xFF] });
}

#[test]
fn poll_reads_a_whole_packet() {
    assert_eq!(burst_read_op(), BusOp::Read { address: REG_MOTION_BURST, count: 12 });
}

#[test]
fn poll_step_merges_motion_and_buttons() {
    let packet = [0x80, 0x00, 0x05, 0x00, 0xFE, 0xFF, 0, 0, 0, 0, 0, 0];
    let buttons = ButtonData { left_click: true, middle_click: true, right_click: false };
    let report = poll_step(&packet, buttons).expect("a twelve-byte packet yields a report");
    // deltas (5, -2) negated by the direction swap, buttons in the low bits
    assert_eq!(report.as_bytes(), &[0x03, 0xFB, 0x02, 0x00]);
}

#[test]
fn poll_step_rejects_malformed_response() {
    let buttons = ButtonData { left_click: false, middle_click: false, right_click: false };
    assert!(poll_step(&[0x80; 11], buttons).is_none());
    assert!(poll_step(&[], buttons).is_none());
}

#[test]
fn poll_step_with_no_motion_reports_buttons_only() {
    let packet = [0x00, 0x00, 0x05, 0x00, 0xFE, 0xFF, 0, 0, 0, 0, 0, 0];
    let buttons = ButtonData { left_click: false, middle_click: false, right_click: true };
    let report = poll_step(&packet, buttons).expect("report");
    assert_eq!(report.as_bytes(), &[0x04, 0x00, 0x00, 0x00]);
}
