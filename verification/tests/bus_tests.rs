use pmw_mouse::bus::{op_actions, BusAction, BusOp};
use pmw_mouse::regs::{
    ADDRESS_DATA_DELAY_MICROS, INIT_DELAY_MICROS, REG_MOTION_BURST, REG_POWER_UP_RESET,
};

#[test]
fn write_transaction_framing_and_timing() {
    let actions = op_actions(BusOp::Write { address: REG_POWER_UP_RESET, data: vec![0x5A] });
    assert_eq!(
        actions,
        vec![
            BusAction::SelectLow,
            BusAction::Transfer(vec![0xBA]), // address 0x3A with bit 7 set
            BusAction::DelayMicros(ADDRESS_DATA_DELAY_MICROS),
            BusAction::Transfer(vec![0x5A]),
            BusAction::SelectHigh,
        ]
    );
}

#[test]
fn write_data_phase_comes_after_the_delay() {
    let actions = op_actions(BusOp::Write { address: 0x10, data: vec![0x14] });
    // header phase, then the mandatory pause, then the data phase
    assert!(matches!(&actions[1], BusAction::Transfer(header) if header == &vec![0x90]));
    assert!(
        matches!(actions[2], BusAction::DelayMicros(micros) if micros >= ADDRESS_DATA_DELAY_MICROS)
    );
    assert!(matches!(&actions[3], BusAction::Transfer(data) if data == &vec![0x14]));
}

#[test]
fn read_transaction_clocks_placeholder_bytes() {
    let actions = op_actions(BusOp::Read { address: REG_MOTION_BURST, count: 12 });
    assert_eq!(
        actions,
        vec![
            BusAction::SelectLow,
            BusAction::Transfer(vec![0x50]), // address with bit 7 clear
            BusAction::DelayMicros(ADDRESS_DATA_DELAY_MICROS),
            BusAction::Transfer(vec![0xFF; 12]),
            BusAction::SelectHigh,
        ]
    );
}

#[test]
fn reset_pulse_holds_chip_select_low() {
    let actions = op_actions(BusOp::PulseReset { micros: INIT_DELAY_MICROS });
    assert_eq!(
        actions,
        vec![
            BusAction::SelectLow,
            BusAction::DelayMicros(INIT_DELAY_MICROS),
            BusAction::SelectHigh,
        ]
    );
}

#[test]
fn wait_touches_nothing_but_time() {
    let actions = op_actions(BusOp::Wait { micros: 1000 });
    assert_eq!(actions, vec![BusAction::DelayMicros(1000)]);
}
