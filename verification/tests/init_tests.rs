use pmw_mouse::bus::BusOp;
use pmw_mouse::init::{InitStage, SensorInitializer};
use pmw_mouse::regs::{
    INIT_DELAY_MICROS, REG_CONFIG_2, REG_POWER_UP_RESET, REG_SROM_LOAD_BURST,
    SROM_DOWNLOAD_DELAY_MICROS, SROM_ENABLE_DELAY_MICROS,
};

/// Drive the machine to completion against a recording bus double: reads
/// are answered with canned bytes (the configuration register reads back
/// `config`), everything else with an empty response.
fn record_run(firmware: Vec<u8>, config: u8) -> Vec<BusOp> {
    let mut init = SensorInitializer::new(firmware);
    let mut ops: Vec<BusOp> = Vec::new();
    let mut response: Vec<u8> = Vec::new();
    while !init.is_done() {
        let op = init.next(&response).expect("a stage before Done yields an operation");
        response = match &op {
            BusOp::Read { address, count } => {
                if *address == REG_CONFIG_2 {
                    vec![config]
                } else {
                    vec![0x00; *count]
                }
            }
            _ => Vec::new(),
        };
        ops.push(op);
    }
    ops
}

#[test]
fn full_sequence_in_order() {
    let firmware = vec![0xAA, 0xBB, 0xCC];
    let ops = record_run(firmware.clone(), 0x34);
    let expected = vec![
        BusOp::PulseReset { micros: INIT_DELAY_MICROS },
        BusOp::Write { address: REG_POWER_UP_RESET, data: vec![0x5A] },
        BusOp::Wait { micros: INIT_DELAY_MICROS },
        BusOp::Read { address: 0x02, count: 1 },
        BusOp::Read { address: 0x03, count: 1 },
        BusOp::Read { address: 0x04, count: 1 },
        BusOp::Read { address: 0x05, count: 1 },
        BusOp::Read { address: 0x06, count: 1 },
        BusOp::Read { address: REG_CONFIG_2, count: 1 },
        // 0x34 with the rest-mode bit (0x20) cleared
        BusOp::Write { address: REG_CONFIG_2, data: vec![0x14] },
        BusOp::Write { address: 0x13, data: vec![0x1D] },
        BusOp::Wait { micros: SROM_ENABLE_DELAY_MICROS },
        BusOp::Write { address: 0x13, data: vec![0x18] },
        BusOp::Write { address: REG_SROM_LOAD_BURST, data: firmware },
        BusOp::Wait { micros: SROM_DOWNLOAD_DELAY_MICROS },
        BusOp::Write { address: REG_CONFIG_2, data: vec![0x00] },
    ];
    assert_eq!(ops, expected);
}

#[test]
fn exactly_one_power_up_reset_write() {
    let ops = record_run(vec![0x01], 0xFF);
    let resets: Vec<&BusOp> = ops
        .iter()
        .filter(|op| matches!(op, BusOp::Write { address, .. } if *address == REG_POWER_UP_RESET))
        .collect();
    assert_eq!(resets.len(), 1);
    assert_eq!(resets[0], &BusOp::Write { address: REG_POWER_UP_RESET, data: vec![0x5A] });
}

#[test]
fn exactly_one_rest_mode_read_modify_write() {
    let ops = record_run(vec![0x01], 0xFF);
    let config_reads: Vec<usize> = ops
        .iter()
        .enumerate()
        .filter(|(_, op)| matches!(op, BusOp::Read { address, .. } if *address == REG_CONFIG_2))
        .map(|(i, _)| i)
        .collect();
    assert_eq!(config_reads.len(), 1);
    // the write-back follows the read immediately, other bits untouched
    assert_eq!(
        ops[config_reads[0] + 1],
        BusOp::Write { address: REG_CONFIG_2, data: vec![0xFF & !0x20] }
    );
}

#[test]
fn firmware_streams_in_one_contiguous_write() {
    let firmware: Vec<u8> = (0u8..=255).collect();
    let ops = record_run(firmware.clone(), 0x00);
    let uploads: Vec<&BusOp> = ops
        .iter()
        .filter(|op| matches!(op, BusOp::Write { address, .. } if *address == REG_SROM_LOAD_BURST))
        .collect();
    assert_eq!(uploads.len(), 1);
    assert_eq!(uploads[0], &BusOp::Write { address: REG_SROM_LOAD_BURST, data: firmware });
}

#[test]
fn machine_starts_at_reset_and_stays_done() {
    let mut init = SensorInitializer::new(vec![]);
    assert_eq!(init.stage, InitStage::ResetPulse);
    assert!(!init.is_done());
    while !init.is_done() {
        let response = vec![0x00];
        init.next(&response);
    }
    assert_eq!(init.stage, InitStage::Done);
    assert!(init.next(&Vec::new()).is_none());
    assert!(init.is_done());
}
