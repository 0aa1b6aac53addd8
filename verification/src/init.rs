use crate::bus::{BusOp, BusOpModel};
use crate::regs::{
    CONFIG_FINALIZE_BYTE, INIT_DELAY_MICROS, POWER_UP_RESET_TRIGGER, REG_CONFIG_2, REG_DELTA_X_H,
    REG_DELTA_X_L, REG_DELTA_Y_H, REG_DELTA_Y_L, REG_MOTION, REG_POWER_UP_RESET, REG_SROM_ENABLE,
    REG_SROM_LOAD_BURST, REST_MODE_BIT, SROM_BEGIN_BYTE, SROM_DOWNLOAD_DELAY_MICROS,
    SROM_ENABLE_BYTE, SROM_ENABLE_DELAY_MICROS,
};
use vstd::prelude::*;

verus! {

/// The strictly ordered steps of the power-up sequence. Each stage names
/// the bus operation performed next; the machine never branches on sensor
/// responses except at [`InitStage::RestModeWrite`], whose write-back is
/// computed from the configuration byte just read.
#[derive(Clone, Copy, Debug, PartialEq, Eq, Structural)]
pub enum InitStage {
    /// Pulse chip select low to force a hardware reset.
    ResetPulse,
    /// Write the reset-trigger byte to the power-up-reset register.
    PowerUpWrite,
    /// Wait out the bring-up delay.
    PostResetWait,
    /// Read and discard the motion-status latch.
    DrainMotion,
    /// Read and discard the low horizontal delta latch.
    DrainDeltaXLow,
    /// Read and discard the high horizontal delta latch.
    DrainDeltaXHigh,
    /// Read and discard the low vertical delta latch.
    DrainDeltaYLow,
    /// Read and discard the high vertical delta latch.
    DrainDeltaYHigh,
    /// Read the configuration register for the rest-mode write-back.
    ConfigRead,
    /// Write the configuration back with the rest-mode bit cleared.
    RestModeWrite,
    /// Write the upload-enable byte to the microcode control register.
    SromEnableWrite,
    /// Wait between the enable byte and the begin byte.
    SromEnableWait,
    /// Write the upload-begin byte to the microcode control register.
    SromBeginWrite,
    /// Stream the whole firmware image in one contiguous burst write.
    FirmwareWrite,
    /// Wait out the worst-case download time.
    DownloadWait,
    /// Write the terminal configuration byte.
    FinalizeWrite,
    /// The sequence is complete.
    Done,
}

/// A configuration byte with the rest-mode bit cleared and every other
/// bit kept as read.
pub open spec fn rest_mode_cleared(config: u8) -> u8 {
    config & !REST_MODE_BIT
}

/// The stage the machine moves to after performing a stage's operation.
pub open spec fn next_stage(stage: InitStage) -> InitStage {
    match stage {
        InitStage::ResetPulse => InitStage::PowerUpWrite,
        InitStage::PowerUpWrite => InitStage::PostResetWait,
        InitStage::PostResetWait => InitStage::DrainMotion,
        InitStage::DrainMotion => InitStage::DrainDeltaXLow,
        InitStage::DrainDeltaXLow => InitStage::DrainDeltaXHigh,
        InitStage::DrainDeltaXHigh => InitStage::DrainDeltaYLow,
        InitStage::DrainDeltaYLow => InitStage::DrainDeltaYHigh,
        InitStage::DrainDeltaYHigh => InitStage::ConfigRead,
        InitStage::ConfigRead => InitStage::RestModeWrite,
        InitStage::RestModeWrite => InitStage::SromEnableWrite,
        InitStage::SromEnableWrite => InitStage::SromEnableWait,
        InitStage::SromEnableWait => InitStage::SromBeginWrite,
        InitStage::SromBeginWrite => InitStage::FirmwareWrite,
        InitStage::FirmwareWrite => InitStage::DownloadWait,
        InitStage::DownloadWait => InitStage::FinalizeWrite,
        InitStage::FinalizeWrite => InitStage::Done,
        InitStage::Done => InitStage::Done,
    }
}

/// The bus operation a stage performs. `fw` is the firmware image;
/// `response` is what the bus returned for the previous stage's operation,
/// consulted only by the rest-mode write-back.
pub open spec fn stage_op(stage: InitStage, fw: Seq<u8>, response: Seq<u8>) -> Option<BusOpModel> {
    match stage {
        InitStage::ResetPulse => Some(BusOpModel::PulseReset { micros: INIT_DELAY_MICROS }),
        InitStage::PowerUpWrite => Some(
            BusOpModel::Write { address: REG_POWER_UP_RESET, data: seq![POWER_UP_RESET_TRIGGER] },
        ),
        InitStage::PostResetWait => Some(BusOpModel::Wait { micros: INIT_DELAY_MICROS }),
        InitStage::DrainMotion => Some(BusOpModel::Read { address: REG_MOTION, count: 1 }),
        InitStage::DrainDeltaXLow => Some(BusOpModel::Read { address: REG_DELTA_X_L, count: 1 }),
        InitStage::DrainDeltaXHigh => Some(BusOpModel::Read { address: REG_DELTA_X_H, count: 1 }),
        InitStage::DrainDeltaYLow => Some(BusOpModel::Read { address: REG_DELTA_Y_L, count: 1 }),
        InitStage::DrainDeltaYHigh => Some(BusOpModel::Read { address: REG_DELTA_Y_H, count: 1 }),
        InitStage::ConfigRead => Some(BusOpModel::Read { address: REG_CONFIG_2, count: 1 }),
        InitStage::RestModeWrite => Some(
            BusOpModel::Write { address: REG_CONFIG_2, data: seq![rest_mode_cleared(response[0])] },
        ),
        InitStage::SromEnableWrite => Some(
            BusOpModel::Write { address: REG_SROM_ENABLE, data: seq![SROM_ENABLE_BYTE] },
        ),
        InitStage::SromEnableWait => Some(BusOpModel::Wait { micros: SROM_ENABLE_DELAY_MICROS }),
        InitStage::SromBeginWrite => Some(
            BusOpModel::Write { address: REG_SROM_ENABLE, data: seq![SROM_BEGIN_BYTE] },
        ),
        InitStage::FirmwareWrite => Some(
            BusOpModel::Write { address: REG_SROM_LOAD_BURST, data: fw },
        ),
        InitStage::DownloadWait => Some(BusOpModel::Wait { micros: SROM_DOWNLOAD_DELAY_MICROS }),
        InitStage::FinalizeWrite => Some(
            BusOpModel::Write { address: REG_CONFIG_2, data: seq![CONFIG_FINALIZE_BYTE] },
        ),
        InitStage::Done => None,
    }
}

/// How many stages remain from a given stage; strictly falls along
/// [`next_stage`], so every run of the machine terminates.
pub open spec fn stage_rank(stage: InitStage) -> nat {
    match stage {
        InitStage::ResetPulse => 16,
        InitStage::PowerUpWrite => 15,
        InitStage::PostResetWait => 14,
        InitStage::DrainMotion => 13,
        InitStage::DrainDeltaXLow => 12,
        InitStage::DrainDeltaXHigh => 11,
        InitStage::DrainDeltaYLow => 10,
        InitStage::DrainDeltaYHigh => 9,
        InitStage::ConfigRead => 8,
        InitStage::RestModeWrite => 7,
        InitStage::SromEnableWrite => 6,
        InitStage::SromEnableWait => 5,
        InitStage::SromBeginWrite => 4,
        InitStage::FirmwareWrite => 3,
        InitStage::DownloadWait => 2,
        InitStage::FinalizeWrite => 1,
        InitStage::Done => 0,
    }
}

/// The ordered bus operations a run of the machine performs from `stage`
/// to completion. The only sensor response the sequence depends on is the
/// configuration byte `config` that the configuration read returns.
pub open spec fn run_from(stage: InitStage, fw: Seq<u8>, config: u8) -> Seq<BusOpModel>
    decreases stage_rank(stage),
{
    if stage is Done {
        Seq::empty()
    } else {
        let rest = run_from(next_stage(stage), fw, config);
        match stage_op(stage, fw, seq![config]) {
            Some(op) => seq![op] + rest,
            None => rest,
        }
    }
}

/// The whole initialization trace as one explicit sequence: reset pulse,
/// power-up-reset write, bring-up wait, the five register drains, the
/// rest-mode read-modify-write, the two-step microcode-upload arm, the
/// single contiguous firmware write, the download wait, and the terminal
/// configuration write, in exactly this order.
pub open spec fn init_trace(fw: Seq<u8>, config: u8) -> Seq<BusOpModel> {
    seq![
        BusOpModel::PulseReset { micros: INIT_DELAY_MICROS },
        BusOpModel::Write { address: REG_POWER_UP_RESET, data: seq![POWER_UP_RESET_TRIGGER] },
        BusOpModel::Wait { micros: INIT_DELAY_MICROS },
        BusOpModel::Read { address: REG_MOTION, count: 1 },
        BusOpModel::Read { address: REG_DELTA_X_L, count: 1 },
        BusOpModel::Read { address: REG_DELTA_X_H, count: 1 },
        BusOpModel::Read { address: REG_DELTA_Y_L, count: 1 },
        BusOpModel::Read { address: REG_DELTA_Y_H, count: 1 },
        BusOpModel::Read { address: REG_CONFIG_2, count: 1 },
        BusOpModel::Write { address: REG_CONFIG_2, data: seq![rest_mode_cleared(config)] },
        BusOpModel::Write { address: REG_SROM_ENABLE, data: seq![SROM_ENABLE_BYTE] },
        BusOpModel::Wait { micros: SROM_ENABLE_DELAY_MICROS },
        BusOpModel::Write { address: REG_SROM_ENABLE, data: seq![SROM_BEGIN_BYTE] },
        BusOpModel::Write { address: REG_SROM_LOAD_BURST, data: fw },
        BusOpModel::Wait { micros: SROM_DOWNLOAD_DELAY_MICROS },
        BusOpModel::Write { address: REG_CONFIG_2, data: seq![CONFIG_FINALIZE_BYTE] },
    ]
}

/// Runs the fixed power-up sequence as an explicit state machine. The
/// caller owns the bus: it asks for the next operation, performs it, and
/// hands back the bytes the bus returned. Failure of any bus step is
/// fatal to the whole sequence; a partially initialized sensor must not
/// proceed to the poll loop.
pub struct SensorInitializer {
    /// The stage whose operation is performed next.
    pub stage: InitStage,
    /// The microcode image streamed during the upload stage.
    pub firmware: Vec<u8>,
}

impl SensorInitializer {
    /// Start the sequence from its first stage, with the microcode image
    /// to upload.
    pub fn new(firmware: Vec<u8>) -> (r: Self)
        ensures
            r.stage == InitStage::ResetPulse,
            r.firmware@ == firmware@,
    {
        SensorInitializer { stage: InitStage::ResetPulse, firmware }
    }

    /// Whether the sequence has completed.
    pub fn is_done(&self) -> (r: bool)
        ensures
            r == (self.stage is Done),
    {
        matches!(self.stage, InitStage::Done)
    }

    /// Hand out the bus operation of the current stage and advance.
    /// `response` is what the bus returned for the previously handed-out
    /// operation (empty for writes, waits and the pulse); only the
    /// rest-mode write-back reads it, and it must then hold the one byte
    /// of the configuration read.
    pub fn next(&mut self, response: &[u8]) -> (op: Option<BusOp>)
        requires
            old(self).stage is RestModeWrite ==> response@.len() == 1,
        ensures
            final(self).firmware@ == old(self).firmware@,
            final(self).stage == next_stage(old(self).stage),
            op.deep_view() == stage_op(old(self).stage, old(self).firmware@, response@),
            (op matches Some(o) ==> crate::bus::op_address_wf(o@)),
    {
        let stage = self.stage;
        self.stage = match stage {
            InitStage::ResetPulse => InitStage::PowerUpWrite,
            InitStage::PowerUpWrite => InitStage::PostResetWait,
            InitStage::PostResetWait => InitStage::DrainMotion,
            InitStage::DrainMotion => InitStage::DrainDeltaXLow,
            InitStage::DrainDeltaXLow => InitStage::DrainDeltaXHigh,
            InitStage::DrainDeltaXHigh => InitStage::DrainDeltaYLow,
            InitStage::DrainDeltaYLow => InitStage::DrainDeltaYHigh,
            InitStage::DrainDeltaYHigh => InitStage::ConfigRead,
            InitStage::ConfigRead => InitStage::RestModeWrite,
            InitStage::RestModeWrite => InitStage::SromEnableWrite,
            InitStage::SromEnableWrite => InitStage::SromEnableWait,
            InitStage::SromEnableWait => InitStage::SromBeginWrite,
            InitStage::SromBeginWrite => InitStage::FirmwareWrite,
            InitStage::FirmwareWrite => InitStage::DownloadWait,
            InitStage::DownloadWait => InitStage::FinalizeWrite,
            InitStage::FinalizeWrite => InitStage::Done,
            InitStage::Done => InitStage::Done,
        };
        match stage {
            InitStage::ResetPulse => Some(BusOp::PulseReset { micros: INIT_DELAY_MICROS }),
            InitStage::PowerUpWrite => {
                let mut data: Vec<u8> = Vec::new();
                data.push(POWER_UP_RESET_TRIGGER);
                proof {
                    assert(data@ =~= seq![POWER_UP_RESET_TRIGGER]);
                }
                Some(BusOp::Write { address: REG_POWER_UP_RESET, data })
            },
            InitStage::PostResetWait => Some(BusOp::Wait { micros: INIT_DELAY_MICROS }),
            InitStage::DrainMotion => Some(BusOp::Read { address: REG_MOTION, count: 1 }),
            InitStage::DrainDeltaXLow => Some(BusOp::Read { address: REG_DELTA_X_L, count: 1 }),
            InitStage::DrainDeltaXHigh => Some(BusOp::Read { address: REG_DELTA_X_H, count: 1 }),
            InitStage::DrainDeltaYLow => Some(BusOp::Read { address: REG_DELTA_Y_L, count: 1 }),
            InitStage::DrainDeltaYHigh => Some(BusOp::Read { address: REG_DELTA_Y_H, count: 1 }),
            InitStage::ConfigRead => Some(BusOp::Read { address: REG_CONFIG_2, count: 1 }),
            InitStage::RestModeWrite => {
                let config = response[0];
                let mut data: Vec<u8> = Vec::new();
                data.push(config & !REST_MODE_BIT);
                proof {
                    assert(data@ =~= seq![rest_mode_cleared(config)]);
                }
                Some(BusOp::Write { address: REG_CONFIG_2, data })
            },
            InitStage::SromEnableWrite => {
                let mut data: Vec<u8> = Vec::new();
                data.push(SROM_ENABLE_BYTE);
                proof {
                    assert(data@ =~= seq![SROM_ENABLE_BYTE]);
                }
                Some(BusOp::Write { address: REG_SROM_ENABLE, data })
            },
            InitStage::SromEnableWait => Some(BusOp::Wait { micros: SROM_ENABLE_DELAY_MICROS }),
            InitStage::SromBeginWrite => {
                let mut data: Vec<u8> = Vec::new();
                data.push(SROM_BEGIN_BYTE);
                proof {
                    assert(data@ =~= seq![SROM_BEGIN_BYTE]);
                }
                Some(BusOp::Write { address: REG_SROM_ENABLE, data })
            },
            InitStage::FirmwareWrite => {
                let mut data: Vec<u8> = Vec::new();
                let mut i: usize = 0;
                while i < self.firmware.len()
                    invariant
                        i <= self.firmware@.len(),
                        data@ == self.firmware@.take(i as int),
                    decreases self.firmware@.len() - i,
                {
                    data.push(self.firmware[i]);
                    proof {
                        assert(data@ =~= self.firmware@.take(i + 1));
                    }
                    i += 1;
                }
                proof {
                    assert(data@ =~= self.firmware@);
                }
                Some(BusOp::Write { address: REG_SROM_LOAD_BURST, data })
            },
            InitStage::DownloadWait => Some(BusOp::Wait { micros: SROM_DOWNLOAD_DELAY_MICROS }),
            InitStage::FinalizeWrite => {
                let mut data: Vec<u8> = Vec::new();
                data.push(CONFIG_FINALIZE_BYTE);
                proof {
                    assert(data@ =~= seq![CONFIG_FINALIZE_BYTE]);
                }
                Some(BusOp::Write { address: REG_CONFIG_2, data })
            },
            InitStage::Done => None,
        }
    }
}

/// Law: a complete run of the machine performs exactly the operations of
/// [`init_trace`], in that order, whatever firmware image it holds and
/// whatever configuration byte the sensor returns.
pub proof fn lemma_init_run_is_trace(fw: Seq<u8>, config: u8)
    ensures
        run_from(InitStage::ResetPulse, fw, config) == init_trace(fw, config),
{
    reveal_with_fuel(run_from, 18);
    assert(run_from(InitStage::ResetPulse, fw, config) =~= init_trace(fw, config));
}

/// Whether an operation is a write addressed to one register.
pub open spec fn is_write_to(op: BusOpModel, address: u8) -> bool {
    op matches BusOpModel::Write { address: a, .. } && a == address
}

/// Whether an operation is a read addressed to one register.
pub open spec fn is_read_to(op: BusOpModel, address: u8) -> bool {
    op matches BusOpModel::Read { address: a, .. } && a == address
}

/// Law: the initialization sequence performs exactly one power-up-reset
/// write, exactly one rest-mode read-modify-write (one configuration
/// read, immediately followed by the write-back of the byte read with the
/// rest-mode bit cleared and every other bit untouched), and streams the
/// firmware image in a single contiguous write.
pub proof fn lemma_init_discipline(fw: Seq<u8>, config: u8)
    ensures
        init_trace(fw, config)[1] == (BusOpModel::Write {
            address: REG_POWER_UP_RESET,
            data: seq![POWER_UP_RESET_TRIGGER],
        }),
        forall|i: int|
            0 <= i < init_trace(fw, config).len() ==> (is_write_to(
                #[trigger] init_trace(fw, config)[i],
                REG_POWER_UP_RESET,
            ) ==> i == 1),
        init_trace(fw, config)[8] == (BusOpModel::Read { address: REG_CONFIG_2, count: 1nat }),
        forall|i: int|
            0 <= i < init_trace(fw, config).len() ==> (is_read_to(
                #[trigger] init_trace(fw, config)[i],
                REG_CONFIG_2,
            ) ==> i == 8),
        init_trace(fw, config)[9] == (BusOpModel::Write {
            address: REG_CONFIG_2,
            data: seq![rest_mode_cleared(config)],
        }),
        forall|i: int|
            0 <= i < init_trace(fw, config).len() ==> (is_write_to(
                #[trigger] init_trace(fw, config)[i],
                REG_SROM_LOAD_BURST,
            ) ==> i == 13),
        init_trace(fw, config)[13] == (BusOpModel::Write {
            address: REG_SROM_LOAD_BURST,
            data: fw,
        }),
{
}

/// Law: the rest-mode write-back clears exactly the rest-mode bit: the
/// bit itself reads back zero and every other bit of the configuration
/// byte is preserved.
pub proof fn lemma_rest_mode_write_back(config: u8)
    ensures
        rest_mode_cleared(config) & REST_MODE_BIT == 0,
        rest_mode_cleared(config) & !REST_MODE_BIT == config & !REST_MODE_BIT,
{
    assert((config & !0x20u8) & 0x20u8 == 0) by (bit_vector);
    assert((config & !0x20u8) & !0x20u8 == config & !0x20u8) by (bit_vector);
}

} // verus!
