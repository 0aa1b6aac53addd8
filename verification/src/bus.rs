use crate::regs::{ADDRESS_DATA_DELAY_MICROS, READ_PLACEHOLDER_BYTE};
use vstd::prelude::*;

verus! {

/// One primitive step of a serial-bus transaction, in the order the bus
/// executor must perform them. The chip-select line is active low; a
/// `Transfer` exchanges its bytes full duplex, returning as many bytes as
/// it sends.
#[derive(Debug, PartialEq, Eq)]
pub enum BusAction {
    /// Assert chip select (drive the line low).
    SelectLow,
    /// Release chip select (drive the line high).
    SelectHigh,
    /// Pause for at least this many microseconds.
    DelayMicros(u32),
    /// Exchange these bytes on the bus, full duplex.
    Transfer(Vec<u8>),
}

/// Mathematical image of a [`BusAction`], with the transferred bytes as a
/// sequence.
pub enum BusActionModel {
    SelectLow,
    SelectHigh,
    DelayMicros(u32),
    Transfer(Seq<u8>),
}

impl View for BusAction {
    type V = BusActionModel;

    open spec fn view(&self) -> BusActionModel {
        match self {
            BusAction::SelectLow => BusActionModel::SelectLow,
            BusAction::SelectHigh => BusActionModel::SelectHigh,
            BusAction::DelayMicros(micros) => BusActionModel::DelayMicros(*micros),
            BusAction::Transfer(bytes) => BusActionModel::Transfer(bytes@),
        }
    }
}

impl DeepView for BusAction {
    type V = BusActionModel;

    open spec fn deep_view(&self) -> BusActionModel {
        self.view()
    }
}

/// One addressed bus operation, the unit in which the protocol engine
/// plans its work. `Write` and `Read` are single-register transactions;
/// `PulseReset` is the bare chip-select pulse used to force a hardware
/// reset; `Wait` is a pause with chip select released.
#[derive(Debug, PartialEq, Eq)]
pub enum BusOp {
    /// Drive chip select low, hold it this many microseconds, release it.
    PulseReset { micros: u32 },
    /// Write `data` to the register at `address`.
    Write { address: u8, data: Vec<u8> },
    /// Read `count` bytes from the register at `address`.
    Read { address: u8, count: usize },
    /// Pause for this many microseconds without touching the bus.
    Wait { micros: u32 },
}

/// Mathematical image of a [`BusOp`].
pub enum BusOpModel {
    PulseReset { micros: u32 },
    Write { address: u8, data: Seq<u8> },
    Read { address: u8, count: nat },
    Wait { micros: u32 },
}

impl View for BusOp {
    type V = BusOpModel;

    open spec fn view(&self) -> BusOpModel {
        match self {
            BusOp::PulseReset { micros } => BusOpModel::PulseReset { micros: *micros },
            BusOp::Write { address, data } => (BusOpModel::Write {
                address: *address,
                data: data@,
            }),
            BusOp::Read { address, count } => (BusOpModel::Read {
                address: *address,
                count: *count as nat,
            }),
            BusOp::Wait { micros } => BusOpModel::Wait { micros: *micros },
        }
    }
}

impl DeepView for BusOp {
    type V = BusOpModel;

    open spec fn deep_view(&self) -> BusOpModel {
        self.view()
    }
}

/// A register address is well formed when it fits in seven bits, leaving
/// the top bit of the header byte free for the read/write discriminator.
pub open spec fn op_address_wf(op: BusOpModel) -> bool {
    match op {
        BusOpModel::Write { address, .. } => address < 128,
        BusOpModel::Read { address, .. } => address < 128,
        _ => true,
    }
}

/// Header byte of a write transaction: the address with bit 7 set.
pub open spec fn write_header(address: u8) -> u8 {
    (address + 128) as u8
}

/// The placeholder bytes clocked out to receive `count` response bytes.
pub open spec fn placeholder_seq(count: nat) -> Seq<u8> {
    Seq::new(count, |i: int| READ_PLACEHOLDER_BYTE)
}

/// Action sequence of a write transaction: select, header byte (bit 7
/// set), the mandatory inter-byte delay, the data phase, release.
pub open spec fn write_actions(address: u8, data: Seq<u8>) -> Seq<BusActionModel> {
    seq![
        BusActionModel::SelectLow,
        BusActionModel::Transfer(seq![write_header(address)]),
        BusActionModel::DelayMicros(ADDRESS_DATA_DELAY_MICROS),
        BusActionModel::Transfer(data),
        BusActionModel::SelectHigh,
    ]
}

/// Action sequence of a read transaction: select, header byte (bit 7
/// clear, which for a seven-bit address is the address itself), the
/// mandatory inter-byte delay, `count` placeholder bytes clocked out to
/// receive the response, release.
pub open spec fn read_actions(address: u8, count: nat) -> Seq<BusActionModel> {
    seq![
        BusActionModel::SelectLow,
        BusActionModel::Transfer(seq![address]),
        BusActionModel::DelayMicros(ADDRESS_DATA_DELAY_MICROS),
        BusActionModel::Transfer(placeholder_seq(count)),
        BusActionModel::SelectHigh,
    ]
}

/// Action sequence of the chip-select reset pulse.
pub open spec fn pulse_actions(micros: u32) -> Seq<BusActionModel> {
    seq![
        BusActionModel::SelectLow,
        BusActionModel::DelayMicros(micros),
        BusActionModel::SelectHigh,
    ]
}

/// Action sequence of a bare wait.
pub open spec fn wait_actions(micros: u32) -> Seq<BusActionModel> {
    seq![BusActionModel::DelayMicros(micros)]
}

/// The full action sequence a bus operation lowers to.
pub open spec fn op_actions_model(op: BusOpModel) -> Seq<BusActionModel> {
    match op {
        BusOpModel::PulseReset { micros } => pulse_actions(micros),
        BusOpModel::Write { address, data } => write_actions(address, data),
        BusOpModel::Read { address, count } => read_actions(address, count),
        BusOpModel::Wait { micros } => wait_actions(micros),
    }
}

/// Lower one bus operation to the primitive actions the executor performs,
/// in order. This is the single place transaction framing and its timing
/// discipline are decided; the executor must perform the actions exactly
/// in sequence and never overlap two transactions.
pub fn op_actions(op: BusOp) -> (r: Vec<BusAction>)
    requires
        op_address_wf(op@),
    ensures
        r.deep_view() == op_actions_model(op@),
{
    let ghost model = op@;
    match op {
        BusOp::PulseReset { micros } => {
            let mut r: Vec<BusAction> = Vec::new();
            r.push(BusAction::SelectLow);
            r.push(BusAction::DelayMicros(micros));
            r.push(BusAction::SelectHigh);
            proof {
                assert(r.deep_view() =~= pulse_actions(micros));
            }
            r
        },
        BusOp::Write { address, data } => {
            let mut header: Vec<u8> = Vec::new();
            header.push(128 + address);
            let mut r: Vec<BusAction> = Vec::new();
            r.push(BusAction::SelectLow);
            r.push(BusAction::Transfer(header));
            r.push(BusAction::DelayMicros(ADDRESS_DATA_DELAY_MICROS));
            r.push(BusAction::Transfer(data));
            r.push(BusAction::SelectHigh);
            proof {
                assert(r.deep_view() =~= write_actions(address, model->Write_data));
            }
            r
        },
        BusOp::Read { address, count } => {
            let mut header: Vec<u8> = Vec::new();
            header.push(address);
            let mut placeholder: Vec<u8> = Vec::new();
            let mut i: usize = 0;
            while i < count
                invariant
                    i <= count,
                    placeholder@.len() == i,
                    forall|j: int| 0 <= j < i ==> placeholder@[j] == READ_PLACEHOLDER_BYTE,
                decreases count - i,
            {
                placeholder.push(READ_PLACEHOLDER_BYTE);
                i += 1;
            }
            let mut r: Vec<BusAction> = Vec::new();
            r.push(BusAction::SelectLow);
            r.push(BusAction::Transfer(header));
            r.push(BusAction::DelayMicros(ADDRESS_DATA_DELAY_MICROS));
            r.push(BusAction::Transfer(placeholder));
            r.push(BusAction::SelectHigh);
            proof {
                assert(placeholder@ =~= placeholder_seq(count as nat));
                assert(r.deep_view() =~= read_actions(address, count as nat));
            }
            r
        },
        BusOp::Wait { micros } => {
            let mut r: Vec<BusAction> = Vec::new();
            r.push(BusAction::DelayMicros(micros));
            proof {
                assert(r.deep_view() =~= wait_actions(micros));
            }
            r
        },
    }
}

/// Law: the write path never issues the data phase before the protocol's
/// minimum inter-byte delay. In the planned action sequence of every write
/// transaction, the single action standing between the header transfer and
/// the data transfer is a delay of at least
/// [`ADDRESS_DATA_DELAY_MICROS`] microseconds.
pub proof fn lemma_write_data_phase_delayed(address: u8, data: Seq<u8>)
    ensures
        write_actions(address, data).len() == 5,
        write_actions(address, data)[1] == BusActionModel::Transfer(
            seq![write_header(address)],
        ),
        (write_actions(address, data)[2] matches BusActionModel::DelayMicros(
            micros,
        ) && micros >= ADDRESS_DATA_DELAY_MICROS),
        write_actions(address, data)[3] == BusActionModel::Transfer(data),
{
}

/// Law: the read path observes the same discipline, with the placeholder
/// phase standing after the delay.
pub proof fn lemma_read_data_phase_delayed(address: u8, count: nat)
    ensures
        read_actions(address, count).len() == 5,
        read_actions(address, count)[1] == BusActionModel::Transfer(seq![address]),
        (read_actions(address, count)[2] matches BusActionModel::DelayMicros(
            micros,
        ) && micros >= ADDRESS_DATA_DELAY_MICROS),
        read_actions(address, count)[3] == BusActionModel::Transfer(placeholder_seq(count)),
{
}

/// Law: every transaction toggles chip select around its transfers: the
/// action sequence of a write, a read or a reset pulse begins by asserting
/// chip select and ends by releasing it.
pub proof fn lemma_chip_select_framed(op: BusOpModel)
    requires
        !(op is Wait),
    ensures
        op_actions_model(op).first() == BusActionModel::SelectLow,
        op_actions_model(op).last() == BusActionModel::SelectHigh,
{
}

} // verus!
