//! The gauge's own commands: security and authentication keys, sealing,
//! access keys, the manufacturer info blocks and the charging voltage
//! override. Each operation is planned as the transfers that carry it, and
//! read responses are decoded here.
use crate::error::Bq41z50Error;
use crate::interface::{join, mac_read, mac_read_ops, mac_read_payload, spec_mac_read};
use crate::sbs::CapacityModeState;
use crate::wire::{
    append, build_mac_frame, le_bytes, le_value, lemma_le_round_trip, mac_frame, ops_view,
    read_op, u16_from_le, u16_to_le, write_op, write_read_op, BusOp, Op,
    LARGEST_CMD_BYTES, MAC_CMD_RX_HEADER_SIZE_BYTES,
};
use vstd::prelude::*;

verus! {

/// MAC command 0x0035: security keys.
pub const SECURITY_KEYS_CMD: u16 = 0x0035;

/// Length of the security keys.
pub const SECURITY_KEYS_DATA_LEN_BYTES: usize = 8;

/// MAC command 0x0037: authentication key.
pub const AUTH_KEY_CMD: u16 = 0x0037;

/// Length of the authentication key.
pub const AUTH_KEY_DATA_LEN_BYTES: usize = 16;

/// SBS command 0x70: `ManufacturerInfo()` block.
pub const MFG_INFO_CMD: u8 = 0x70;

/// Largest `ManufacturerInfo()` write payload.
pub const LARGEST_MFG_INFO_WRITE: usize = 32;

/// Largest `ManufacturerInfo()` read, length byte included.
pub const LARGEST_MFG_INFO_READ: usize = 33;

/// MAC command 0x00B0: charging voltage override.
pub const CHRG_VOLTAGE_OVERRIDE_CMD: u16 = 0x00B0;

/// Length of the charging voltage override block.
pub const CHRG_VOLTAGE_OVERRIDE_SIZE_BYTES: usize = 10;

/// MAC command 0x007B: `ManufacturerInfoC` block.
pub const MFG_INFO_C_CMD: u16 = 0x007B;

/// MAC command 0x0030: seal the device.
pub const SEAL_DEVICE_CMD: u16 = 0x0030;

/// Charging Voltage Override config struct used in MAC command 0x00B0, not used in R1.
#[derive(Debug, Clone, Copy, PartialEq, Eq, Structural, PartialOrd, Ord, Hash)]
pub struct ChargingVoltageOverride {
    pub low_temp_chrg_mv: u16,
    pub std_low_temp_chrg_mv: u16,
    pub std_hi_temp_chrg_mv: u16,
    pub hi_temp_chrg_mv: u16,
    pub recommended_temp_chrg_mv: u16,
}

impl Default for ChargingVoltageOverride {
    fn default() -> (zero: Self)
        ensures
            zero == (ChargingVoltageOverride {
                low_temp_chrg_mv: 0,
                std_low_temp_chrg_mv: 0,
                std_hi_temp_chrg_mv: 0,
                hi_temp_chrg_mv: 0,
                recommended_temp_chrg_mv: 0,
            }),
    {
        ChargingVoltageOverride {
            low_temp_chrg_mv: 0,
            std_low_temp_chrg_mv: 0,
            std_hi_temp_chrg_mv: 0,
            hi_temp_chrg_mv: 0,
            recommended_temp_chrg_mv: 0,
        }
    }
}

/// The ten bytes of a charging voltage override block: each voltage as a
/// little-endian word, in field order.
pub open spec fn spec_override_bytes(c: ChargingVoltageOverride) -> Seq<u8> {
    le_bytes(c.low_temp_chrg_mv) + le_bytes(c.std_low_temp_chrg_mv) + le_bytes(c.std_hi_temp_chrg_mv)
        + le_bytes(c.hi_temp_chrg_mv) + le_bytes(c.recommended_temp_chrg_mv)
}

/// The charging voltage override that ten block bytes hold.
pub open spec fn spec_override_from_bytes(s: Seq<u8>) -> ChargingVoltageOverride {
    ChargingVoltageOverride {
        low_temp_chrg_mv: le_value(s[0], s[1]),
        std_low_temp_chrg_mv: le_value(s[2], s[3]),
        std_hi_temp_chrg_mv: le_value(s[4], s[5]),
        hi_temp_chrg_mv: le_value(s[6], s[7]),
        recommended_temp_chrg_mv: le_value(s[8], s[9]),
    }
}

/// The decision state of the driver: the unit in which capacities are
/// reported, as last set through `BatteryMode()`.
#[derive(Debug)]
pub struct Bq41z50 {
    capacity_mode_state: CapacityModeState,
}

impl View for Bq41z50 {
    type V = CapacityModeState;

    closed spec fn view(&self) -> CapacityModeState {
        self.capacity_mode_state
    }
}

/// The transfers that send an access key: the lower half, then the upper
/// half, each as a MAC command without payload.
pub open spec fn spec_send_access_key(access_key_lower: u16, access_key_upper: u16) -> Seq<Op> {
    seq![
        Op::Write(mac_frame(access_key_lower, seq![])),
        Op::Write(mac_frame(access_key_upper, seq![])),
    ]
}

/// The transfers of a `ManufacturerInfoC` write: both access keys, then
/// the data block.
pub open spec fn spec_write_mfg_info_c(access_key_lower: u16, access_key_upper: u16, data: Seq<u8>) -> Seq<Op> {
    seq![
        Op::Write(mac_frame(access_key_lower, seq![])),
        Op::Write(mac_frame(access_key_upper, seq![])),
        Op::Write(mac_frame(MFG_INFO_C_CMD, data)),
    ]
}

impl Bq41z50 {
    /// A new driver state; capacities are reported in mA/mAh until a battery
    /// mode says otherwise.
    pub fn new() -> (driver: Bq41z50)
        ensures
            driver@ == CapacityModeState::Milliamps,
    {
        Bq41z50 { capacity_mode_state: CapacityModeState::Milliamps }
    }

    /// The unit in which capacities are currently reported.
    pub fn capacity_mode_state(&self) -> (state: CapacityModeState)
        ensures
            state == self@,
    {
        self.capacity_mode_state
    }

    /// Sets the unit in which capacities are reported.
    pub(crate) fn set_state(&mut self, state: CapacityModeState)
        ensures
            final(self)@ == state,
    {
        self.capacity_mode_state = state;
    }

    /// Plans a read of MAC Register 0x0035 Security Keys.
    pub fn read_security_keys() -> (ops: Vec<BusOp>)
        ensures
            ops_view(ops@) == spec_mac_read(SECURITY_KEYS_CMD, SECURITY_KEYS_DATA_LEN_BYTES as nat),
    {
        mac_read_ops(SECURITY_KEYS_CMD, SECURITY_KEYS_DATA_LEN_BYTES)
    }

    /// Plans a write of MAC Register 0x0035 Security Keys: one MAC block
    /// carrying the eight key bytes.
    pub fn write_security_keys(security_keys: &[u8; 8]) -> (ops: Vec<BusOp>)
        ensures
            ops_view(ops@) == seq![Op::Write(mac_frame(SECURITY_KEYS_CMD, security_keys@))],
    {
        write_op(build_mac_frame(SECURITY_KEYS_CMD, security_keys))
    }

    /// Plans a read of MAC Register 0x0037 Authentication Key.
    pub fn read_authentication_key() -> (ops: Vec<BusOp>)
        ensures
            ops_view(ops@) == spec_mac_read(AUTH_KEY_CMD, AUTH_KEY_DATA_LEN_BYTES as nat),
    {
        mac_read_ops(AUTH_KEY_CMD, AUTH_KEY_DATA_LEN_BYTES)
    }

    /// Plans a write of MAC Register 0x0037 Authentication Key: one MAC block
    /// carrying the sixteen key bytes.
    pub fn write_authentication_key(auth_key: &[u8; 16]) -> (ops: Vec<BusOp>)
        ensures
            ops_view(ops@) == seq![Op::Write(mac_frame(AUTH_KEY_CMD, auth_key@))],
    {
        write_op(build_mac_frame(AUTH_KEY_CMD, auth_key))
    }

    /// Plans sealing the fuel gauge: the seal command without payload.
    pub fn seal_fg() -> (ops: Vec<BusOp>)
        ensures
            ops_view(ops@) == seq![Op::Write(mac_frame(SEAL_DEVICE_CMD, seq![]))],
    {
        let empty: [u8; 0] = [];
        assert(empty@ =~= Seq::<u8>::empty());
        write_op(build_mac_frame(SEAL_DEVICE_CMD, &empty))
    }

    /// Plans unsealing the fuel gauge: sending the two unseal keys.
    pub fn unseal_fg(unseal_key_lower: u16, unseal_key_upper: u16) -> (ops: Vec<BusOp>)
        ensures
            ops_view(ops@) == seq![
                Op::Write(mac_frame(unseal_key_lower, seq![])),
                Op::Write(mac_frame(unseal_key_upper, seq![])),
            ],
    {
        Self::send_access_key(unseal_key_lower, unseal_key_upper)
    }

    /// Plans sending an access key: the lower half, then the upper half, each
    /// written as a MAC command without payload.
    pub fn send_access_key(access_key_lower: u16, access_key_upper: u16) -> (ops: Vec<BusOp>)
        ensures
            ops_view(ops@) == spec_send_access_key(access_key_lower, access_key_upper),
            ops_view(ops@) == seq![
                Op::Write(mac_frame(access_key_lower, seq![])),
                Op::Write(mac_frame(access_key_upper, seq![])),
            ],
    {
        let empty: [u8; 0] = [];
        assert(empty@ =~= Seq::<u8>::empty());
        let lower = write_op(build_mac_frame(access_key_lower, &empty));
        let upper = write_op(build_mac_frame(access_key_upper, &empty));
        let ops = join(lower, upper);
        assert(ops_view(ops@) =~= seq![
            Op::Write(mac_frame(access_key_lower, seq![])),
            Op::Write(mac_frame(access_key_upper, seq![])),
        ]);
        ops
    }

    /// Plans a write to the `MfgInfoC` MAC register: the access keys first,
    /// then the data block. Data longer than 32 bytes is refused with
    /// `DataTooLarge` before any transfer.
    pub fn write_mfg_info_c<E>(access_key_lower: u16, access_key_upper: u16, data: &[u8]) -> (res: Result<
        Vec<BusOp>,
        Bq41z50Error<E>,
    >)
        ensures
            res is Err <==> data@.len() > LARGEST_CMD_BYTES,
            res matches Err(err) ==> err is DataTooLarge,
            res matches Ok(ops) ==> ops_view(ops@) == spec_write_mfg_info_c(
                access_key_lower,
                access_key_upper,
                data@,
            ),
            res matches Ok(ops) ==> ops_view(ops@).subrange(0, 2) == spec_send_access_key(
                access_key_lower,
                access_key_upper,
            ),
    {
        if data.len() > LARGEST_CMD_BYTES {
            return Err(Bq41z50Error::DataTooLarge);
        }
        let keys = Self::send_access_key(access_key_lower, access_key_upper);
        let block = write_op(build_mac_frame(MFG_INFO_C_CMD, data));
        let ops = join(keys, block);
        assert(ops_view(ops@) =~= spec_write_mfg_info_c(access_key_lower, access_key_upper, data@));
        proof {
            lemma_mfg_info_c_keys_first(access_key_lower, access_key_upper, data@);
        }
        Ok(ops)
    }

    /// Plans a read from the `MfgInfoC` MAC register of `len` bytes; more than
    /// 32 bytes are refused with `DataTooLarge` before any transfer.
    pub fn read_mfg_info_c<E>(len: usize) -> (res: Result<Vec<BusOp>, Bq41z50Error<E>>)
        ensures
            res is Err <==> len > LARGEST_CMD_BYTES,
            res matches Err(err) ==> err is DataTooLarge,
            res matches Ok(ops) ==> ops_view(ops@) == spec_mac_read(MFG_INFO_C_CMD, len as nat),
    {
        mac_read(MFG_INFO_C_CMD, len)
    }

    /// Plans a write to the `MfgInfo` register, an SMBus block write: the
    /// command, the length byte, the data. Data longer than 32 bytes is
    /// refused with `DataTooLarge` before any transfer.
    pub fn write_mfg_info<E>(data: &[u8]) -> (res: Result<Vec<BusOp>, Bq41z50Error<E>>)
        ensures
            res is Err <==> data@.len() > LARGEST_MFG_INFO_WRITE,
            res matches Err(err) ==> err is DataTooLarge,
            res matches Ok(ops) ==> ops_view(ops@) == seq![
                Op::Write(seq![MFG_INFO_CMD, data@.len() as u8] + data@),
            ],
    {
        if data.len() > LARGEST_MFG_INFO_WRITE {
            return Err(Bq41z50Error::DataTooLarge);
        }
        let mut frame = vec![MFG_INFO_CMD, data.len() as u8];
        append(&mut frame, data);
        Ok(write_op(frame))
    }

    /// Plans a read from the `MfgInfo` register of `len` bytes, the leading
    /// size byte included; more than 33 bytes are refused with
    /// `DataTooLarge` before any transfer.
    pub fn read_mfg_info<E>(len: usize) -> (res: Result<Vec<BusOp>, Bq41z50Error<E>>)
        ensures
            res is Err <==> len > LARGEST_MFG_INFO_READ,
            res matches Err(err) ==> err is DataTooLarge,
            res matches Ok(ops) ==> ops_view(ops@) == seq![read_op(MFG_INFO_CMD, len as nat)],
    {
        if len > LARGEST_MFG_INFO_READ {
            return Err(Bq41z50Error::DataTooLarge);
        }
        Ok(write_read_op(MFG_INFO_CMD, len))
    }

    /// Plans a write of the `ChargingVoltageOverride` MAC command: one MAC
    /// block carrying the five voltages as little-endian words.
    pub fn write_charging_voltage_override(override_struct: &ChargingVoltageOverride) -> (ops: Vec<BusOp>)
        ensures
            ops_view(ops@) == seq![
                Op::Write(mac_frame(CHRG_VOLTAGE_OVERRIDE_CMD, spec_override_bytes(*override_struct))),
            ],
    {
        let mut data: Vec<u8> = Vec::new();
        append(&mut data, &u16_to_le(override_struct.low_temp_chrg_mv));
        append(&mut data, &u16_to_le(override_struct.std_low_temp_chrg_mv));
        append(&mut data, &u16_to_le(override_struct.std_hi_temp_chrg_mv));
        append(&mut data, &u16_to_le(override_struct.hi_temp_chrg_mv));
        append(&mut data, &u16_to_le(override_struct.recommended_temp_chrg_mv));
        assert(data@ =~= spec_override_bytes(*override_struct));
        write_op(build_mac_frame(CHRG_VOLTAGE_OVERRIDE_CMD, data.as_slice()))
    }

    /// Plans a read of the `ChargingVoltageOverride` MAC command.
    pub fn read_charging_voltage_override() -> (ops: Vec<BusOp>)
        ensures
            ops_view(ops@) == spec_mac_read(
                CHRG_VOLTAGE_OVERRIDE_CMD,
                CHRG_VOLTAGE_OVERRIDE_SIZE_BYTES as nat,
            ),
    {
        mac_read_ops(CHRG_VOLTAGE_OVERRIDE_CMD, CHRG_VOLTAGE_OVERRIDE_SIZE_BYTES)
    }

    /// Decodes the response to a charging voltage override read: the ten
    /// bytes after the block header, five little-endian words.
    pub fn charging_voltage_override_from_response(response: &[u8]) -> (value: ChargingVoltageOverride)
        requires
            response@.len() == MAC_CMD_RX_HEADER_SIZE_BYTES + CHRG_VOLTAGE_OVERRIDE_SIZE_BYTES,
        ensures
            value == spec_override_from_bytes(
                response@.subrange(MAC_CMD_RX_HEADER_SIZE_BYTES as int, response@.len() as int),
            ),
    {
        let data = mac_read_payload(response, CHRG_VOLTAGE_OVERRIDE_SIZE_BYTES);
        ChargingVoltageOverride {
            low_temp_chrg_mv: u16_from_le([data[0], data[1]]),
            std_low_temp_chrg_mv: u16_from_le([data[2], data[3]]),
            std_hi_temp_chrg_mv: u16_from_le([data[4], data[5]]),
            hi_temp_chrg_mv: u16_from_le([data[6], data[7]]),
            recommended_temp_chrg_mv: u16_from_le([data[8], data[9]]),
        }
    }
}

/// Decoding the bytes of a charging voltage override gives it back.
pub proof fn lemma_override_round_trip(c: ChargingVoltageOverride)
    ensures
        spec_override_from_bytes(spec_override_bytes(c)) == c,
{
    lemma_le_round_trip(c.low_temp_chrg_mv, 0, 0);
    lemma_le_round_trip(c.std_low_temp_chrg_mv, 0, 0);
    lemma_le_round_trip(c.std_hi_temp_chrg_mv, 0, 0);
    lemma_le_round_trip(c.hi_temp_chrg_mv, 0, 0);
    lemma_le_round_trip(c.recommended_temp_chrg_mv, 0, 0);
}

/// What a MAC write stores, a MAC read gives back: the gauge answers a read
/// of `command` with the written block less its leading MAC command byte,
/// and the payload of that response is exactly the data that was written.
pub proof fn lemma_mac_block_read_back(command: u16, data: Seq<u8>)
    requires
        data.len() <= LARGEST_CMD_BYTES,
    ensures
        mac_frame(command, data).drop_first().len() == MAC_CMD_RX_HEADER_SIZE_BYTES + data.len(),
        mac_frame(command, data).drop_first().subrange(
            MAC_CMD_RX_HEADER_SIZE_BYTES as int,
            MAC_CMD_RX_HEADER_SIZE_BYTES + data.len(),
        ) == data,
{
    assert(mac_frame(command, data).drop_first().subrange(
        MAC_CMD_RX_HEADER_SIZE_BYTES as int,
        MAC_CMD_RX_HEADER_SIZE_BYTES + data.len(),
    ) =~= data);
}

/// `ManufacturerInfo()` is read back with its length byte: the gauge
/// answers a read of the block with the written block less the command
/// byte, that is the data length followed by the data.
pub proof fn lemma_mfg_info_read_back(data: Seq<u8>)
    requires
        data.len() <= LARGEST_MFG_INFO_WRITE,
    ensures
        (seq![MFG_INFO_CMD, data.len() as u8] + data).drop_first() == seq![data.len() as u8] + data,
        (seq![MFG_INFO_CMD, data.len() as u8] + data).drop_first().len() <= LARGEST_MFG_INFO_READ,
{
    assert((seq![MFG_INFO_CMD, data.len() as u8] + data).drop_first() =~= seq![data.len() as u8] + data);
}

/// A charging voltage override written with
/// `write_charging_voltage_override` is read back unchanged when the gauge
/// answers with the stored block.
pub proof fn lemma_charging_voltage_override_read_back(c: ChargingVoltageOverride)
    ensures
        spec_override_from_bytes(
            mac_frame(CHRG_VOLTAGE_OVERRIDE_CMD, spec_override_bytes(c)).drop_first().subrange(
                MAC_CMD_RX_HEADER_SIZE_BYTES as int,
                (MAC_CMD_RX_HEADER_SIZE_BYTES + CHRG_VOLTAGE_OVERRIDE_SIZE_BYTES) as int,
            ),
        ) == c,
{
    lemma_mac_block_read_back(CHRG_VOLTAGE_OVERRIDE_CMD, spec_override_bytes(c));
    lemma_override_round_trip(c);
}

/// A `ManufacturerInfoC` write opens with exactly the transfers of
/// `send_access_key` for the same keys: first the lower half of the key,
/// then the upper half, each as `[0x44, 0x02, low byte, high byte]`; the
/// third and last transfer is the data block under command 0x007B.
pub proof fn lemma_mfg_info_c_keys_first(access_key_lower: u16, access_key_upper: u16, data: Seq<u8>)
    requires
        data.len() <= LARGEST_CMD_BYTES,
    ensures
        spec_write_mfg_info_c(access_key_lower, access_key_upper, data).len() == 3,
        spec_write_mfg_info_c(access_key_lower, access_key_upper, data).subrange(0, 2)
            == spec_send_access_key(access_key_lower, access_key_upper),
        spec_send_access_key(access_key_lower, access_key_upper) == seq![
            Op::Write(seq![0x44u8, 0x02u8, (access_key_lower % 256) as u8, (access_key_lower / 256) as u8]),
            Op::Write(seq![0x44u8, 0x02u8, (access_key_upper % 256) as u8, (access_key_upper / 256) as u8]),
        ],
        spec_write_mfg_info_c(access_key_lower, access_key_upper, data)[2] == Op::Write(
            seq![0x44u8, (data.len() + 2) as u8, 0x7Bu8, 0x00u8] + data,
        ),
{
    assert(mac_frame(access_key_lower, seq![]) =~= seq![
        0x44u8,
        0x02u8,
        (access_key_lower % 256) as u8,
        (access_key_lower / 256) as u8,
    ]);
    assert(mac_frame(access_key_upper, seq![]) =~= seq![
        0x44u8,
        0x02u8,
        (access_key_upper % 256) as u8,
        (access_key_upper / 256) as u8,
    ]);
    assert(mac_frame(MFG_INFO_C_CMD, data) =~= seq![0x44u8, (data.len() + 2) as u8, 0x7Bu8, 0x00u8] + data);
    assert(spec_write_mfg_info_c(access_key_lower, access_key_upper, data).subrange(0, 2)
        =~= spec_send_access_key(access_key_lower, access_key_upper));
}

} // verus!
