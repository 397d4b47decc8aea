//! The Smart Battery Specification (SBS) side of the driver: the standard
//! word registers, the capacity unit selected by `BatteryMode()`, and the
//! decoding of the words the gauge reports.
use crate::error::Bq41z50Error;
use crate::gauge::Bq41z50;
use crate::status::{STATUS_FLAG_MASK, bit_set, spec_status_error_code, spec_status_fields_bits, BatteryMode, BatteryStatus, ErrorCode};
use crate::wire::{
    le_bytes, le_value, lemma_le_round_trip, ops_view, read_op, u16_from_le, u16_to_le, write_op,
    write_read_op, BusOp, Op,
};
use vstd::prelude::*;

verus! {

/// `RemainingCapacityAlarm()`
pub const REMAINING_CAPACITY_ALARM: u8 = 0x01;
/// `RemainingTimeAlarm()`
pub const REMAINING_TIME_ALARM: u8 = 0x02;
/// `BatteryMode()`
pub const BATTERY_MODE: u8 = 0x03;
/// `AtRate()`
pub const AT_RATE: u8 = 0x04;
/// `AtRateTimeToFull()`
pub const AT_RATE_TIME_TO_FULL: u8 = 0x05;
/// `AtRateTimeToEmpty()`
pub const AT_RATE_TIME_TO_EMPTY: u8 = 0x06;
/// `AtRateOK()`
pub const AT_RATE_OK: u8 = 0x07;
/// `Temperature()`
pub const TEMPERATURE: u8 = 0x08;
/// `Voltage()`
pub const VOLTAGE: u8 = 0x09;
/// `Current()`
pub const CURRENT: u8 = 0x0A;
/// `AverageCurrent()`
pub const AVERAGE_CURRENT: u8 = 0x0B;
/// `MaxError()`
pub const MAX_ERROR: u8 = 0x0C;
/// `RelativeStateOfCharge()`
pub const RELATIVE_STATE_OF_CHARGE: u8 = 0x0D;
/// `AbsoluteStateOfCharge()`
pub const ABSOLUTE_STATE_OF_CHARGE: u8 = 0x0E;
/// `RemainingCapacity()`
pub const REMAINING_CAPACITY: u8 = 0x0F;
/// `FullChargeCapacity()`
pub const FULL_CHARGE_CAPACITY: u8 = 0x10;
/// `RunTimeToEmpty()`
pub const RUN_TIME_TO_EMPTY: u8 = 0x11;
/// `AverageTimeToEmpty()`
pub const AVERAGE_TIME_TO_EMPTY: u8 = 0x12;
/// `AverageTimeToFull()`
pub const AVERAGE_TIME_TO_FULL: u8 = 0x13;
/// `ChargingCurrent()`
pub const CHARGING_CURRENT: u8 = 0x14;
/// `ChargingVoltage()`
pub const CHARGING_VOLTAGE: u8 = 0x15;
/// `BatteryStatus()`
pub const BATTERY_STATUS: u8 = 0x16;
/// `CycleCount()`
pub const CYCLE_COUNT: u8 = 0x17;
/// `DesignCapacity()`
pub const DESIGN_CAPACITY: u8 = 0x18;
/// `DesignVoltage()`
pub const DESIGN_VOLTAGE: u8 = 0x19;
/// `SpecificationInfo()`
pub const SPECIFICATION_INFO: u8 = 0x1A;
/// `ManufactureDate()`
pub const MANUFACTURE_DATE: u8 = 0x1B;
/// `SerialNumber()`
pub const SERIAL_NUMBER: u8 = 0x1C;
/// `ManufacturerName()` block
pub const MANUFACTURER_NAME: u8 = 0x20;
/// `DeviceName()` block
pub const DEVICE_NAME: u8 = 0x21;
/// `DeviceChemistry()` block
pub const DEVICE_CHEMISTRY: u8 = 0x22;

/// Length of an SBS word register.
pub const WORD_BYTES: usize = 2;

/// The unit in which the gauge reports capacities.
#[derive(Debug, Clone, Copy, PartialEq, Eq, Structural, PartialOrd, Ord)]
pub enum CapacityModeState {
    /// mA and mAh (CAPACITY_MODE clear).
    Milliamps,
    /// 10 mW and 10 mWh (CAPACITY_MODE set).
    Centiwatt,
}

/// The capacity unit that a battery mode word selects.
pub open spec fn spec_mode_state(mode: BatteryMode) -> CapacityModeState {
    if bit_set(mode.bits, 15) {
        CapacityModeState::Centiwatt
    } else {
        CapacityModeState::Milliamps
    }
}

/// An unsigned capacity, tagged with its unit.
#[derive(Debug, Clone, Copy, PartialEq, Eq, Structural)]
pub enum CapacityModeValue {
    /// mA or mAh, used when CAPACITY_MODE is clear.
    MilliAmpUnsigned(u16),
    /// 10 mW or 10 mWh, used when CAPACITY_MODE is set.
    CentiWattUnsigned(u16),
}

/// A signed rate, tagged with its unit.
#[derive(Debug, Clone, Copy, PartialEq, Eq, Structural)]
pub enum CapacityModeSignedValue {
    /// mA, used when CAPACITY_MODE is clear.
    MilliAmpSigned(i16),
    /// 10 mW, used when CAPACITY_MODE is set.
    CentiWattSigned(i16),
}

/// The reading `raw` in the unit of `state`.
pub open spec fn spec_capacity_value(state: CapacityModeState, raw: u16) -> CapacityModeValue {
    match state {
        CapacityModeState::Milliamps => CapacityModeValue::MilliAmpUnsigned(raw),
        CapacityModeState::Centiwatt => CapacityModeValue::CentiWattUnsigned(raw),
    }
}

/// The signed reading `raw` in the unit of `state`.
pub open spec fn spec_capacity_signed_value(state: CapacityModeState, raw: i16) -> CapacityModeSignedValue {
    match state {
        CapacityModeState::Milliamps => CapacityModeSignedValue::MilliAmpSigned(raw),
        CapacityModeState::Centiwatt => CapacityModeSignedValue::CentiWattSigned(raw),
    }
}

/// The number a capacity carries, whatever its unit.
pub open spec fn spec_capacity_raw(value: CapacityModeValue) -> u16 {
    match value {
        CapacityModeValue::MilliAmpUnsigned(v) => v,
        CapacityModeValue::CentiWattUnsigned(v) => v,
    }
}

/// The number a signed rate carries, whatever its unit.
pub open spec fn spec_capacity_signed_raw(value: CapacityModeSignedValue) -> i16 {
    match value {
        CapacityModeSignedValue::MilliAmpSigned(v) => v,
        CapacityModeSignedValue::CentiWattSigned(v) => v,
    }
}

/// The two's-complement word of a signed value.
pub open spec fn spec_word_of_i16(v: i16) -> u16 {
    if v >= 0 {
        v as u16
    } else {
        (v + 65536) as u16
    }
}

/// The signed value of a two's-complement word.
pub open spec fn spec_i16_of_word(w: u16) -> i16 {
    if w < 32768 {
        w as i16
    } else {
        (w - 65536) as i16
    }
}

/// The transfer that writes `value` to the word register `register`.
pub open spec fn spec_write_word(register: u8, value: u16) -> Seq<Op> {
    seq![Op::Write(seq![register] + le_bytes(value))]
}

/// The transfer of `SetAtRate()`: the number of the rate, whatever its unit,
/// as a two's-complement word.
pub open spec fn spec_set_at_rate(rate: CapacityModeSignedValue) -> Seq<Op> {
    spec_write_word(AT_RATE, spec_word_of_i16(spec_capacity_signed_raw(rate)))
}

/// The transfer of `SetRemainingCapacityAlarm()`: the number of the
/// capacity, whatever its unit.
pub open spec fn spec_set_remaining_capacity_alarm(capacity: CapacityModeValue) -> Seq<Op> {
    spec_write_word(REMAINING_CAPACITY_ALARM, spec_capacity_raw(capacity))
}

/// Plans a read of the word register `register`.
pub fn read_word(register: u8) -> (ops: Vec<BusOp>)
    ensures
        ops_view(ops@) == seq![read_op(register, WORD_BYTES as nat)],
{
    write_read_op(register, WORD_BYTES)
}

/// Plans a write of `value` to the word register `register`: the register
/// address, then the value in little-endian order.
pub fn write_word(register: u8, value: u16) -> (ops: Vec<BusOp>)
    ensures
        ops_view(ops@) == spec_write_word(register, value),
{
    let bytes = u16_to_le(value);
    let frame = vec![register, bytes[0], bytes[1]];
    assert(frame@ =~= seq![register] + le_bytes(value));
    write_op(frame)
}

/// The word held by a two-byte register response.
pub fn word_from_response(response: &[u8]) -> (word: u16)
    requires
        response@.len() == WORD_BYTES,
    ensures
        word == le_value(response@[0], response@[1]),
{
    u16_from_le([response[0], response[1]])
}

/// The signed word held by a two-byte register response.
pub fn signed_word_from_response(response: &[u8]) -> (value: i16)
    requires
        response@.len() == WORD_BYTES,
    ensures
        value == spec_i16_of_word(le_value(response@[0], response@[1])),
{
    let w = word_from_response(response);
    if w < 32768 {
        w as i16
    } else {
        (w as i32 - 65536) as i16
    }
}

/// The two's-complement word of a signed value.
pub fn word_of_i16(v: i16) -> (w: u16)
    ensures
        w == spec_word_of_i16(v),
{
    if v >= 0 {
        v as u16
    } else {
        (v as i32 + 65536) as u16
    }
}

/// A word register reads back what `write_word` wrote: the two bytes that
/// follow the register address in the write decode to the written word,
/// and, read as a signed word, to the written signed value.
pub proof fn lemma_word_read_back(register: u8, value: u16, signed: i16)
    ensures
        le_value((seq![register] + le_bytes(value))[1], (seq![register] + le_bytes(value))[2]) == value,
        spec_i16_of_word(
            le_value(
                (seq![register] + le_bytes(spec_word_of_i16(signed)))[1],
                (seq![register] + le_bytes(spec_word_of_i16(signed)))[2],
            ),
        ) == signed,
{
    lemma_le_round_trip(value, 0, 0);
    lemma_le_round_trip(spec_word_of_i16(signed), 0, 0);
}

/// A percentage reported in a word register: the gauge sends two bytes of
/// which only the low one carries the value (0 to 100).
pub fn percent_from_word(word: u16) -> (percent: u8)
    ensures
        percent == word % 256,
{
    (word % 256) as u8
}

/// `AtRateOK()`: zero is false, anything else is true.
pub fn at_rate_ok_from_word(word: u16) -> (ok: bool)
    ensures
        ok == (word != 0),
{
    word != 0
}

/// The outcome of reading `BatteryStatus()`: the Smart Battery status word
/// when the error code is `Ok`, and otherwise the status as an error.
pub open spec fn spec_battery_status<E>(status: BatteryStatus) -> Result<u16, Bq41z50Error<E>> {
    if spec_status_error_code(status.bits) == ErrorCode::NoError {
        Ok(spec_status_fields_bits(status.bits))
    } else {
        Err(Bq41z50Error::BatteryStatus(status))
    }
}

impl Bq41z50 {
    /// Records the capacity unit that a battery mode selects.
    pub fn set_capacity_mode_state(&mut self, battery_mode_fields: BatteryMode)
        ensures
            final(self)@ == spec_mode_state(battery_mode_fields),
    {
        if battery_mode_fields.capacity_mode() {
            self.set_state(CapacityModeState::Centiwatt);
        } else {
            self.set_state(CapacityModeState::Milliamps);
        }
    }

    /// Plans `SetBatteryMode()`: the capacity unit is taken from `flags`,
    /// then the mode word is written.
    pub fn set_battery_mode(&mut self, flags: BatteryMode) -> (ops: Vec<BusOp>)
        ensures
            final(self)@ == spec_mode_state(flags),
            ops_view(ops@) == spec_write_word(BATTERY_MODE, flags.bits),
    {
        self.set_capacity_mode_state(flags);
        write_word(BATTERY_MODE, flags.bits)
    }

    /// A capacity reading, in the unit currently selected.
    pub fn capacity_value(&self, raw: u16) -> (value: CapacityModeValue)
        ensures
            value == spec_capacity_value(self@, raw),
    {
        match self.capacity_mode_state() {
            CapacityModeState::Milliamps => CapacityModeValue::MilliAmpUnsigned(raw),
            CapacityModeState::Centiwatt => CapacityModeValue::CentiWattUnsigned(raw),
        }
    }

    /// A signed rate reading, in the unit currently selected.
    pub fn capacity_signed_value(&self, raw: i16) -> (value: CapacityModeSignedValue)
        ensures
            value == spec_capacity_signed_value(self@, raw),
            self@ == CapacityModeState::Centiwatt ==> value == CapacityModeSignedValue::CentiWattSigned(raw),
            self@ == CapacityModeState::Milliamps ==> value == CapacityModeSignedValue::MilliAmpSigned(raw),
    {
        match self.capacity_mode_state() {
            CapacityModeState::Milliamps => CapacityModeSignedValue::MilliAmpSigned(raw),
            CapacityModeState::Centiwatt => CapacityModeSignedValue::CentiWattSigned(raw),
        }
    }

    /// Plans `SetRemainingCapacityAlarm()`: the number is written whatever
    /// its unit.
    pub fn set_remaining_capacity_alarm(capacity: CapacityModeValue) -> (ops: Vec<BusOp>)
        ensures
            ops_view(ops@) == spec_set_remaining_capacity_alarm(capacity),
    {
        let value = match capacity {
            CapacityModeValue::MilliAmpUnsigned(value) => value,
            CapacityModeValue::CentiWattUnsigned(value) => value,
        };
        write_word(REMAINING_CAPACITY_ALARM, value)
    }

    /// Plans `SetRemainingTimeAlarm()`.
    pub fn set_remaining_time_alarm(time: u16) -> (ops: Vec<BusOp>)
        ensures
            ops_view(ops@) == spec_write_word(REMAINING_TIME_ALARM, time),
    {
        write_word(REMAINING_TIME_ALARM, time)
    }

    /// Plans `SetAtRate()`: the number is written whatever its unit, as a
    /// two's-complement word.
    pub fn set_at_rate(rate: CapacityModeSignedValue) -> (ops: Vec<BusOp>)
        ensures
            ops_view(ops@) == spec_set_at_rate(rate),
    {
        let value = match rate {
            CapacityModeSignedValue::MilliAmpSigned(value) => value,
            CapacityModeSignedValue::CentiWattSigned(value) => value,
        };
        write_word(AT_RATE, word_of_i16(value))
    }

    /// Decides a `BatteryStatus()` reading: when the error code is `Ok`, the
    /// Smart Battery status word; otherwise a `BatteryStatus` error
    /// carrying the status.
    pub fn battery_status<E>(status: BatteryStatus) -> (res: Result<u16, Bq41z50Error<E>>)
        ensures
            res == spec_battery_status::<E>(status),
            res is Ok <==> status.bits & 0xFu16 == 0,
            res matches Ok(word) ==> word == status.bits & STATUS_FLAG_MASK,
            res matches Err(err) ==> err == Bq41z50Error::<E>::BatteryStatus(status),
    {
        proof {
            lemma_battery_status_ok_iff_no_error::<E>(status);
        }
        match status.ec() {
            ErrorCode::NoError => Ok(status.status_fields_bits()),
            _ => Err(Bq41z50Error::BatteryStatus(status)),
        }
    }
}

/// After a battery mode is written, capacities are reported in the unit it
/// selects: milliamps when CAPACITY_MODE is clear, centiwatts when set.
pub proof fn lemma_capacity_unit_follows_mode(flags: BatteryMode, raw: u16)
    ensures
        bit_set(flags.bits, 15) ==> spec_capacity_value(spec_mode_state(flags), raw)
            == CapacityModeValue::CentiWattUnsigned(raw),
        !bit_set(flags.bits, 15) ==> spec_capacity_value(spec_mode_state(flags), raw)
            == CapacityModeValue::MilliAmpUnsigned(raw),
        spec_capacity_raw(spec_capacity_value(spec_mode_state(flags), raw)) == raw,
{
}

/// `BatteryStatus()` succeeds exactly when the error code nibble is zero:
/// then the word handed out is the status word with its error code and
/// reserved bits clear and every status flag kept; any nonzero error code
/// fails with a `BatteryStatus` error that carries the status unchanged.
pub proof fn lemma_battery_status_ok_iff_no_error<E>(status: BatteryStatus)
    ensures
        spec_battery_status::<E>(status) is Ok <==> status.bits & 0xFu16 == 0,
        status.bits & 0xFu16 == 0 ==> spec_battery_status::<E>(status) == Ok::<u16, Bq41z50Error<E>>(
            status.bits & 0xDBF0u16,
        ),
        status.bits & 0xFu16 != 0 ==> spec_battery_status::<E>(status) == Err::<u16, Bq41z50Error<E>>(
            Bq41z50Error::BatteryStatus(status),
        ),
{
    let b = status.bits;
    assert(b & 0xFu16 < 16) by (bit_vector);
    if b & 0xFu16 == 0 {
        assert(0u16 | (b & 0xDBF0u16) == b & 0xDBF0u16) by (bit_vector);
    }
}

/// `SetAtRate()` writes the number inside the rate, whatever its unit tag:
/// one write to register 0x04 whose two bytes, little-endian, are that
/// number in two's complement, so the same number under either tag gives
/// the same transfer.
pub proof fn lemma_set_at_rate_writes_the_number(v: i16)
    ensures
        spec_set_at_rate(CapacityModeSignedValue::CentiWattSigned(v)) == spec_set_at_rate(
            CapacityModeSignedValue::MilliAmpSigned(v),
        ),
        spec_set_at_rate(CapacityModeSignedValue::MilliAmpSigned(v)) == seq![
            Op::Write(
                seq![
                    0x04u8,
                    ((if v >= 0 { v as int } else { v + 65536 }) % 256) as u8,
                    ((if v >= 0 { v as int } else { v + 65536 }) / 256) as u8,
                ],
            ),
        ],
{
    let w = spec_word_of_i16(v);
    assert(seq![AT_RATE] + le_bytes(w) =~= seq![
        0x04u8,
        ((if v >= 0 { v as int } else { v + 65536 }) % 256) as u8,
        ((if v >= 0 { v as int } else { v + 65536 }) / 256) as u8,
    ]);
}

/// `SetRemainingCapacityAlarm()` writes the number inside the capacity,
/// whatever its unit tag: one write to register 0x01 of that number as a
/// little-endian word.
pub proof fn lemma_set_remaining_capacity_alarm_writes_the_number(v: u16)
    ensures
        spec_set_remaining_capacity_alarm(CapacityModeValue::CentiWattUnsigned(v))
            == spec_set_remaining_capacity_alarm(CapacityModeValue::MilliAmpUnsigned(v)),
        spec_set_remaining_capacity_alarm(CapacityModeValue::MilliAmpUnsigned(v)) == seq![
            Op::Write(seq![0x01u8, (v % 256) as u8, (v / 256) as u8]),
        ],
{
    assert(seq![REMAINING_CAPACITY_ALARM] + le_bytes(v) =~= seq![0x01u8, (v % 256) as u8, (v / 256) as u8]);
}

/// The unit tag of a reported signed rate depends on the capacity mode
/// alone: in centiwatt mode every reading `r` is `CentiWattSigned(r)`, in
/// milliamp mode `MilliAmpSigned(r)`, whatever its sign; after a battery
/// mode is written, the mode's CAPACITY_MODE bit picks the tag.
pub proof fn lemma_rate_unit_follows_mode(flags: BatteryMode, r: i16, s: i16)
    ensures
        spec_capacity_signed_value(CapacityModeState::Centiwatt, r) == CapacityModeSignedValue::CentiWattSigned(r),
        spec_capacity_signed_value(CapacityModeState::Milliamps, r) == CapacityModeSignedValue::MilliAmpSigned(r),
        (spec_capacity_signed_value(spec_mode_state(flags), r) is CentiWattSigned)
            == (spec_capacity_signed_value(spec_mode_state(flags), s) is CentiWattSigned),
        bit_set(flags.bits, 15) ==> spec_capacity_signed_value(spec_mode_state(flags), r)
            == CapacityModeSignedValue::CentiWattSigned(r),
        !bit_set(flags.bits, 15) ==> spec_capacity_signed_value(spec_mode_state(flags), r)
            == CapacityModeSignedValue::MilliAmpSigned(r),
{
}

} // verus!
