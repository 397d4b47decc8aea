//! The gauge's status and mode words: `BatteryStatus()` (0x16) with its
//! error code, and `BatteryMode()` (0x03) with its capacity-mode bit.
use vstd::prelude::*;

verus! {

/// Whether bit `i` of `bits` is set.
pub open spec fn bit_set(bits: u16, i: u16) -> bool {
    (bits >> i) & 1u16 == 1u16
}

/// Error codes that a Smart Battery reports in the low nibble of `BatteryStatus()`.
#[derive(Debug, Clone, Copy, PartialEq, Eq, Structural, PartialOrd, Ord, Hash)]
pub enum ErrorCode {
    /// The function code was processed without error.
    NoError,
    /// The battery cannot process the function code at this time.
    Busy,
    /// A reserved or unsupported optional function code was accessed.
    ReservedCmd,
    /// The function code is defined but not supported.
    UnsupportedCmd,
    /// A write to a read-only function code was attempted.
    AccessDenied,
    /// A data overflow or underflow was detected.
    UnderOverFlow,
    /// A block of the wrong size was written.
    BadSize,
    /// An unidentifiable error.
    UnknownError,
}

/// The error code for a raw code: 0 to 6 name a code of their own, every
/// other value is `UnknownError`.
pub open spec fn spec_error_code_from_bits(value: u8) -> ErrorCode {
    if value == 0 {
        ErrorCode::NoError
    } else if value == 1 {
        ErrorCode::Busy
    } else if value == 2 {
        ErrorCode::ReservedCmd
    } else if value == 3 {
        ErrorCode::UnsupportedCmd
    } else if value == 4 {
        ErrorCode::AccessDenied
    } else if value == 5 {
        ErrorCode::UnderOverFlow
    } else if value == 6 {
        ErrorCode::BadSize
    } else {
        ErrorCode::UnknownError
    }
}

/// The raw value of an error code.
pub open spec fn spec_error_code_into_bits(code: ErrorCode) -> u8 {
    match code {
        ErrorCode::NoError => 0,
        ErrorCode::Busy => 1,
        ErrorCode::ReservedCmd => 2,
        ErrorCode::UnsupportedCmd => 3,
        ErrorCode::AccessDenied => 4,
        ErrorCode::UnderOverFlow => 5,
        ErrorCode::BadSize => 6,
        ErrorCode::UnknownError => 7,
    }
}

impl ErrorCode {
    /// The error code for a raw value (values above 6 are `UnknownError`).
    pub fn from_bits(value: u8) -> (code: ErrorCode)
        ensures
            code == spec_error_code_from_bits(value),
    {
        match value {
            0 => ErrorCode::NoError,
            1 => ErrorCode::Busy,
            2 => ErrorCode::ReservedCmd,
            3 => ErrorCode::UnsupportedCmd,
            4 => ErrorCode::AccessDenied,
            5 => ErrorCode::UnderOverFlow,
            6 => ErrorCode::BadSize,
            _ => ErrorCode::UnknownError,
        }
    }

    /// The raw value of this error code (0 to 7).
    pub fn into_bits(self) -> (value: u8)
        ensures
            value == spec_error_code_into_bits(self),
            value < 8,
    {
        match self {
            ErrorCode::NoError => 0,
            ErrorCode::Busy => 1,
            ErrorCode::ReservedCmd => 2,
            ErrorCode::UnsupportedCmd => 3,
            ErrorCode::AccessDenied => 4,
            ErrorCode::UnderOverFlow => 5,
            ErrorCode::BadSize => 6,
            ErrorCode::UnknownError => 7,
        }
    }
}

/// Turning a code into its raw value and back gives the code again.
pub proof fn lemma_error_code_round_trip(code: ErrorCode)
    ensures
        spec_error_code_from_bits(spec_error_code_into_bits(code)) == code,
{
}

/// Bits of `BatteryStatus()` that hold a status flag (the error code is in
/// bits 0 to 3; bits 10 and 13 are reserved).
pub const STATUS_FLAG_MASK: u16 = 0xDBF0;

/// The 16-bit `BatteryStatus()` word of the gauge.
#[derive(Debug, Clone, Copy, PartialEq, Eq, Structural)]
pub struct BatteryStatus {
    pub bits: u16,
}

/// The error code held in the low nibble of a status word.
pub open spec fn spec_status_error_code(bits: u16) -> ErrorCode {
    spec_error_code_from_bits((bits & 0xFu16) as u8)
}

/// The status word of the Smart Battery status fields that the driver hands
/// out for `status`: the error code normalised (raw codes above 7 read as
/// `UnknownError`), every status flag copied, the reserved bits clear.
pub open spec fn spec_status_fields_bits(bits: u16) -> u16 {
    (spec_error_code_into_bits(spec_status_error_code(bits)) as u16) | (bits & STATUS_FLAG_MASK)
}

impl BatteryStatus {
    /// The status for a raw status word.
    pub fn from_bits(bits: u16) -> (status: BatteryStatus)
        ensures
            status.bits == bits,
    {
        BatteryStatus { bits }
    }

    /// The error code (EC, bits 0 to 3).
    pub fn ec(&self) -> (code: ErrorCode)
        ensures
            code == spec_status_error_code(self.bits),
    {
        let b = self.bits;
        assert(b & 0xFu16 < 16) by (bit_vector);
        ErrorCode::from_bits((b & 0xF) as u8)
    }

    /// FULLY_DISCHARGED (bit 4).
    pub fn fd(&self) -> (set: bool)
        ensures
            set == bit_set(self.bits, 4),
    {
        (self.bits >> 4u16) & 1 == 1
    }

    /// FULLY_CHARGED (bit 5).
    pub fn fc(&self) -> (set: bool)
        ensures
            set == bit_set(self.bits, 5),
    {
        (self.bits >> 5u16) & 1 == 1
    }

    /// DISCHARGING (bit 6).
    pub fn dsg(&self) -> (set: bool)
        ensures
            set == bit_set(self.bits, 6),
    {
        (self.bits >> 6u16) & 1 == 1
    }

    /// INITIALIZED (bit 7).
    pub fn init(&self) -> (set: bool)
        ensures
            set == bit_set(self.bits, 7),
    {
        (self.bits >> 7u16) & 1 == 1
    }

    /// REMAINING_TIME_ALARM (bit 8).
    pub fn rta(&self) -> (set: bool)
        ensures
            set == bit_set(self.bits, 8),
    {
        (self.bits >> 8u16) & 1 == 1
    }

    /// REMAINING_CAPACITY_ALARM (bit 9).
    pub fn rca(&self) -> (set: bool)
        ensures
            set == bit_set(self.bits, 9),
    {
        (self.bits >> 9u16) & 1 == 1
    }

    /// TERMINATE_DISCHARGE_ALARM (bit 11).
    pub fn tda(&self) -> (set: bool)
        ensures
            set == bit_set(self.bits, 11),
    {
        (self.bits >> 11u16) & 1 == 1
    }

    /// OVER_TEMPERATURE_ALARM (bit 12).
    pub fn ota(&self) -> (set: bool)
        ensures
            set == bit_set(self.bits, 12),
    {
        (self.bits >> 12u16) & 1 == 1
    }

    /// TERMINATE_CHARGE_ALARM (bit 14).
    pub fn tca(&self) -> (set: bool)
        ensures
            set == bit_set(self.bits, 14),
    {
        (self.bits >> 14u16) & 1 == 1
    }

    /// OVER_CHARGED_ALARM (bit 15).
    pub fn oca(&self) -> (set: bool)
        ensures
            set == bit_set(self.bits, 15),
    {
        (self.bits >> 15u16) & 1 == 1
    }

    /// The raw word of the Smart Battery status fields built from this
    /// status: the normalised error code in bits 0 to 3, each status flag in
    /// its own bit, the reserved bits 10 and 13 clear.
    pub fn status_fields_bits(&self) -> (fields: u16)
        ensures
            fields == spec_status_fields_bits(self.bits),
            fields & 0xFu16 == spec_error_code_into_bits(spec_status_error_code(self.bits)) as u16,
            bit_set(fields, 4) == bit_set(self.bits, 4),
            bit_set(fields, 5) == bit_set(self.bits, 5),
            bit_set(fields, 6) == bit_set(self.bits, 6),
            bit_set(fields, 7) == bit_set(self.bits, 7),
            bit_set(fields, 8) == bit_set(self.bits, 8),
            bit_set(fields, 9) == bit_set(self.bits, 9),
            !bit_set(fields, 10),
            bit_set(fields, 11) == bit_set(self.bits, 11),
            bit_set(fields, 12) == bit_set(self.bits, 12),
            !bit_set(fields, 13),
            bit_set(fields, 14) == bit_set(self.bits, 14),
            bit_set(fields, 15) == bit_set(self.bits, 15),
    {
        let code = self.ec().into_bits() as u16;
        let b = self.bits;
        let fields = code | (b & STATUS_FLAG_MASK);
        assert({
            &&& fields & 0xFu16 == code
            &&& (fields >> 4u16) & 1u16 == (b >> 4u16) & 1u16
            &&& (fields >> 5u16) & 1u16 == (b >> 5u16) & 1u16
            &&& (fields >> 6u16) & 1u16 == (b >> 6u16) & 1u16
            &&& (fields >> 7u16) & 1u16 == (b >> 7u16) & 1u16
            &&& (fields >> 8u16) & 1u16 == (b >> 8u16) & 1u16
            &&& (fields >> 9u16) & 1u16 == (b >> 9u16) & 1u16
            &&& (fields >> 10u16) & 1u16 == 0u16
            &&& (fields >> 11u16) & 1u16 == (b >> 11u16) & 1u16
            &&& (fields >> 12u16) & 1u16 == (b >> 12u16) & 1u16
            &&& (fields >> 13u16) & 1u16 == 0u16
            &&& (fields >> 14u16) & 1u16 == (b >> 14u16) & 1u16
            &&& (fields >> 15u16) & 1u16 == (b >> 15u16) & 1u16
        }) by (bit_vector)
            requires
                code < 8,
                fields == code | (b & 0xDBF0u16),
        ;
        fields
    }
}

/// The 16-bit `BatteryMode()` word of the gauge.
#[derive(Debug, Clone, Copy, PartialEq, Eq, Structural)]
pub struct BatteryMode {
    pub bits: u16,
}

impl BatteryMode {
    /// The mode for a raw mode word.
    pub fn from_bits(bits: u16) -> (mode: BatteryMode)
        ensures
            mode.bits == bits,
    {
        BatteryMode { bits }
    }

    /// CAPACITY_MODE (bit 15): set when capacities are reported in 10 mW/10 mWh,
    /// clear when they are reported in mA/mAh.
    pub fn capacity_mode(&self) -> (set: bool)
        ensures
            set == bit_set(self.bits, 15),
    {
        (self.bits >> 15u16) & 1 == 1
    }
}

/// A raw error code reads back as itself when it names a code (0 to 6)
/// and as 7 (`UnknownError`) otherwise.
pub proof fn lemma_error_code_normalises(value: u8)
    ensures
        spec_error_code_into_bits(spec_error_code_from_bits(value)) == if value < 7 { value } else { 7 },
        spec_error_code_from_bits(value) == ErrorCode::NoError <==> value == 0,
{
}

} // verus!
