//! The driver's error type and the generic Smart Battery error kind it maps to.
use crate::status::{spec_error_code_from_bits, spec_status_error_code, BatteryStatus, ErrorCode};
use vstd::prelude::*;

verus! {

/// Errors of the driver, generic over the bus's own error type.
#[derive(Debug)]
pub enum Bq41z50Error<E> {
    /// The I2C bus reported an error.
    Bus(E),
    /// `BatteryStatus()` reported an error code other than `Ok`.
    BatteryStatus(BatteryStatus),
    /// A payload was longer than the command allows.
    DataTooLarge,
}

/// The generic Smart Battery error kinds.
#[derive(Debug, Clone, Copy, PartialEq, Eq, Structural)]
pub enum ErrorKind {
    /// Communication with the battery failed.
    CommError,
    /// `BatteryStatus()` reported this error code.
    BatteryStatus(ErrorCode),
    /// Any other error.
    Other,
}

/// The kind of a driver error: bus errors are communication errors, a
/// status error carries the status's error code, anything else is `Other`.
pub open spec fn spec_kind<E>(err: Bq41z50Error<E>) -> ErrorKind {
    match err {
        Bq41z50Error::Bus(_) => ErrorKind::CommError,
        Bq41z50Error::BatteryStatus(status) => ErrorKind::BatteryStatus(spec_status_error_code(status.bits)),
        Bq41z50Error::DataTooLarge => ErrorKind::Other,
    }
}

impl<E> Bq41z50Error<E> {
    /// Converts the error to a generic Smart Battery error kind.
    pub fn kind(&self) -> (kind: ErrorKind)
        ensures
            kind == spec_kind(*self),
            kind is CommError <==> *self is Bus,
            kind is Other <==> *self is DataTooLarge,
            *self matches Bq41z50Error::BatteryStatus(status) ==> kind == ErrorKind::BatteryStatus(
                spec_error_code_from_bits((status.bits & 0xFu16) as u8),
            ),
    {
        proof {
            lemma_kind_classifies(*self);
        }
        match self {
            Bq41z50Error::Bus(_) => ErrorKind::CommError,
            Bq41z50Error::BatteryStatus(status) => ErrorKind::BatteryStatus(status.ec()),
            Bq41z50Error::DataTooLarge => ErrorKind::Other,
        }
    }
}

impl<E> From<E> for Bq41z50Error<E> {
    fn from(err: E) -> (converted: Self) {
        Bq41z50Error::Bus(err)
    }
}

impl<E> vstd::std_specs::convert::FromSpecImpl<E> for Bq41z50Error<E> {
    open spec fn obeys_from_spec() -> bool {
        true
    }

    open spec fn from_spec(err: E) -> Self {
        Bq41z50Error::Bus(err)
    }
}

/// The kind of an error classifies it: only bus errors are communication
/// errors, only oversized data is `Other`, and a status error's kind is
/// `BatteryStatus` of the error code in the status word's low nibble
/// (0 Ok, 1 Busy, ... 6 BadSize, anything above UnknownError).
pub proof fn lemma_kind_classifies<E>(err: Bq41z50Error<E>)
    ensures
        spec_kind(err) is CommError <==> err is Bus,
        spec_kind(err) is Other <==> err is DataTooLarge,
        err matches Bq41z50Error::BatteryStatus(status) ==> spec_kind(err) == ErrorKind::BatteryStatus(
            spec_error_code_from_bits((status.bits & 0xFu16) as u8),
        ),
        err matches Bq41z50Error::BatteryStatus(status) ==> (status.bits & 0xFu16 == 1 <==> spec_kind(err)
            == ErrorKind::BatteryStatus(ErrorCode::Busy)),
        err matches Bq41z50Error::BatteryStatus(status) ==> (status.bits & 0xFu16 == 4 <==> spec_kind(err)
            == ErrorKind::BatteryStatus(ErrorCode::AccessDenied)),
{
    if let Bq41z50Error::BatteryStatus(status) = err {
        let b = status.bits;
        assert(b & 0xFu16 < 16) by (bit_vector);
    }
}

} // verus!
