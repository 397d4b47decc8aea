use bq41z50::error::{Bq41z50Error, ErrorKind};
use bq41z50::gauge::{Bq41z50, ChargingVoltageOverride};
use bq41z50::interface::{command_code, dispatch_command, mac_read_payload};
use bq41z50::sbs::{
    at_rate_ok_from_word, percent_from_word, read_word, signed_word_from_response, word_from_response,
    word_of_i16, write_word, CapacityModeSignedValue, CapacityModeState, CapacityModeValue, AT_RATE,
    BATTERY_MODE, REMAINING_CAPACITY_ALARM,
};
use bq41z50::status::{BatteryMode, BatteryStatus, ErrorCode};
use bq41z50::temperature::{decikelvin_to_centi_celsius, decikelvin_to_centi_fahrenheit};
use bq41z50::transaction::{Action, Transaction};
use bq41z50::wire::{build_mac_frame, u16_from_le, u16_to_le, BusOp};
use embedded_batteries_async::smart_battery::{BatteryStatusFields, ErrorCode as OutsideErrorCode};
use embedded_hal_async::i2c::ErrorKind as BusErrorKind;

fn written(ops: &[BusOp]) -> Vec<Vec<u8>> {
    ops.iter()
        .map(|op| match op {
            BusOp::Write(bytes) => bytes.clone(),
            BusOp::WriteRead(bytes, _) => bytes.clone(),
        })
        .collect()
}

#[test]
fn temperature_conversions_preserve_units_and_scale() {
    for (decikelvin, centi_celsius, centi_fahrenheit) in [
        (0u16, -27_315, -45_967),
        (2_332, -3_995, -3_991),
        (2_731, -5, 3_191),
        (2_732, 5, 3_209),
        (2_982, 2_505, 7_709),
        (u16::MAX, 628_035, 1_133_663),
    ] {
        let celsius = decikelvin_to_centi_celsius(decikelvin);
        let fahrenheit = decikelvin_to_centi_fahrenheit(decikelvin);
        assert_eq!(celsius.centi_degrees(), centi_celsius);
        assert_eq!(fahrenheit.centi_degrees(), centi_fahrenheit);
    }
}

#[test]
fn temperature_is_monotonic_in_the_reading() {
    let mut previous_c = decikelvin_to_centi_celsius(0).centi_degrees();
    let mut previous_f = decikelvin_to_centi_fahrenheit(0).centi_degrees();
    for dk in 1..=u16::MAX {
        let c = decikelvin_to_centi_celsius(dk).centi_degrees();
        let f = decikelvin_to_centi_fahrenheit(dk).centi_degrees();
        assert!(c > previous_c);
        assert!(f >= previous_f);
        previous_c = c;
        previous_f = f;
    }
}

#[test]
fn temperature_conversions_propagate_bus_errors() {
    let ops = read_word(0x08);
    let mut t = Transaction::new(ops);
    assert!(matches!(t.start::<BusErrorKind>(), Action::Perform(0)));
    assert!(matches!(
        t.record(Err(BusErrorKind::Other)),
        Action::Complete(Err(Bq41z50Error::Bus(BusErrorKind::Other)))
    ));
}

#[test]
fn mac_read_returns_command_write_error_without_retrying() {
    let mut t = Transaction::new(Bq41z50::read_security_keys());
    assert!(matches!(t.start::<BusErrorKind>(), Action::Perform(0)));
    assert!(matches!(
        t.record(Err(BusErrorKind::Other)),
        Action::Complete(Err(Bq41z50Error::Bus(BusErrorKind::Other)))
    ));
}

#[test]
fn mac_read_returns_response_error_without_retrying() {
    let mut t = Transaction::new(Bq41z50::read_security_keys());
    assert!(matches!(t.start::<BusErrorKind>(), Action::Perform(0)));
    assert!(matches!(t.record::<BusErrorKind>(Ok(())), Action::Perform(1)));
    assert!(matches!(t.op(1), BusOp::WriteRead(bytes, 11) if bytes == &vec![0x44]));
    assert!(matches!(
        t.record(Err(BusErrorKind::Other)),
        Action::Complete(Err(Bq41z50Error::Bus(BusErrorKind::Other)))
    ));
}

#[test]
fn access_key_stops_after_the_first_error() {
    let ops = Bq41z50::write_mfg_info_c::<BusErrorKind>(0x1234, 0x5678, &[0xA5]).unwrap();
    assert_eq!(ops.len(), 3);
    let mut t = Transaction::new(ops);
    assert!(matches!(t.start::<BusErrorKind>(), Action::Perform(0)));
    assert!(matches!(t.op(0), BusOp::Write(bytes) if bytes == &vec![0x44, 0x02, 0x34, 0x12]));
    assert!(matches!(
        t.record(Err(BusErrorKind::Other)),
        Action::Complete(Err(Bq41z50Error::Bus(BusErrorKind::Other)))
    ));
}

#[test]
fn transaction_runs_every_transfer_in_order_on_success() {
    let ops = Bq41z50::write_mfg_info_c::<()>(1, 2, &[9]).unwrap();
    let mut t = Transaction::new(ops);
    assert!(matches!(t.start::<()>(), Action::Perform(0)));
    assert!(matches!(t.record::<()>(Ok(())), Action::Perform(1)));
    assert!(matches!(t.record::<()>(Ok(())), Action::Perform(2)));
    assert!(matches!(t.record::<()>(Ok(())), Action::Complete(Ok(()))));
}

#[test]
fn empty_transaction_completes_at_once() {
    let t = Transaction::new(Vec::new());
    assert!(matches!(t.start::<()>(), Action::Complete(Ok(()))));
}

#[test]
fn error_kinds() {
    assert_eq!(Bq41z50Error::Bus(BusErrorKind::Other).kind(), ErrorKind::CommError);
    assert_eq!(
        Bq41z50Error::<()>::BatteryStatus(BatteryStatus::from_bits(0x0044)).kind(),
        ErrorKind::BatteryStatus(ErrorCode::AccessDenied)
    );
    assert_eq!(
        Bq41z50Error::<()>::BatteryStatus(BatteryStatus::from_bits(0x000D)).kind(),
        ErrorKind::BatteryStatus(ErrorCode::UnknownError)
    );
    assert_eq!(Bq41z50Error::<()>::DataTooLarge.kind(), ErrorKind::Other);
    let converted: Bq41z50Error<BusErrorKind> = BusErrorKind::Overrun.into();
    assert!(matches!(converted, Bq41z50Error::Bus(BusErrorKind::Overrun)));
}

#[test]
fn error_code_bits_match_the_smart_battery_codes() {
    for raw in 0u8..=255 {
        let ours = ErrorCode::from_bits(raw);
        let theirs = OutsideErrorCode::from(raw);
        assert_eq!(ours.into_bits(), theirs as u8);
    }
    assert_eq!(ErrorCode::from_bits(ErrorCode::BadSize.into_bits()), ErrorCode::BadSize);
}

#[test]
fn battery_status_reports_ok_fields_and_errors() {
    let ok = BatteryStatus::from_bits(0xC0F0);
    assert_eq!(Bq41z50::battery_status::<()>(ok).unwrap(), 0xC0F0);
    let busy = BatteryStatus::from_bits(0x0081);
    assert!(matches!(
        Bq41z50::battery_status::<()>(busy),
        Err(Bq41z50Error::BatteryStatus(s)) if s == busy
    ));
}

#[test]
fn status_fields_match_the_smart_battery_fields() {
    for raw in 0u16..=u16::MAX {
        let status = BatteryStatus::from_bits(raw);
        let expected = BatteryStatusFields::new()
            .with_error_code(OutsideErrorCode::from((raw & 0xF) as u8))
            .with_fully_discharged(status.fd())
            .with_fully_charged(status.fc())
            .with_discharging(status.dsg())
            .with_initialized(status.init())
            .with_remaining_time_alarm(status.rta())
            .with_remaining_capacity_alarm(status.rca())
            .with_terminate_discharge_alarm(status.tda())
            .with_over_temp_alarm(status.ota())
            .with_terminate_charge_alarm(status.tca())
            .with_over_charged_alarm(status.oca());
        assert_eq!(status.status_fields_bits(), expected.into_bits());
    }
}

#[test]
fn status_flag_bits() {
    let s = BatteryStatus::from_bits(0b1000_1000_0001_0000);
    assert!(s.fd() && s.tda() && s.oca());
    assert!(!s.fc() && !s.dsg() && !s.init() && !s.rta() && !s.rca() && !s.ota() && !s.tca());
    assert_eq!(s.ec(), ErrorCode::NoError);
}

#[test]
fn capacity_unit_follows_the_battery_mode() {
    let mut gauge = Bq41z50::new();
    assert_eq!(gauge.capacity_mode_state(), CapacityModeState::Milliamps);
    assert_eq!(gauge.capacity_value(1200), CapacityModeValue::MilliAmpUnsigned(1200));
    let ops = gauge.set_battery_mode(BatteryMode::from_bits(0x8001));
    assert_eq!(written(&ops), vec![vec![BATTERY_MODE, 0x01, 0x80]]);
    assert_eq!(gauge.capacity_mode_state(), CapacityModeState::Centiwatt);
    assert_eq!(gauge.capacity_value(1200), CapacityModeValue::CentiWattUnsigned(1200));
    assert_eq!(gauge.capacity_signed_value(-7), CapacityModeSignedValue::CentiWattSigned(-7));
    gauge.set_capacity_mode_state(BatteryMode::from_bits(0x7FFF));
    assert_eq!(gauge.capacity_value(5), CapacityModeValue::MilliAmpUnsigned(5));
    assert_eq!(gauge.capacity_signed_value(-7), CapacityModeSignedValue::MilliAmpSigned(-7));
    assert!(BatteryMode::from_bits(0x8000).capacity_mode());
    assert!(!BatteryMode::from_bits(0x7FFF).capacity_mode());
}

#[test]
fn setters_write_the_raw_number() {
    assert_eq!(
        written(&Bq41z50::set_remaining_capacity_alarm(CapacityModeValue::CentiWattUnsigned(0x0102))),
        vec![vec![REMAINING_CAPACITY_ALARM, 0x02, 0x01]]
    );
    assert_eq!(
        written(&Bq41z50::set_at_rate(CapacityModeSignedValue::MilliAmpSigned(-2))),
        vec![vec![AT_RATE, 0xFE, 0xFF]]
    );
    assert_eq!(written(&Bq41z50::set_remaining_time_alarm(10)), vec![vec![0x02, 0x0A, 0x00]]);
    assert_eq!(written(&write_word(0x09, 0xBEEF)), vec![vec![0x09, 0xEF, 0xBE]]);
}

#[test]
fn words_decode_little_endian() {
    assert_eq!(word_from_response(&[0x34, 0x12]), 0x1234);
    assert_eq!(signed_word_from_response(&[0xFE, 0xFF]), -2);
    assert_eq!(signed_word_from_response(&[0xFF, 0x7F]), i16::MAX);
    assert_eq!(signed_word_from_response(&[0x00, 0x80]), i16::MIN);
    for v in [i16::MIN, -1, 0, 1, i16::MAX] {
        let bytes = u16_to_le(word_of_i16(v));
        assert_eq!(signed_word_from_response(&bytes), v);
    }
    for v in [0u16, 1, 0x00FF, 0xFF00, u16::MAX] {
        assert_eq!(u16_from_le(u16_to_le(v)), v);
        assert_eq!(u16_to_le(v), v.to_le_bytes());
    }
}

#[test]
fn percent_and_at_rate_ok() {
    assert_eq!(percent_from_word(100), 100);
    assert_eq!(percent_from_word(0x0164), 0x64);
    assert!(at_rate_ok_from_word(1));
    assert!(at_rate_ok_from_word(0x8000));
    assert!(!at_rate_ok_from_word(0));
}

#[test]
fn mac_block_reads_back_what_was_written() {
    let data = [1u8, 2, 3, 4, 5];
    let frame = build_mac_frame(0x0042, &data);
    let payload = mac_read_payload(&frame[1..], data.len());
    assert_eq!(payload, data);
    let config = ChargingVoltageOverride {
        low_temp_chrg_mv: 1,
        std_low_temp_chrg_mv: 0xFFFF,
        std_hi_temp_chrg_mv: 0x8000,
        hi_temp_chrg_mv: 42,
        recommended_temp_chrg_mv: 0,
    };
    let ops = Bq41z50::write_charging_voltage_override(&config);
    let written = written(&ops);
    assert_eq!(Bq41z50::charging_voltage_override_from_response(&written[0][1..]), config);
    assert_eq!(ChargingVoltageOverride::default().low_temp_chrg_mv, 0);
}

#[test]
fn dispatch_paths_share_the_command_block() {
    for address in [0x0006u32, 0x2100, 0xABCD, 0x1234_5678] {
        let plain = dispatch_command::<()>(address, 0).unwrap();
        let with_output = dispatch_command::<()>(address, 4).unwrap();
        assert_eq!(written(&plain)[0], written(&with_output)[0]);
        assert_eq!(written(&plain)[0][2..], [((address >> 8) & 0xFF) as u8, (address & 0xFF) as u8]);
        let code = command_code(address);
        assert_eq!(code.to_le_bytes(), [((address >> 8) & 0xFF) as u8, (address & 0xFF) as u8]);
    }
    assert!(matches!(dispatch_command::<()>(0x0006, 33), Err(Bq41z50Error::DataTooLarge)));
}

#[test]
fn buffer_writes_prefix_the_address() {
    assert_eq!(written(&bq41z50::interface::write(0x21, &[7, 8, 9])), vec![vec![0x21, 7, 8, 9]]);
}
