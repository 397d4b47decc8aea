use bq41z50::error::Bq41z50Error;
use bq41z50::gauge::{Bq41z50, ChargingVoltageOverride};
use bq41z50::interface::{dispatch_command, mac_read, mac_read_payload, read_register, write_register};
use bq41z50::wire::{u16_from_le, u16_to_le, BusOp, BQ41Z50_ADDR};

#[derive(Debug, PartialEq)]
enum Transfer {
    Write(Vec<u8>),
    WriteRead(Vec<u8>, usize),
}

fn transfers(ops: &[BusOp]) -> Vec<Transfer> {
    ops.iter()
        .map(|op| match op {
            BusOp::Write(bytes) => Transfer::Write(bytes.clone()),
            BusOp::WriteRead(bytes, len) => Transfer::WriteRead(bytes.clone(), *len),
        })
        .collect()
}

#[test]
fn construct_interface() {
    assert_eq!(BQ41Z50_ADDR, 0x0B);
    assert_eq!(transfers(&read_register(0x08, 2)), vec![Transfer::WriteRead(vec![0x08], 2)]);
    assert_eq!(u16_from_le([0xFF, 0x00]), 0x00FF);
    assert_eq!(
        transfers(&write_register(0x4A, &u16_to_le(5))),
        vec![Transfer::Write(vec![0x4A, 0x05, 0x00])]
    );
    assert_eq!(
        transfers(&write_register(0x1C, &u16_to_le(67))),
        vec![Transfer::Write(vec![0x1C, 0x43, 0x00])]
    );
}

#[test]
fn mac_command_no_input_no_output() {
    let ops = dispatch_command::<()>(0x2100, 0).unwrap();
    assert_eq!(transfers(&ops), vec![Transfer::Write(vec![0x44, 0x02, 0x21, 0x00])]);
}

#[test]
fn mac_command_chemical_id() {
    let ops = dispatch_command::<()>(0x0600, 2).unwrap();
    assert_eq!(
        transfers(&ops),
        vec![
            Transfer::Write(vec![0x44, 0x02, 0x06, 0x00]),
            Transfer::WriteRead(vec![0x44], 5),
        ]
    );
    let payload = mac_read_payload(&[0x04, 0x06, 0x00, 0x00, 0x01], 2);
    assert_eq!(u16_from_le([payload[0], payload[1]]), 0x0100);
}

#[test]
fn security_keys_wire_format() {
    let keys = [0x10, 0x32, 0x54, 0x76, 0x98, 0xBA, 0xDC, 0xFE];
    assert_eq!(
        transfers(&Bq41z50::write_security_keys(&keys)),
        vec![Transfer::Write(vec![0x44, 0x0A, 0x35, 0x00, 0x10, 0x32, 0x54, 0x76, 0x98, 0xBA, 0xDC, 0xFE])]
    );
    assert_eq!(
        transfers(&Bq41z50::read_security_keys()),
        vec![
            Transfer::Write(vec![0x44, 0x02, 0x35, 0x00]),
            Transfer::WriteRead(vec![0x44], 11),
        ]
    );
    let output = mac_read_payload(&[0x0A, 0x35, 0x00, 0x10, 0x32, 0x54, 0x76, 0x98, 0xBA, 0xDC, 0xFE], 8);
    assert_eq!(output, keys);
}

#[test]
fn authentication_key_wire_format() {
    let key = [0xA5; 16];
    let mut write = vec![0x44, 0x12, 0x37, 0x00];
    write.extend_from_slice(&key);
    let mut response = vec![0x12, 0x37, 0x00];
    response.extend_from_slice(&key);
    assert_eq!(transfers(&Bq41z50::write_authentication_key(&key)), vec![Transfer::Write(write)]);
    assert_eq!(
        transfers(&Bq41z50::read_authentication_key()),
        vec![
            Transfer::Write(vec![0x44, 0x02, 0x37, 0x00]),
            Transfer::WriteRead(vec![0x44], 19),
        ]
    );
    let output = mac_read_payload(&response, 16);
    assert_eq!(output.len(), 16);
    assert_eq!(output, key);
}

#[test]
fn mfg_info_preserves_the_length_byte() {
    let data: Vec<u8> = (0..32).collect();
    let mut write = vec![0x70, 0x20];
    write.extend_from_slice(&data);
    assert_eq!(
        transfers(&Bq41z50::write_mfg_info::<()>(&data).unwrap()),
        vec![Transfer::Write(write)]
    );
    assert_eq!(
        transfers(&Bq41z50::read_mfg_info::<()>(33).unwrap()),
        vec![Transfer::WriteRead(vec![0x70], 33)]
    );
}

#[test]
fn mfg_info_c_sends_access_keys_before_data() {
    for length in [3u8, 32] {
        let data: Vec<u8> = (0..length).collect();
        let mut write = vec![0x44, length + 2, 0x7B, 0x00];
        write.extend_from_slice(&data);
        let mut response = vec![0x22, 0x7B, 0x00];
        response.extend_from_slice(&data);
        assert_eq!(
            transfers(&Bq41z50::write_mfg_info_c::<()>(0x1234, 0x5678, &data).unwrap()),
            vec![
                Transfer::Write(vec![0x44, 0x02, 0x34, 0x12]),
                Transfer::Write(vec![0x44, 0x02, 0x78, 0x56]),
                Transfer::Write(write),
            ]
        );
        assert_eq!(
            transfers(&Bq41z50::read_mfg_info_c::<()>(usize::from(length)).unwrap()),
            vec![
                Transfer::Write(vec![0x44, 0x02, 0x7B, 0x00]),
                Transfer::WriteRead(vec![0x44], usize::from(length) + 3),
            ]
        );
        let output = mac_read_payload(&response, usize::from(length));
        assert_eq!(output, data);
    }
}

#[test]
fn charging_voltage_override_wire_format() {
    let config = ChargingVoltageOverride {
        low_temp_chrg_mv: 0x1234,
        std_low_temp_chrg_mv: 0x5678,
        std_hi_temp_chrg_mv: 0x9ABC,
        hi_temp_chrg_mv: 0xDEF0,
        recommended_temp_chrg_mv: 0x1357,
    };
    assert_eq!(
        transfers(&Bq41z50::write_charging_voltage_override(&config)),
        vec![Transfer::Write(vec![
            0x44, 0x0C, 0xB0, 0x00, 0x34, 0x12, 0x78, 0x56, 0xBC, 0x9A, 0xF0, 0xDE, 0x57, 0x13,
        ])]
    );
    assert_eq!(
        transfers(&Bq41z50::read_charging_voltage_override()),
        vec![
            Transfer::Write(vec![0x44, 0x02, 0xB0, 0x00]),
            Transfer::WriteRead(vec![0x44], 13),
        ]
    );
    let response = [
        0x0C, 0xB0, 0x00, 0x34, 0x12, 0x78, 0x56, 0xBC, 0x9A, 0xF0, 0xDE, 0x57, 0x13,
    ];
    assert_eq!(Bq41z50::charging_voltage_override_from_response(&response), config);
}

#[test]
fn seal_and_unseal_wire_format() {
    assert_eq!(
        transfers(&Bq41z50::unseal_fg(0x1234, 0x5678)),
        vec![
            Transfer::Write(vec![0x44, 0x02, 0x34, 0x12]),
            Transfer::Write(vec![0x44, 0x02, 0x78, 0x56]),
        ]
    );
    assert_eq!(
        transfers(&Bq41z50::seal_fg()),
        vec![Transfer::Write(vec![0x44, 0x02, 0x30, 0x00])]
    );
}

#[test]
fn mac_read_frames_command() {
    let ops = mac_read::<()>(0x1234, 2).unwrap();
    assert_eq!(
        transfers(&ops),
        vec![
            Transfer::Write(vec![0x44, 0x02, 0x34, 0x12]),
            Transfer::WriteRead(vec![0x44], 5),
        ]
    );
    let output = mac_read_payload(&[0x04, 0x34, 0x12, 0xA5, 0x5A], 2);
    assert_eq!(output, [0xA5, 0x5A]);
}

#[test]
fn oversized_data_is_rejected_before_bus_access() {
    assert!(matches!(Bq41z50::write_mfg_info::<()>(&[0; 33]), Err(Bq41z50Error::DataTooLarge)));
    assert!(matches!(Bq41z50::read_mfg_info::<()>(34), Err(Bq41z50Error::DataTooLarge)));
    assert!(matches!(
        Bq41z50::write_mfg_info_c::<()>(0x1234, 0x5678, &[0; 33]),
        Err(Bq41z50Error::DataTooLarge)
    ));
    assert!(matches!(Bq41z50::read_mfg_info_c::<()>(33), Err(Bq41z50Error::DataTooLarge)));
    assert!(matches!(mac_read::<()>(0x007B, 33), Err(Bq41z50Error::DataTooLarge)));
    assert_eq!(
        Bq41z50Error::<()>::DataTooLarge.kind(),
        bq41z50::error::ErrorKind::Other
    );
}
