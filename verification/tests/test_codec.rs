use lxp_bridge::codec::{decode, encode, DecodeResult};
use lxp_bridge::packet::{DeviceFunction, Heartbeat, Packet, ReadParam, TranslatedData, WriteParam};
use lxp_bridge::serial::Serial;

fn serial(text: &str) -> Serial {
    Serial::parse(text).unwrap()
}

fn sample_translated() -> Packet {
    Packet::TranslatedData(TranslatedData {
        datalog: serial("BA12345678"),
        device_function: DeviceFunction::ReadHold,
        inverter: serial("CC00000001"),
        register: 21,
        values: vec![0xFF, 0xFF],
    })
}

#[test]
fn round_trip_heartbeat() {
    let p = Packet::Heartbeat(Heartbeat { datalog: serial("BA12345678") });
    let bytes = encode(&p).unwrap();
    match decode(&bytes) {
        DecodeResult::Decoded(q, n) => {
            assert_eq!(q, p);
            assert_eq!(n, bytes.len());
        }
        _ => panic!("heartbeat did not decode"),
    }
}

#[test]
fn round_trip_translated_data() {
    let p = sample_translated();
    let bytes = encode(&p).unwrap();
    match decode(&bytes) {
        DecodeResult::Decoded(q, n) => {
            assert_eq!(q, p);
            assert_eq!(n, bytes.len());
        }
        _ => panic!("translated data did not decode"),
    }
}

#[test]
fn round_trip_read_param() {
    let p = Packet::ReadParam(ReadParam {
        datalog: serial("BA12345678"),
        register: 7,
        values: vec![],
    });
    let bytes = encode(&p).unwrap();
    match decode(&bytes) {
        DecodeResult::Decoded(q, n) => {
            assert_eq!(q, p);
            assert_eq!(n, bytes.len());
        }
        _ => panic!("read param did not decode"),
    }
}

#[test]
fn round_trip_write_param() {
    let p = Packet::WriteParam(WriteParam {
        datalog: serial("BA12345678"),
        register: 3,
        values: vec![0x34, 0x12],
    });
    let bytes = encode(&p).unwrap();
    match decode(&bytes) {
        DecodeResult::Decoded(q, n) => {
            assert_eq!(q, p);
            assert_eq!(n, bytes.len());
        }
        _ => panic!("write param did not decode"),
    }
}

#[test]
fn decode_empty_is_incomplete() {
    let buf: Vec<u8> = Vec::new();
    assert!(matches!(decode(&buf), DecodeResult::Incomplete));
}

#[test]
fn decode_partial_frame_is_incomplete() {
    let p = sample_translated();
    let mut bytes = encode(&p).unwrap();
    bytes.truncate(bytes.len() - 1);
    assert!(matches!(decode(&bytes), DecodeResult::Incomplete));
}

#[test]
fn decode_bad_prefix_is_invalid() {
    let p = sample_translated();
    let mut bytes = encode(&p).unwrap();
    bytes[0] = 0;
    assert!(matches!(decode(&bytes), DecodeResult::Invalid));
}

#[test]
fn decode_bad_checksum_is_invalid() {
    let p = sample_translated();
    let mut bytes = encode(&p).unwrap();
    let last = bytes.len() - 1;
    bytes[last] = bytes[last].wrapping_add(1);
    assert!(matches!(decode(&bytes), DecodeResult::Invalid));
}

#[test]
fn decode_takes_good_prefix_before_garbage() {
    let p = sample_translated();
    let mut bytes = encode(&p).unwrap();
    let frame_len = bytes.len();
    bytes.extend_from_slice(&[9, 9, 9, 9, 9, 9]);
    match decode(&bytes) {
        DecodeResult::Decoded(q, n) => {
            assert_eq!(q, p);
            assert_eq!(n, frame_len);
            let rest: Vec<u8> = bytes[n..].to_vec();
            assert!(matches!(decode(&rest), DecodeResult::Invalid));
        }
        _ => panic!("prefix did not decode"),
    }
}

#[test]
fn encode_refuses_oversized_payload() {
    let p = Packet::TranslatedData(TranslatedData {
        datalog: serial("BA12345678"),
        device_function: DeviceFunction::ReadHold,
        inverter: serial("CC00000001"),
        register: 0,
        values: vec![0; 65506],
    });
    assert!(encode(&p).is_err());
}

#[test]
fn translated_data_pairs_and_value() {
    let td = TranslatedData {
        datalog: serial("BA12345678"),
        device_function: DeviceFunction::ReadHold,
        inverter: serial("CC00000001"),
        register: 10,
        values: vec![1, 0, 0, 2],
    };
    assert_eq!(td.pairs(), vec![(10, 1), (11, 512)]);
    assert_eq!(td.value(), 1);
}

#[test]
fn device_function_codes_round_trip() {
    for f in [
        DeviceFunction::ReadHold,
        DeviceFunction::ReadInput,
        DeviceFunction::WriteSingle,
        DeviceFunction::WriteMulti,
    ] {
        assert_eq!(DeviceFunction::from_code(f.code()), Some(f));
    }
    assert_eq!(DeviceFunction::ReadHold.code(), 3);
    assert_eq!(DeviceFunction::ReadInput.code(), 4);
    assert_eq!(DeviceFunction::WriteSingle.code(), 6);
    assert_eq!(DeviceFunction::WriteMulti.code(), 16);
    assert_eq!(DeviceFunction::from_code(99), None);
    assert!(DeviceFunction::WriteSingle.is_write());
    assert!(DeviceFunction::WriteMulti.is_write());
    assert!(!DeviceFunction::ReadHold.is_write());
}

#[test]
fn describe_names_kind_and_register() {
    let td = sample_translated();
    assert_eq!(td.describe(), "TranslatedData register 21");
    let hb = Packet::Heartbeat(Heartbeat { datalog: serial("BA12345678") });
    assert_eq!(hb.describe(), "Heartbeat");
}

#[test]
fn reply_matching_follows_fingerprint() {
    let req = sample_translated();
    let reply_good = Packet::TranslatedData(TranslatedData {
        datalog: serial("BA12345678"),
        device_function: DeviceFunction::ReadHold,
        inverter: serial("CC00000001"),
        register: 21,
        values: vec![0x34, 0x12],
    });
    let reply_wrong_register = Packet::TranslatedData(TranslatedData {
        datalog: serial("BA12345678"),
        device_function: DeviceFunction::ReadHold,
        inverter: serial("CC00000001"),
        register: 22,
        values: vec![0x34, 0x12],
    });
    let reply_wrong_function = Packet::TranslatedData(TranslatedData {
        datalog: serial("BA12345678"),
        device_function: DeviceFunction::ReadInput,
        inverter: serial("CC00000001"),
        register: 21,
        values: vec![0x34, 0x12],
    });
    assert!(reply_good.is_reply_to(&req));
    assert!(!reply_wrong_register.is_reply_to(&req));
    assert!(!reply_wrong_function.is_reply_to(&req));
}
