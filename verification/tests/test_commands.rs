use lxp_bridge::channels::Channels;
use lxp_bridge::command::{Register, RegisterBit};
use lxp_bridge::config::Inverter;
use lxp_bridge::coordinator::commands::parse_hold::parse_hold_register;
use lxp_bridge::coordinator::commands::read_hold::ReadHold;
use lxp_bridge::coordinator::commands::set_hold::SetHold;
use lxp_bridge::coordinator::commands::time_register_ops::{
    pack_time, unpack_time, Action, SetTimeRegister,
};
use lxp_bridge::coordinator::commands::update_hold::updated_value;
use lxp_bridge::coordinator::commands::write_param::WriteParam;
use lxp_bridge::error::Error;
use lxp_bridge::packet::{DeviceFunction, Packet};
use lxp_bridge::serial::Serial;

fn inverter(read_only: bool) -> Inverter {
    Inverter {
        enabled: true,
        host: String::from("localhost"),
        port: 8000,
        serial: Serial::parse("CC00000001").unwrap(),
        datalog: Serial::parse("BA12345678").unwrap(),
        heartbeats: None,
        publish_holdings_on_connect: None,
        read_timeout: None,
        use_tcp_nodelay: None,
        register_block_size: None,
        delay_ms: None,
        read_only: if read_only { Some(true) } else { None },
    }
}

#[test]
fn set_hold_builds_write_single() {
    let set = SetHold::new(inverter(false), 21, 0x1234);
    match set.packet() {
        Packet::TranslatedData(td) => {
            assert_eq!(td.device_function, DeviceFunction::WriteSingle);
            assert_eq!(td.register, 21);
            assert_eq!(td.values, vec![0x34, 0x12]);
        }
        _ => panic!("expected a TranslatedData frame"),
    }
}

#[test]
fn set_hold_refuses_read_only() {
    let set = SetHold::new(inverter(true), 21, 0x1234);
    let mut channels = Channels::new();
    channels.to_inverter.subscribe();
    assert!(matches!(set.request(&mut channels), Err(Error::ReadOnly)));
    assert_eq!(channels.to_inverter.len(), 0);
}

#[test]
fn write_param_refuses_read_only() {
    let write = WriteParam::new(inverter(true), 7, 1);
    let mut channels = Channels::new();
    channels.to_inverter.subscribe();
    assert!(matches!(write.request(&mut channels), Err(Error::ReadOnly)));
    assert_eq!(channels.to_inverter.len(), 0);
}

#[test]
fn set_time_register_refuses_read_only_and_bad_time() {
    let mut channels = Channels::new();
    channels.to_inverter.subscribe();
    let refused = SetTimeRegister::new(inverter(true), Action::AcCharge(1), (8, 0, 21, 30));
    assert!(matches!(refused.request(&mut channels), Err(Error::ReadOnly)));
    let bad = SetTimeRegister::new(inverter(false), Action::AcCharge(1), (24, 0, 21, 30));
    assert!(matches!(bad.request(&mut channels), Err(Error::BadTime)));
    assert_eq!(channels.to_inverter.len(), 0);
    let ok = SetTimeRegister::new(inverter(false), Action::AcCharge(1), (8, 0, 21, 30));
    let (request, _waiter) = ok.request(&mut channels).unwrap();
    match request {
        Packet::TranslatedData(td) => {
            assert_eq!(td.device_function, DeviceFunction::WriteMulti);
            assert_eq!(td.register, 68);
            assert_eq!(td.values, vec![8, 0, 21, 30]);
        }
        _ => panic!("expected a WriteMulti frame"),
    }
}

#[test]
fn set_hold_check_reply_flags_mismatch() {
    let set = SetHold::new(inverter(false), 21, 0xFFFF);
    let echo = Packet::TranslatedData(lxp_bridge::packet::TranslatedData {
        datalog: Serial::parse("BA12345678").unwrap(),
        device_function: DeviceFunction::WriteSingle,
        inverter: Serial::parse("CC00000001").unwrap(),
        register: 21,
        values: vec![0x34, 0x12],
    });
    assert!(matches!(
        set.check_reply(&echo),
        Err(Error::WriteMismatch { register: 21, got: 0x1234, wanted: 0xFFFF })
    ));
}

#[test]
fn update_hold_is_idempotent_on_values() {
    let once = updated_value(0x0000, 0x0080, true);
    let twice = updated_value(once, 0x0080, true);
    assert_eq!(once, 0x0080);
    assert_eq!(twice, once);
    let cleared = updated_value(0xFFFF, 0x0080, false);
    let cleared_again = updated_value(cleared, 0x0080, false);
    assert_eq!(cleared, 0xFF7F);
    assert_eq!(cleared_again, cleared);
}

#[test]
fn register_addresses_and_bit_masks() {
    assert_eq!(Register::Register21.address(), 21);
    assert_eq!(Register::ChargePowerPercentCmd.address(), 64);
    assert_eq!(Register::DischgPowerPercentCmd.address(), 65);
    assert_eq!(Register::AcChargePowerCmd.address(), 66);
    assert_eq!(Register::AcChargeSocLimit.address(), 67);
    assert_eq!(Register::DischgCutOffSocEod.address(), 105);
    assert_eq!(RegisterBit::AcChargeEnable.mask(), 128);
    assert_eq!(RegisterBit::ForcedDischargeEnable.mask(), 1024);
    assert_eq!(RegisterBit::ChargePriorityEnable.mask(), 2048);
}

#[test]
fn time_register_bases() {
    assert_eq!(Action::AcCharge(1).register().unwrap(), 68);
    assert_eq!(Action::AcCharge(3).register().unwrap(), 72);
    assert_eq!(Action::ChargePriority(2).register().unwrap(), 78);
    assert_eq!(Action::ForcedDischarge(1).register().unwrap(), 84);
    assert_eq!(Action::AcFirst(3).register().unwrap(), 156);
    assert!(matches!(Action::AcCharge(4).register(), Err(Error::BadCommand)));
    assert!(matches!(Action::AcFirst(0).register(), Err(Error::BadCommand)));
}

#[test]
fn time_pack_unpack_round_trip() {
    let packed = pack_time((8, 30, 21, 45)).unwrap();
    assert_eq!(packed, (30 * 256 + 8, 45 * 256 + 21));
    assert_eq!(unpack_time(packed.0, packed.1), (8, 30, 21, 45));
    assert!(matches!(pack_time((24, 0, 0, 0)), Err(Error::BadTime)));
    assert!(matches!(pack_time((0, 60, 0, 0)), Err(Error::BadTime)));
    assert!(matches!(pack_time((0, 0, 24, 0)), Err(Error::BadTime)));
    assert!(matches!(pack_time((0, 0, 0, 60)), Err(Error::BadTime)));
}

#[test]
fn read_hold_frame_carries_count() {
    let read = ReadHold::new(inverter(false), 68, 2);
    match read.packet() {
        Packet::TranslatedData(td) => {
            assert_eq!(td.device_function, DeviceFunction::ReadHold);
            assert_eq!(td.register, 68);
            assert_eq!(td.values, vec![2, 0]);
        }
        _ => panic!("expected a TranslatedData frame"),
    }
}

#[test]
fn parse_hold_register_texts() {
    assert_eq!(
        parse_hold_register(12, 0x0919),
        "Time: Month=9 (1-12), Year=2025 (17-255)"
    );
    assert_eq!(
        parse_hold_register(13, 0x0C1F),
        "Time: Hour=12 (0-23), Day=31 (1-31)"
    );
    assert_eq!(
        parse_hold_register(14, 0x3B00),
        "Time: Second=59 (0-59), Minute=0 (0-59)"
    );
    assert_eq!(
        parse_hold_register(7, 5),
        "Hold Register: 7 - Firmware Version Code: 5"
    );
    assert_eq!(
        parse_hold_register(22, 905),
        "Hold Register: 22 - Start PV Voltage: 90.5 V (90.0-500.0V)"
    );
    assert_eq!(
        parse_hold_register(27, 4985),
        "Hold Register: 27 - Grid Connect Low Frequency: 49.85 Hz"
    );
    assert_eq!(
        parse_hold_register(62, 950),
        "Hold Register: 62 - Power Factor Command: 0.950"
    );
    assert_eq!(
        parse_hold_register(68, 0x1E08),
        "Hold Register: 68 - ACChgStart_0 AC charging start time_hour setting: 08:30 (HH:MM)"
    );
    assert_eq!(
        parse_hold_register(83, 1),
        "Grid Voltage Level: 1 - 380V"
    );
    assert_eq!(parse_hold_register(93, 2), "Time Zone: UTC+2");
    assert_eq!(parse_hold_register(93, 0), "Time Zone: UTC0");
    assert_eq!(
        parse_hold_register(1, 7),
        "Unknown hold register 1: 7"
    );
    assert_eq!(
        parse_hold_register(10, 0x0102),
        "Hold Register: 10 - Control CPU Version: 0x0102"
    );
    let reg21 = parse_hold_register(21, 0x0080);
    assert_eq!(
        reg21,
        "Hold Register: 21 - Function Enable Flags: 0b0000000010000000\nEnabled features: AC Charge"
    );
    let reg21_two = parse_hold_register(21, 0x0480);
    assert!(reg21_two.ends_with("Enabled features: AC Charge, Forced Discharge"));
}
