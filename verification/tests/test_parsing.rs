use lxp_bridge::command::Command;
use lxp_bridge::config::Inverter;
use lxp_bridge::error::Error;
use lxp_bridge::mqtt::{parse_num, parse_time, result_topic, Message, TargetInverter};
use lxp_bridge::serial::Serial;

fn inverter() -> Inverter {
    Inverter {
        enabled: true,
        host: String::from("localhost"),
        port: 8000,
        serial: Serial::parse("CC00000001").unwrap(),
        datalog: Serial::parse("BA12345678").unwrap(),
        heartbeats: None,
        publish_holdings_on_connect: None,
        read_timeout: None,
        use_tcp_nodelay: None,
        register_block_size: None,
        delay_ms: None,
        read_only: None,
    }
}

fn message(topic: &str, payload: &str) -> Message {
    Message::new(String::from(topic), String::from(payload), false)
}

#[test]
fn split_finds_target_and_rest() {
    let msg = message("lxp/cmd/BA12345678/read_inputs/1", "");
    let (target, rest) = msg.split_cmd_topic().unwrap();
    match target {
        TargetInverter::Serial(s) => assert_eq!(s.to_text(), "BA12345678"),
        TargetInverter::All => panic!("expected a serial target"),
    }
    assert_eq!(rest, vec!["read_inputs", "1"]);
}

#[test]
fn split_accepts_all_target() {
    let msg = message("lxp/cmd/all/read_hold/0/40", "");
    let (target, rest) = msg.split_cmd_topic().unwrap();
    assert!(matches!(target, TargetInverter::All));
    assert_eq!(rest, vec!["read_hold", "0", "40"]);
}

#[test]
fn split_rejects_malformed_topics() {
    assert!(message("lxp/cmd/BA12345678", "").split_cmd_topic().is_err());
    assert!(message("lxp/notcmd/BA12345678/read_inputs/1", "").split_cmd_topic().is_err());
    assert!(message("lxp/cmd/SHORT/read_inputs/1", "").split_cmd_topic().is_err());
}

#[test]
fn to_command_parses_reads() {
    let cmd = message("lxp/cmd/BA12345678/read_inputs/2", "").to_command(inverter()).unwrap();
    assert!(matches!(cmd, Command::ReadInputs(_, 2)));
    let cmd = message("lxp/cmd/BA12345678/read_input/40/10", "").to_command(inverter()).unwrap();
    assert!(matches!(cmd, Command::ReadInput(_, 40, 10)));
    let cmd = message("lxp/cmd/BA12345678/read_hold/21/1", "").to_command(inverter()).unwrap();
    assert!(matches!(cmd, Command::ReadHold(_, 21, 1)));
    let cmd = message("lxp/cmd/BA12345678/read_param/7", "").to_command(inverter()).unwrap();
    assert!(matches!(cmd, Command::ReadParam(_, 7)));
    let cmd = message("lxp/cmd/BA12345678/read_ac_charge_time/2", "")
        .to_command(inverter())
        .unwrap();
    assert!(matches!(cmd, Command::ReadAcChargeTime(_, 2)));
}

#[test]
fn to_command_parses_writes() {
    let cmd = message("lxp/cmd/BA12345678/set_hold/21", "65535").to_command(inverter()).unwrap();
    assert!(matches!(cmd, Command::SetHold(_, 21, 65535)));
    let cmd = message("lxp/cmd/BA12345678/write_param/7", "3").to_command(inverter()).unwrap();
    assert!(matches!(cmd, Command::WriteParam(_, 7, 3)));
    let cmd = message("lxp/cmd/BA12345678/ac_charge", "1").to_command(inverter()).unwrap();
    assert!(matches!(cmd, Command::AcCharge(_, true)));
    let cmd = message("lxp/cmd/BA12345678/forced_discharge", "0").to_command(inverter()).unwrap();
    assert!(matches!(cmd, Command::ForcedDischarge(_, false)));
    let cmd = message("lxp/cmd/BA12345678/charge_rate", "80").to_command(inverter()).unwrap();
    assert!(matches!(cmd, Command::ChargeRate(_, 80)));
    let cmd = message("lxp/cmd/BA12345678/discharge_cutoff_soc_limit", "20")
        .to_command(inverter())
        .unwrap();
    assert!(matches!(cmd, Command::DischargeCutoffSocLimit(_, 20)));
    let cmd = message("lxp/cmd/BA12345678/set_ac_charge_time/1", "08:30-21:45")
        .to_command(inverter())
        .unwrap();
    assert!(matches!(cmd, Command::SetAcChargeTime(_, 1, (8, 30, 21, 45))));
}

#[test]
fn to_command_rejects_bad_inputs() {
    assert!(matches!(
        message("lxp/cmd/BA12345678/read_inputs/5", "").to_command(inverter()),
        Err(Error::BadCommand)
    ));
    assert!(matches!(
        message("lxp/cmd/BA12345678/set_hold/21", "texty").to_command(inverter()),
        Err(Error::BadCommand)
    ));
    assert!(matches!(
        message("lxp/cmd/BA12345678/ac_charge", "2").to_command(inverter()),
        Err(Error::BadCommand)
    ));
    assert!(matches!(
        message("lxp/cmd/BA12345678/set_ac_charge_time/1", "8:30-21:45").to_command(inverter()),
        Err(Error::BadTime)
    ));
    assert!(matches!(
        message("lxp/cmd/BA12345678/read_ac_charge_time/4", "").to_command(inverter()),
        Err(Error::BadCommand)
    ));
    assert!(matches!(
        message("lxp/cmd/BA12345678/frobnicate", "").to_command(inverter()),
        Err(Error::BadCommand)
    ));
}

#[test]
fn parse_num_bounds() {
    assert_eq!(parse_num("0"), Some(0));
    assert_eq!(parse_num("65535"), Some(65535));
    assert_eq!(parse_num("65536"), None);
    assert_eq!(parse_num(""), None);
    assert_eq!(parse_num("12a"), None);
    assert_eq!(parse_num("007"), Some(7));
}

#[test]
fn parse_time_shape() {
    assert_eq!(parse_time("08:30-21:45"), Some((8, 30, 21, 45)));
    assert_eq!(parse_time("00:00-23:59"), Some((0, 0, 23, 59)));
    assert_eq!(parse_time("8:30-21:45"), None);
    assert_eq!(parse_time("08:30:21:45"), None);
    assert_eq!(parse_time("08:3x-21:45"), None);
    // shape only: the range check belongs to the command
    assert_eq!(parse_time("25:00-00:00"), Some((25, 0, 0, 0)));
}

#[test]
fn write_commands_are_classified() {
    let read = message("lxp/cmd/BA12345678/read_hold/21/1", "").to_command(inverter()).unwrap();
    assert!(!read.is_write());
    let write = message("lxp/cmd/BA12345678/set_hold/21", "1").to_command(inverter()).unwrap();
    assert!(write.is_write());
    let bit = message("lxp/cmd/BA12345678/ac_charge", "1").to_command(inverter()).unwrap();
    assert!(bit.is_write());
    assert_eq!(read.inverter().datalog().to_text(), "BA12345678");
}

#[test]
fn result_topic_appends_suffix() {
    assert_eq!(
        result_topic("lxp/cmd/BA12345678/set_hold/21"),
        "lxp/cmd/BA12345678/set_hold/21/result"
    );
}

#[test]
fn serial_parse_and_render() {
    let s = Serial::parse("BA12345678").unwrap();
    assert_eq!(s.to_text(), "BA12345678");
    assert!(Serial::parse("SHORT").is_err());
    assert!(Serial::parse("TOOLONGSERIAL").is_err());
    let t = Serial::parse("BA12345678").unwrap();
    assert_eq!(s, t);
    assert_ne!(s, Serial::parse("BA12345679").unwrap());
}
