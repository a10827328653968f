use lxp_bridge::config::{
    Config, ConfigWrapper, Database, HomeAssistant, Influx, Inverter, Mqtt, Scheduler,
};
use lxp_bridge::mqtt::Message;
use lxp_bridge::register_cache::{ChannelData, RegisterCache};
use lxp_bridge::scheduler::{timesync_values, Scheduler as TimeScheduler, WallClock};
use lxp_bridge::error::Error;
use lxp_bridge::serial::Serial;

fn base_inverter() -> Inverter {
    Inverter {
        enabled: true,
        host: String::from("localhost"),
        port: 8000,
        serial: Serial::parse("CC00000001").unwrap(),
        datalog: Serial::parse("BA12345678").unwrap(),
        heartbeats: None,
        publish_holdings_on_connect: None,
        read_timeout: None,
        use_tcp_nodelay: None,
        register_block_size: None,
        delay_ms: None,
        read_only: None,
    }
}

fn base_config() -> Config {
    Config {
        inverters: vec![base_inverter()],
        mqtt: Mqtt {
            enabled: true,
            host: String::from("localhost"),
            port: 1883,
            username: None,
            password: None,
            namespace: String::from("lxp"),
            homeassistant: HomeAssistant { enabled: false, prefix: String::from("homeassistant") },
            publish_individual_input: None,
        },
        influx: Influx {
            enabled: false,
            url: String::new(),
            username: None,
            password: None,
            database: String::new(),
        },
        databases: vec![],
        scheduler: None,
        loglevel: String::from("debug"),
        read_only: false,
    }
}

#[test]
fn inverter_defaults() {
    let inv = base_inverter();
    assert!(!inv.heartbeats());
    assert!(!inv.publish_holdings_on_connect());
    assert_eq!(inv.read_timeout(), 900);
    assert!(inv.use_tcp_nodelay());
    assert_eq!(inv.register_block_size(), 40);
    assert_eq!(inv.delay_ms(), 1000);
    assert!(!inv.read_only());
}

#[test]
fn config_defaults() {
    assert_eq!(Config::default_mqtt_port(), 1883);
    assert_eq!(Config::default_mqtt_namespace(), "lxp");
    assert_eq!(Config::default_mqtt_homeassistant_prefix(), "homeassistant");
    assert!(Config::default_enabled());
    assert_eq!(Config::default_loglevel(), "debug");
    let ha = Config::default_mqtt_homeassistant();
    assert!(ha.enabled);
    assert_eq!(ha.prefix, "homeassistant");
}

#[test]
fn validate_accepts_base_and_rejects_faults() {
    assert!(base_config().validate().is_ok());

    let mut bad_port = base_config();
    bad_port.mqtt.port = 0;
    assert!(bad_port.validate().is_err());

    let mut empty_host = base_config();
    empty_host.inverters[0].host = String::new();
    assert!(empty_host.validate().is_err());

    let mut zero_timeout = base_config();
    zero_timeout.inverters[0].read_timeout = Some(0);
    assert!(zero_timeout.validate().is_err());

    let mut bad_influx = base_config();
    bad_influx.influx.enabled = true;
    bad_influx.influx.url = String::from("not a url");
    bad_influx.influx.database = String::from("solar");
    assert!(bad_influx.validate().is_err());

    let mut good_influx = base_config();
    good_influx.influx.enabled = true;
    good_influx.influx.url = String::from("http://localhost:8086");
    good_influx.influx.database = String::from("solar");
    assert!(good_influx.validate().is_ok());

    let mut bad_database = base_config();
    bad_database.databases = vec![Database { enabled: true, url: String::from("::::") }];
    assert!(bad_database.validate().is_err());

    let mut empty_cron = base_config();
    empty_cron.scheduler = Some(Scheduler { enabled: true, timesync_cron: Some(String::new()) });
    assert!(empty_cron.validate().is_err());

    // a disabled inverter is not validated
    let mut disabled = base_config();
    disabled.inverters[0].enabled = false;
    disabled.inverters[0].port = 0;
    assert!(disabled.validate().is_ok());
}

#[test]
fn lookups_return_the_first_match() {
    let mut config = base_config();
    let mut second = base_inverter();
    second.port = 9999;
    config.inverters.push(second);
    let wrapper = ConfigWrapper::new(config).unwrap();
    // two inverters share the host and the datalog: the first wins
    assert_eq!(wrapper.inverter_with_host("localhost").unwrap().port, 8000);
    assert_eq!(
        wrapper
            .enabled_inverter_with_datalog(Serial::parse("BA12345678").unwrap())
            .unwrap()
            .port,
        8000
    );
}

#[test]
fn wrapper_filters_and_finds() {
    let mut config = base_config();
    let mut second = base_inverter();
    second.enabled = false;
    second.datalog = Serial::parse("BB00000000").unwrap();
    config.inverters.push(second);
    let wrapper = ConfigWrapper::new(config).unwrap();

    assert_eq!(wrapper.inverters().len(), 2);
    assert_eq!(wrapper.enabled_inverters().len(), 1);
    assert!(wrapper
        .enabled_inverter_with_datalog(Serial::parse("BA12345678").unwrap())
        .is_some());
    // the disabled inverter is not offered
    assert!(wrapper
        .enabled_inverter_with_datalog(Serial::parse("BB00000000").unwrap())
        .is_none());
    assert!(wrapper.inverter_with_host("localhost").is_some());
    assert!(wrapper.inverter_with_host("elsewhere").is_none());
    assert!(!wrapper.have_enabled_database());
    assert!(!wrapper.read_only());
    assert_eq!(wrapper.loglevel(), "debug");
    assert!(wrapper.mqtt().enabled);
    assert!(!wrapper.influx().enabled);
    assert!(wrapper.scheduler().is_none());
}

#[test]
fn wrapper_routes_messages_by_target() {
    let wrapper = ConfigWrapper::new(base_config()).unwrap();
    let all = Message::new(String::from("lxp/cmd/all/read_inputs/1"), String::new(), false);
    assert_eq!(wrapper.inverters_for_message(&all).unwrap().len(), 1);
    let named = Message::new(
        String::from("lxp/cmd/BA12345678/read_inputs/1"),
        String::new(),
        false,
    );
    assert_eq!(wrapper.inverters_for_message(&named).unwrap().len(), 1);
    let other = Message::new(
        String::from("lxp/cmd/ZZ00000000/read_inputs/1"),
        String::new(),
        false,
    );
    assert_eq!(wrapper.inverters_for_message(&other).unwrap().len(), 0);
    let bad = Message::new(String::from("odd/topic"), String::new(), false);
    assert!(wrapper.inverters_for_message(&bad).is_err());
}

#[test]
fn wrapper_setters_replace_lists() {
    let mut wrapper = ConfigWrapper::new(base_config()).unwrap();
    wrapper.set_inverters(Vec::new());
    assert_eq!(wrapper.inverters().len(), 0);
    wrapper.set_databases(vec![Database { enabled: true, url: String::from("sqlite://db") }]);
    assert_eq!(wrapper.databases().len(), 1);
    assert!(wrapper.have_enabled_database());
}

#[test]
fn register_cache_last_write_wins() {
    let mut cache = RegisterCache::new();
    assert_eq!(cache.get(21), None);
    cache.set(21, 1);
    cache.set(21, 2);
    cache.set(40, 7);
    assert_eq!(cache.get(21), Some(2));
    assert_eq!(cache.get(40), Some(7));
    let msgs = vec![
        ChannelData::RegisterData(21, 9),
        ChannelData::Shutdown,
        ChannelData::RegisterData(21, 10),
    ];
    cache.apply_all(&msgs);
    assert_eq!(cache.get(21), Some(10));
}

#[test]
fn timesync_packs_the_clock() {
    let clock = WallClock { year: 2025, month: 9, day: 30, hour: 12, minute: 5, second: 59 };
    let (r12, r13, r14) = timesync_values(clock);
    assert_eq!(r12, 9 * 256 + 25);
    assert_eq!(r13, 12 * 256 + 30);
    assert_eq!(r14, 59 * 256 + 5);
}

#[test]
fn scheduler_issues_three_writes_per_inverter() {
    let wrapper = ConfigWrapper::new(base_config()).unwrap();
    let scheduler = TimeScheduler::new(wrapper);
    assert!(!scheduler.timesync_enabled());
    let clock = WallClock { year: 2025, month: 1, day: 2, hour: 3, minute: 4, second: 5 };
    let commands = scheduler.timesync_commands(clock);
    assert_eq!(commands.len(), 3);
    match &commands[0] {
        lxp_bridge::command::Command::SetHold(_, 12, v) => assert_eq!(*v, 256 + 25),
        _ => panic!("expected a register 12 write"),
    }

    let mut with_cron = base_config();
    with_cron.scheduler = Some(Scheduler {
        enabled: true,
        timesync_cron: Some(String::from("0 0 * * *")),
    });
    let scheduler = TimeScheduler::new(ConfigWrapper::new(with_cron).unwrap());
    assert!(scheduler.timesync_enabled());
}

#[test]
fn error_labels_are_stable() {
    assert_eq!(Error::Timeout.label(), "timeout");
    assert_eq!(Error::ReadOnly.label(), "read only");
    assert_eq!(
        Error::WriteMismatch { register: 21, got: 1, wanted: 2 }.label(),
        "write mismatch"
    );
    assert_eq!(Error::BadTime.label(), "bad time");
    assert_eq!(Error::BadCommand.label(), "bad command");
}
