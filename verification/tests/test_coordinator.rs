use lxp_bridge::channels::{Channels, SinkData};
use lxp_bridge::config::{
    Config, ConfigWrapper, HomeAssistant, Influx, Inverter, Mqtt,
};
use lxp_bridge::coordinator::Coordinator;
use lxp_bridge::error::Error;
use lxp_bridge::inverter::ChannelData as InverterChannelData;
use lxp_bridge::mqtt::{ChannelData as MqttChannelData, Message};
use lxp_bridge::packet::{DeviceFunction, Packet, TranslatedData};
use lxp_bridge::register_cache::{ChannelData as CacheChannelData, RegisterCache};
use lxp_bridge::serial::Serial;

fn test_inverter(read_only: bool, publish_holdings: bool) -> Inverter {
    Inverter {
        enabled: true,
        host: String::from("localhost"),
        port: 8000,
        serial: Serial::parse("CC00000001").unwrap(),
        datalog: Serial::parse("BA12345678").unwrap(),
        heartbeats: None,
        publish_holdings_on_connect: if publish_holdings { Some(true) } else { None },
        read_timeout: None,
        use_tcp_nodelay: None,
        register_block_size: None,
        delay_ms: None,
        read_only: if read_only { Some(true) } else { None },
    }
}

fn test_config(read_only: bool, publish_holdings: bool) -> Config {
    Config {
        inverters: vec![test_inverter(read_only, publish_holdings)],
        mqtt: Mqtt {
            enabled: true,
            host: String::from("localhost"),
            port: 1883,
            username: None,
            password: None,
            namespace: String::from("lxp"),
            homeassistant: HomeAssistant { enabled: false, prefix: String::from("homeassistant") },
            publish_individual_input: None,
        },
        influx: Influx {
            enabled: false,
            url: String::new(),
            username: None,
            password: None,
            database: String::new(),
        },
        databases: vec![],
        scheduler: None,
        loglevel: String::from("debug"),
        read_only: false,
    }
}

fn test_coordinator(read_only: bool, publish_holdings: bool) -> Coordinator {
    let wrapper = ConfigWrapper::new(test_config(read_only, publish_holdings)).unwrap();
    let mut co = Coordinator::new(wrapper, Channels::new());
    co.channels.to_inverter.subscribe();
    co.channels.to_mqtt.subscribe();
    co.channels.to_register_cache.subscribe();
    co.channels.to_influx.subscribe();
    co.channels.to_database.subscribe();
    co
}

fn sent_frame(co: &Coordinator, i: usize) -> Packet {
    match co.channels.to_inverter.get(i) {
        Some(InverterChannelData::Packet(p)) => p.clone(),
        _ => panic!("no frame at index {}", i),
    }
}

fn published(co: &Coordinator, i: usize) -> Message {
    match co.channels.to_mqtt.get(i) {
        Some(MqttChannelData::Message(m)) => m.clone(),
        _ => panic!("no publish at index {}", i),
    }
}

fn feed_reply(co: &mut Coordinator, reply: &Packet) {
    co.channels
        .from_inverter
        .send(InverterChannelData::Packet(reply.clone()))
        .unwrap();
}

fn cache_of(co: &Coordinator) -> RegisterCache {
    let mut msgs: Vec<CacheChannelData> = Vec::new();
    let mut i = 0;
    while let Some(m) = co.channels.to_register_cache.get(i) {
        msgs.push(*m);
        i += 1;
    }
    let mut cache = RegisterCache::new();
    cache.apply_all(&msgs);
    cache
}

#[test]
fn read_input_page_one() {
    let mut co = test_coordinator(false, false);
    let msg = Message::new(
        String::from("lxp/cmd/BA12345678/read_inputs/1"),
        String::new(),
        false,
    );
    let mut pendings = co.process_message(&msg);
    assert_eq!(pendings.len(), 1);
    let frame = sent_frame(&co, 0);
    match &frame {
        Packet::TranslatedData(td) => {
            assert_eq!(td.device_function, DeviceFunction::ReadInput);
            assert_eq!(td.register, 0);
            assert_eq!(td.values, vec![40, 0]);
        }
        _ => panic!("expected a TranslatedData request"),
    }
    let reply = Packet::TranslatedData(TranslatedData {
        datalog: Serial::parse("BA12345678").unwrap(),
        device_function: DeviceFunction::ReadInput,
        inverter: Serial::parse("CC00000001").unwrap(),
        register: 0,
        values: vec![0; 80],
    });
    feed_reply(&mut co, &reply);
    let outcome = co.complete_command(pendings.remove(0)).unwrap();
    assert!(outcome.is_none());

    let inv = test_inverter(false, false);
    let before_publishes = co.channels.to_mqtt.len();
    co.process_inverter_packet(&reply, &inv);
    let m = published(&co, before_publishes);
    assert_eq!(m.topic, "BA12345678/inputs/all");
    let mut expected = String::from("{");
    for reg in 0..40 {
        if reg > 0 {
            expected.push(',');
        }
        expected.push_str(&format!("\"{}\":0", reg));
    }
    expected.push('}');
    assert_eq!(m.payload, expected);
    assert!(!m.retain);
    // the decoded batch went to both sinks
    assert!(matches!(co.channels.to_influx.get(0), Some(SinkData::Inputs(_, _))));
    assert!(matches!(co.channels.to_database.get(0), Some(SinkData::Inputs(_, _))));
}

#[test]
fn set_hold_success() {
    let mut co = test_coordinator(false, false);
    let msg = Message::new(
        String::from("lxp/cmd/BA12345678/set_hold/21"),
        String::from("65535"),
        false,
    );
    let mut pendings = co.process_message(&msg);
    assert_eq!(pendings.len(), 1);
    let frame = sent_frame(&co, 0);
    match &frame {
        Packet::TranslatedData(td) => {
            assert_eq!(td.device_function, DeviceFunction::WriteSingle);
            assert_eq!(td.register, 21);
            assert_eq!(td.values, vec![0xFF, 0xFF]);
        }
        _ => panic!("expected a WriteSingle request"),
    }
    let reply = Packet::TranslatedData(TranslatedData {
        datalog: Serial::parse("BA12345678").unwrap(),
        device_function: DeviceFunction::WriteSingle,
        inverter: Serial::parse("CC00000001").unwrap(),
        register: 21,
        values: vec![0xFF, 0xFF],
    });
    feed_reply(&mut co, &reply);
    let before_publishes = co.channels.to_mqtt.len();
    let outcome = co.complete_command(pendings.remove(0)).unwrap();
    assert!(outcome.is_none());
    // no FAIL was published
    assert_eq!(co.channels.to_mqtt.len(), before_publishes);

    let inv = test_inverter(false, false);
    co.process_inverter_packet(&reply, &inv);
    let hold = published(&co, before_publishes);
    assert_eq!(hold.topic, "BA12345678/hold/21");
    assert_eq!(hold.payload, "65535");
    assert!(hold.retain);
    let status = published(&co, before_publishes + 1);
    assert_eq!(status.topic, "BA12345678/write/status");
    assert_eq!(status.payload, "OK: 21 = 65535");
    let cache = cache_of(&co);
    assert_eq!(cache.get(21), Some(65535));
}

#[test]
fn set_hold_mismatch() {
    let mut co = test_coordinator(false, false);
    let msg = Message::new(
        String::from("lxp/cmd/BA12345678/set_hold/21"),
        String::from("65535"),
        false,
    );
    let mut pendings = co.process_message(&msg);
    assert_eq!(pendings.len(), 1);
    let reply = Packet::TranslatedData(TranslatedData {
        datalog: Serial::parse("BA12345678").unwrap(),
        device_function: DeviceFunction::WriteSingle,
        inverter: Serial::parse("CC00000001").unwrap(),
        register: 21,
        values: vec![0x34, 0x12],
    });
    feed_reply(&mut co, &reply);
    let before_cache = co.channels.to_register_cache.len();
    let before_publishes = co.channels.to_mqtt.len();
    let outcome = co.complete_command(pendings.remove(0));
    assert!(matches!(
        outcome,
        Err(Error::WriteMismatch { register: 21, got: 0x1234, wanted: 65535 })
    ));
    let fail = published(&co, before_publishes);
    assert_eq!(fail.topic, "lxp/cmd/BA12345678/set_hold/21/result");
    assert_eq!(fail.payload, "FAIL");
    // the completion path cached nothing
    assert_eq!(co.channels.to_register_cache.len(), before_cache);
}

#[test]
fn read_only_refusal() {
    let mut co = test_coordinator(true, false);
    let msg = Message::new(
        String::from("lxp/cmd/BA12345678/set_hold/21"),
        String::from("65535"),
        false,
    );
    let pendings = co.process_message(&msg);
    assert_eq!(pendings.len(), 0);
    // zero frames were emitted on the inverter socket
    assert_eq!(co.channels.to_inverter.len(), 0);
    let fail = published(&co, 0);
    assert_eq!(fail.topic, "lxp/cmd/BA12345678/set_hold/21/result");
    assert_eq!(fail.payload, "FAIL");
}

#[test]
fn update_hold_ac_charge_enable() {
    let mut co = test_coordinator(false, false);
    let msg = Message::new(
        String::from("lxp/cmd/BA12345678/ac_charge"),
        String::from("1"),
        false,
    );
    let mut pendings = co.process_message(&msg);
    assert_eq!(pendings.len(), 1);
    let read_frame = sent_frame(&co, 0);
    match &read_frame {
        Packet::TranslatedData(td) => {
            assert_eq!(td.device_function, DeviceFunction::ReadHold);
            assert_eq!(td.register, 21);
            assert_eq!(td.values, vec![1, 0]);
        }
        _ => panic!("expected a ReadHold request"),
    }
    let read_reply = Packet::TranslatedData(TranslatedData {
        datalog: Serial::parse("BA12345678").unwrap(),
        device_function: DeviceFunction::ReadHold,
        inverter: Serial::parse("CC00000001").unwrap(),
        register: 21,
        values: vec![0, 0],
    });
    feed_reply(&mut co, &read_reply);
    let next = co.complete_command(pendings.remove(0)).unwrap();
    let second = next.expect("the write half should follow the read");
    let write_frame = sent_frame(&co, 1);
    match &write_frame {
        Packet::TranslatedData(td) => {
            assert_eq!(td.device_function, DeviceFunction::WriteSingle);
            assert_eq!(td.register, 21);
            // bit 7 set
            assert_eq!(td.values, vec![0x80, 0x00]);
        }
        _ => panic!("expected a WriteSingle request"),
    }
    let write_reply = Packet::TranslatedData(TranslatedData {
        datalog: Serial::parse("BA12345678").unwrap(),
        device_function: DeviceFunction::WriteSingle,
        inverter: Serial::parse("CC00000001").unwrap(),
        register: 21,
        values: vec![0x80, 0x00],
    });
    feed_reply(&mut co, &write_reply);
    let outcome = co.complete_command(second).unwrap();
    assert!(outcome.is_none());

    let inv = test_inverter(false, false);
    co.process_inverter_packet(&write_reply, &inv);
    let cache = cache_of(&co);
    assert_eq!(cache.get(21), Some(0x0080));
}

#[test]
fn reply_timeout_publishes_fail() {
    let mut co = test_coordinator(false, false);
    let msg = Message::new(
        String::from("lxp/cmd/BA12345678/read_hold/21/1"),
        String::new(),
        false,
    );
    let mut pendings = co.process_message(&msg);
    assert_eq!(pendings.len(), 1);
    // no reply is ever fed
    let outcome = co.complete_command(pendings.remove(0));
    assert!(matches!(outcome, Err(Error::Timeout)));
    let fail = published(&co, 0);
    assert_eq!(fail.topic, "lxp/cmd/BA12345678/read_hold/21/1/result");
    assert_eq!(fail.payload, "FAIL");
}

#[test]
fn serial_mismatch_drops_packet() {
    let mut co = test_coordinator(false, false);
    let inv = test_inverter(false, false);
    let stray = Packet::TranslatedData(TranslatedData {
        datalog: Serial::parse("BA12345678").unwrap(),
        device_function: DeviceFunction::ReadHold,
        inverter: Serial::parse("XX99999999").unwrap(),
        register: 21,
        values: vec![1, 0],
    });
    co.process_inverter_packet(&stray, &inv);
    assert_eq!(co.stats.serial_mismatches, 1);
    assert_eq!(co.channels.to_mqtt.len(), 0);
    assert_eq!(co.channels.to_register_cache.len(), 0);
}

#[test]
fn read_hold_reply_caches_and_publishes_retained() {
    let mut co = test_coordinator(false, false);
    let inv = test_inverter(false, false);
    let reply = Packet::TranslatedData(TranslatedData {
        datalog: Serial::parse("BA12345678").unwrap(),
        device_function: DeviceFunction::ReadHold,
        inverter: Serial::parse("CC00000001").unwrap(),
        register: 12,
        values: vec![0x21, 0x09, 0x0F, 0x10],
    });
    co.process_inverter_packet(&reply, &inv);
    let first = published(&co, 0);
    assert_eq!(first.topic, "BA12345678/hold/12");
    assert_eq!(first.payload, "2337");
    assert!(first.retain);
    let second = published(&co, 1);
    assert_eq!(second.topic, "BA12345678/hold/13");
    assert_eq!(second.payload, "4111");
    let cache = cache_of(&co);
    assert_eq!(cache.get(12), Some(0x0921));
    assert_eq!(cache.get(13), Some(0x100F));
}

#[test]
fn connect_reads_six_pages_then_time_slots() {
    let mut co = test_coordinator(false, true);
    let datalog = Serial::parse("BA12345678").unwrap();
    let pendings = co.inverter_connected(datalog).unwrap();
    assert_eq!(pendings.len(), 18);
    assert_eq!(co.channels.to_inverter.len(), 18);
    let expected_pages: Vec<u16> = vec![0, 40, 80, 120, 160, 200];
    for (i, reg) in expected_pages.iter().enumerate() {
        match sent_frame(&co, i) {
            Packet::TranslatedData(td) => {
                assert_eq!(td.device_function, DeviceFunction::ReadHold);
                assert_eq!(td.register, *reg);
                assert_eq!(td.values, vec![40, 0]);
            }
            _ => panic!("expected a ReadHold request"),
        }
    }
    // for each slot: AC charge, charge priority, forced discharge, AC first
    let expected_slots: Vec<u16> = vec![
        68, 76, 84, 152, 70, 78, 86, 154, 72, 80, 88, 156,
    ];
    for (i, reg) in expected_slots.iter().enumerate() {
        match sent_frame(&co, 6 + i) {
            Packet::TranslatedData(td) => {
                assert_eq!(td.device_function, DeviceFunction::ReadHold);
                assert_eq!(td.register, *reg);
                assert_eq!(td.values, vec![2, 0]);
            }
            _ => panic!("expected a ReadHold request"),
        }
    }
}

#[test]
fn disabled_mqtt_ignores_messages() {
    let mut config = test_config(false, false);
    config.mqtt.enabled = false;
    let wrapper = ConfigWrapper::new(config).unwrap();
    let mut co = Coordinator::new(wrapper, Channels::new());
    co.channels.to_inverter.subscribe();
    let msg = Message::new(
        String::from("lxp/cmd/BA12345678/read_inputs/1"),
        String::new(),
        false,
    );
    let pendings = co.process_message(&msg);
    assert_eq!(pendings.len(), 0);
    assert_eq!(co.channels.to_inverter.len(), 0);
}

#[test]
fn unknown_verb_publishes_fail() {
    let mut co = test_coordinator(false, false);
    let msg = Message::new(
        String::from("lxp/cmd/BA12345678/frobnicate/1"),
        String::new(),
        false,
    );
    let pendings = co.process_message(&msg);
    assert_eq!(pendings.len(), 0);
    assert_eq!(co.channels.to_inverter.len(), 0);
    let fail = published(&co, 0);
    assert_eq!(fail.topic, "lxp/cmd/BA12345678/frobnicate/1/result");
    assert_eq!(fail.payload, "FAIL");
}

#[test]
fn unroutable_topic_publishes_fail() {
    let mut co = test_coordinator(false, false);
    let msg = Message::new(String::from("lxp/odd/topic"), String::new(), false);
    let pendings = co.process_message(&msg);
    assert_eq!(pendings.len(), 0);
    assert_eq!(co.channels.to_inverter.len(), 0);
    let fail = published(&co, 0);
    assert_eq!(fail.topic, "lxp/odd/topic/result");
    assert_eq!(fail.payload, "FAIL");
}

#[test]
fn handle_inbound_routes_by_datalog() {
    let mut co = test_coordinator(false, false);
    // a frame from a datalog no enabled inverter carries is dropped
    let stray = Packet::TranslatedData(TranslatedData {
        datalog: Serial::parse("ZZ00000000").unwrap(),
        device_function: DeviceFunction::ReadHold,
        inverter: Serial::parse("CC00000001").unwrap(),
        register: 21,
        values: vec![1, 0],
    });
    assert!(!co.handle_inbound(&stray));
    assert_eq!(co.stats.packets_received, 1);
    assert_eq!(co.channels.to_mqtt.len(), 0);
    assert_eq!(co.channels.to_register_cache.len(), 0);
    // a frame from the configured datalog is routed and cached
    let good = Packet::TranslatedData(TranslatedData {
        datalog: Serial::parse("BA12345678").unwrap(),
        device_function: DeviceFunction::ReadHold,
        inverter: Serial::parse("CC00000001").unwrap(),
        register: 21,
        values: vec![1, 0],
    });
    assert!(co.handle_inbound(&good));
    assert_eq!(co.stats.packets_received, 2);
    assert_eq!(co.stats.translated_data_packets_received, 2);
    let cache = cache_of(&co);
    assert_eq!(cache.get(21), Some(1));
}

#[test]
fn reply_ready_tracks_the_inbound_log() {
    let mut co = test_coordinator(false, false);
    let msg = Message::new(
        String::from("lxp/cmd/BA12345678/read_hold/21/1"),
        String::new(),
        false,
    );
    let mut pendings = co.process_message(&msg);
    let pending = pendings.remove(0);
    assert!(!co.reply_ready(&pending));
    let reply = Packet::TranslatedData(TranslatedData {
        datalog: Serial::parse("BA12345678").unwrap(),
        device_function: DeviceFunction::ReadHold,
        inverter: Serial::parse("CC00000001").unwrap(),
        register: 21,
        values: vec![7, 0],
    });
    feed_reply(&mut co, &reply);
    assert!(co.reply_ready(&pending));
    assert!(co.complete_command(pending).unwrap().is_none());
}

#[test]
fn write_multi_reply_caches_all_pairs() {
    let mut co = test_coordinator(false, false);
    let inv = test_inverter(false, false);
    let reply = Packet::TranslatedData(TranslatedData {
        datalog: Serial::parse("BA12345678").unwrap(),
        device_function: DeviceFunction::WriteMulti,
        inverter: Serial::parse("CC00000001").unwrap(),
        register: 68,
        values: vec![6, 30, 8, 0],
    });
    co.process_inverter_packet(&reply, &inv);
    let cache = cache_of(&co);
    assert_eq!(cache.get(68), Some(30 * 256 + 6));
    assert_eq!(cache.get(69), Some(8));
    let status = published(&co, 0);
    assert_eq!(status.topic, "BA12345678/write_multi/status");
    assert_eq!(status.payload, "OK: [(68, 7686), (69, 8)]");
}

#[test]
fn inbound_packets_are_counted_by_kind() {
    let mut co = test_coordinator(false, false);
    let td = Packet::TranslatedData(TranslatedData {
        datalog: Serial::parse("BA12345678").unwrap(),
        device_function: DeviceFunction::ReadHold,
        inverter: Serial::parse("CC00000001").unwrap(),
        register: 21,
        values: vec![1, 0],
    });
    co.record_inbound(&td);
    co.record_inbound(&td);
    let hb = Packet::Heartbeat(lxp_bridge::packet::Heartbeat {
        datalog: Serial::parse("BA12345678").unwrap(),
    });
    co.record_inbound(&hb);
    assert_eq!(co.stats.packets_received, 3);
    assert_eq!(co.stats.translated_data_packets_received, 2);
    assert_eq!(co.stats.heartbeat_packets_received, 1);
    assert_eq!(co.stats.last_messages.len(), 1);
}

#[test]
fn stats_count_by_kind_and_print() {
    let mut co = test_coordinator(false, false);
    let hb = Packet::Heartbeat(lxp_bridge::packet::Heartbeat {
        datalog: Serial::parse("BA12345678").unwrap(),
    });
    co.increment_packets_sent(&hb);
    assert_eq!(co.stats.packets_sent, 1);
    assert_eq!(co.stats.heartbeat_packets_sent, 1);
    co.stats.increment_serial_mismatches();
    co.stats.record_disconnect(Serial::parse("BA12345678").unwrap());
    co.stats.record_disconnect(Serial::parse("BA12345678").unwrap());
    let summary = co.stats.print_summary();
    assert!(summary.contains("packets sent: 1"));
    assert!(summary.contains("serial mismatches: 1"));
    assert!(summary.contains("disconnections of BA12345678: 2"));
}
