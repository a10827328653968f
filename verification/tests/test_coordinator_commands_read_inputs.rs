use lxp_bridge::channels::Channels;
use lxp_bridge::config::Inverter;
use lxp_bridge::coordinator::commands::read_inputs::ReadInputs;
use lxp_bridge::inverter::ChannelData;
use lxp_bridge::packet::{DeviceFunction, Packet, TranslatedData};
use lxp_bridge::serial::Serial;

fn factory_inverter() -> Inverter {
    Inverter {
        enabled: true,
        host: String::from("localhost"),
        port: 8000,
        serial: Serial::parse("5555555555").unwrap(),
        datalog: Serial::parse("2222222222").unwrap(),
        heartbeats: None,
        publish_holdings_on_connect: None,
        read_timeout: None,
        use_tcp_nodelay: None,
        register_block_size: None,
        delay_ms: None,
        read_only: None,
    }
}

#[test]
fn happy_path() {
    let inverter = factory_inverter();
    let mut channels = Channels::new();
    channels.to_inverter.subscribe();

    let register = 0 as u16;
    let count = 40 as u16;

    let subject = ReadInputs::new(inverter.clone(), register, count);

    let reply = Packet::TranslatedData(TranslatedData {
        datalog: inverter.datalog(),
        device_function: DeviceFunction::ReadInput,
        inverter: inverter.serial(),
        register: 0,
        values: vec![0, 0],
    });

    let (request, waiter) = subject.request(&mut channels).unwrap();
    match channels.to_inverter.get(0) {
        Some(ChannelData::Packet(sent)) => assert_eq!(*sent, request),
        _ => panic!("no frame on the outbound queue"),
    }

    channels
        .from_inverter
        .send(ChannelData::Packet(reply.clone()))
        .unwrap();

    let result = waiter.wait_for_reply(&channels.from_inverter, &request);
    assert_eq!(result.unwrap(), reply.clone());
}
