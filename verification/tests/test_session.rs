use lxp_bridge::channels::Channel;
use lxp_bridge::error::Error;
use lxp_bridge::inverter::{
    next_backoff, ChannelData, InverterWriter, Session, SessionAction, SessionEvent, SessionState,
    WaitForReply, BACKOFF_CAP_MS, BACKOFF_START_MS,
};
use lxp_bridge::packet::{DeviceFunction, Heartbeat, Packet, TranslatedData};
use lxp_bridge::serial::Serial;

fn serial(text: &str) -> Serial {
    Serial::parse(text).unwrap()
}

fn read_frame(register: u16) -> Packet {
    Packet::TranslatedData(TranslatedData {
        datalog: serial("BA12345678"),
        device_function: DeviceFunction::ReadHold,
        inverter: serial("CC00000001"),
        register,
        values: vec![1, 0],
    })
}

#[test]
fn wait_for_reply_sees_only_later_matches() {
    let mut ch: Channel<ChannelData> = Channel::new();
    let req = read_frame(21);
    // a matching packet sent before the subscription is not delivered
    ch.subscribe();
    ch.send(ChannelData::Packet(read_frame(21))).unwrap();
    let waiter = WaitForReply::subscribe(&mut ch);
    assert!(matches!(
        waiter.wait_for_reply(&ch, &req),
        Err(Error::Timeout)
    ));
    // an unrelated packet is skipped, the matching one returned
    ch.send(ChannelData::Packet(read_frame(40))).unwrap();
    ch.send(ChannelData::Packet(read_frame(21))).unwrap();
    let got = waiter.wait_for_reply(&ch, &req).unwrap();
    assert_eq!(got, read_frame(21));
}

#[test]
fn writer_paces_and_preserves_order() {
    let mut queue: Channel<ChannelData> = Channel::new();
    queue.subscribe();
    queue.send(ChannelData::Packet(read_frame(1))).unwrap();
    queue.send(ChannelData::Packet(read_frame(2))).unwrap();

    let mut writer = InverterWriter::new(1000);
    let first = writer.write_next(&queue, 10_000);
    assert_eq!(first, Some(read_frame(1)));
    // the pacing floor has not passed yet
    let held = writer.write_next(&queue, 10_500);
    assert!(held.is_none());
    let second = writer.write_next(&queue, 11_000);
    assert_eq!(second, Some(read_frame(2)));
    // the queue is drained
    assert!(writer.write_next(&queue, 20_000).is_none());
}

#[test]
fn writer_skips_non_frames() {
    let mut queue: Channel<ChannelData> = Channel::new();
    queue.subscribe();
    queue.send(ChannelData::Connected(serial("BA12345678"))).unwrap();
    queue.send(ChannelData::Packet(read_frame(3))).unwrap();
    let mut writer = InverterWriter::new(0);
    assert!(writer.write_next(&queue, 0).is_none());
    assert_eq!(writer.write_next(&queue, 0), Some(read_frame(3)));
}

#[test]
fn send_without_receivers_is_channel_closed() {
    let mut ch: Channel<ChannelData> = Channel::new();
    assert!(matches!(
        ch.send(ChannelData::Packet(read_frame(1))),
        Err(Error::ChannelClosed)
    ));
    ch.subscribe();
    assert!(ch.send(ChannelData::Packet(read_frame(1))).is_ok());
}

#[test]
fn backoff_doubles_and_caps() {
    assert_eq!(next_backoff(BACKOFF_START_MS), 2000);
    assert_eq!(next_backoff(2000), 4000);
    assert_eq!(next_backoff(40_000), BACKOFF_CAP_MS);
    assert_eq!(next_backoff(BACKOFF_CAP_MS), BACKOFF_CAP_MS);
}

#[test]
fn session_connects_and_resets_backoff() {
    let mut s = Session::new(false);
    assert_eq!(s.state, SessionState::Disconnected);
    let actions = s.step(SessionEvent::BackoffElapsed);
    assert!(matches!(actions[0], SessionAction::OpenSocket));
    assert_eq!(s.state, SessionState::Connecting);
    s.backoff_ms = 8000;
    let actions = s.step(SessionEvent::ConnectSucceeded);
    assert!(actions.is_empty());
    assert_eq!(s.state, SessionState::Connected);
    assert_eq!(s.backoff_ms, BACKOFF_START_MS);
}

#[test]
fn session_failure_backs_off() {
    let mut s = Session::new(false);
    s.step(SessionEvent::BackoffElapsed);
    let actions = s.step(SessionEvent::ConnectFailed);
    assert!(matches!(actions[0], SessionAction::SleepBackoff(1000)));
    assert_eq!(s.state, SessionState::Disconnected);
    assert_eq!(s.backoff_ms, 2000);
}

#[test]
fn session_drains_on_read_timeout() {
    let mut s = Session::new(false);
    s.step(SessionEvent::BackoffElapsed);
    s.step(SessionEvent::ConnectSucceeded);
    let actions = s.step(SessionEvent::ReadTimedOut);
    assert!(matches!(actions[0], SessionAction::CloseAndDrain));
    assert_eq!(s.state, SessionState::Draining);
    let actions = s.step(SessionEvent::DrainComplete);
    assert!(matches!(actions[0], SessionAction::SleepBackoff(_)));
    assert_eq!(s.state, SessionState::Disconnected);
}

#[test]
fn session_echoes_heartbeats_when_enabled() {
    let mut s = Session::new(true);
    s.step(SessionEvent::BackoffElapsed);
    s.step(SessionEvent::ConnectSucceeded);
    let hb = Packet::Heartbeat(Heartbeat { datalog: serial("BA12345678") });
    let actions = s.step(SessionEvent::FrameArrived(hb.clone()));
    assert_eq!(actions.len(), 2);
    assert!(matches!(&actions[0], SessionAction::BroadcastInbound(p) if *p == hb));
    assert!(matches!(&actions[1], SessionAction::EchoHeartbeat(p) if *p == hb));

    let mut quiet = Session::new(false);
    quiet.step(SessionEvent::BackoffElapsed);
    quiet.step(SessionEvent::ConnectSucceeded);
    let actions = quiet.step(SessionEvent::FrameArrived(hb.clone()));
    assert_eq!(actions.len(), 1);
}

#[test]
fn session_shutdown_stops_task() {
    let mut s = Session::new(false);
    s.step(SessionEvent::BackoffElapsed);
    s.step(SessionEvent::ConnectSucceeded);
    let actions = s.step(SessionEvent::ShutdownRequested);
    assert!(matches!(actions[0], SessionAction::CloseAndDrain));
    assert!(matches!(actions[1], SessionAction::StopTask));
    assert_eq!(s.state, SessionState::Disconnected);
}
