use wifi_mqtt_bridge::bridge::{
    Bridge, BridgeAction, BridgeEvent, BridgePhase, IpAddress, Qos, SessionConfig, LINK_WAIT_MS,
    RESOLVE_RETRY_MS,
};
use wifi_mqtt_bridge::channel::{Message, MessageChannel};

fn config(use_tls: bool) -> SessionConfig {
    SessionConfig {
        host: "broker.example".to_string(),
        port: 8883,
        client_id: "client-1".to_string(),
        config_topic: "config/delay".to_string(),
        use_tls,
    }
}

fn msg(topic: &str, payload: &[u8]) -> Message {
    (topic.to_string(), payload.to_vec())
}

/// A network whose link is up, whose resolver answers `addr`, and whose
/// broker refuses the first `refusals` connect handshakes.
struct MockNetwork {
    addr: IpAddress,
    refusals: u32,
    resolves: u32,
    opens: u32,
    publishes: Vec<Message>,
    delivered: Vec<Message>,
}

impl MockNetwork {
    fn new(refusals: u32) -> MockNetwork {
        MockNetwork {
            addr: IpAddress::v4(203, 0, 113, 5),
            refusals,
            resolves: 0,
            opens: 0,
            publishes: Vec::new(),
            delivered: Vec::new(),
        }
    }

    /// The outcome of `a`, with `outbox` and `inbox` standing for the two
    /// channels; `None` when `a` would wait for nothing that comes.
    fn answer(&mut self, a: BridgeAction, outbox: &mut MessageChannel, inbox: &mut MessageChannel) -> Option<BridgeEvent> {
        Some(match a {
            BridgeAction::QueryLink => BridgeEvent::LinkStatus(true),
            BridgeAction::Sleep(_) => BridgeEvent::TimerElapsed,
            BridgeAction::Resolve => {
                self.resolves += 1;
                BridgeEvent::Resolved(Some(self.addr))
            }
            BridgeAction::OpenTransport(addr, port) => {
                assert_eq!(addr, self.addr);
                assert_eq!(port, 8883);
                self.opens += 1;
                BridgeEvent::TransportOpened(true)
            }
            BridgeAction::UpgradeTls => BridgeEvent::Secured(true),
            BridgeAction::ConnectBroker => {
                if self.refusals > 0 {
                    self.refusals -= 1;
                    BridgeEvent::BrokerConnected(false)
                } else {
                    BridgeEvent::BrokerConnected(true)
                }
            }
            BridgeAction::Subscribe => BridgeEvent::Subscribed(true),
            BridgeAction::AwaitEither => {
                if let Some(m) = outbox.try_receive() {
                    BridgeEvent::Outbound(m)
                } else if !self.delivered.is_empty() {
                    BridgeEvent::Inbound(Some(self.delivered.remove(0)))
                } else {
                    return None;
                }
            }
            BridgeAction::Publish { message, qos, retain } => {
                assert_eq!(qos, Qos::AtLeastOnce);
                assert!(!retain);
                self.publishes.push(message);
                BridgeEvent::Published(true)
            }
            BridgeAction::Forward(m) => {
                inbox.try_send(m).unwrap();
                BridgeEvent::Forwarded
            }
        })
    }
}

/// Runs the bridge against `net` until nothing more arrives.
fn run(bridge: &mut Bridge, net: &mut MockNetwork, outbox: &mut MessageChannel, inbox: &mut MessageChannel) {
    let mut action = bridge.action();
    for _ in 0..1000 {
        match net.answer(action, outbox, inbox) {
            Some(e) => action = bridge.step(e),
            None => return,
        }
    }
    panic!("the bridge did not settle");
}

#[test]
fn ipv4_address_octets() {
    assert_eq!(IpAddress::v4(203, 0, 113, 5), IpAddress::V4(0xCB00_7105));
    assert_eq!(IpAddress::v4(255, 255, 255, 255), IpAddress::V4(u32::MAX));
}

#[test]
fn refused_handshake_restarts_the_cycle() {
    let mut bridge = Bridge::new(config(true));
    let mut net = MockNetwork::new(1);
    let mut outbox = MessageChannel::new();
    let mut inbox = MessageChannel::new();
    run(&mut bridge, &mut net, &mut outbox, &mut inbox);
    assert_eq!(bridge.phase(), BridgePhase::Multiplexing);
    assert_eq!(net.resolves, 2);
    assert_eq!(net.opens, 2);
}

#[test]
fn refused_handshake_restarts_without_tls() {
    let mut bridge = Bridge::new(config(false));
    let mut net = MockNetwork::new(3);
    let mut outbox = MessageChannel::new();
    let mut inbox = MessageChannel::new();
    run(&mut bridge, &mut net, &mut outbox, &mut inbox);
    assert_eq!(bridge.phase(), BridgePhase::Multiplexing);
    assert_eq!(net.resolves, 4);
    assert_eq!(net.opens, 4);
}

#[test]
fn cycle_order_with_tls() {
    let mut b = Bridge::new(config(true));
    assert_eq!(b.action(), BridgeAction::QueryLink);
    assert_eq!(b.step(BridgeEvent::LinkStatus(true)), BridgeAction::Resolve);
    let addr = IpAddress::v4(10, 0, 0, 1);
    assert_eq!(b.step(BridgeEvent::Resolved(Some(addr))), BridgeAction::OpenTransport(addr, 8883));
    assert_eq!(b.step(BridgeEvent::TransportOpened(true)), BridgeAction::UpgradeTls);
    assert_eq!(b.step(BridgeEvent::Secured(true)), BridgeAction::ConnectBroker);
    assert_eq!(b.step(BridgeEvent::BrokerConnected(true)), BridgeAction::Subscribe);
    assert_eq!(b.step(BridgeEvent::Subscribed(true)), BridgeAction::AwaitEither);
    assert_eq!(b.config().config_topic, "config/delay");
}

#[test]
fn cycle_without_tls_skips_the_upgrade() {
    let mut b = Bridge::new(config(false));
    b.step(BridgeEvent::LinkStatus(true));
    b.step(BridgeEvent::Resolved(Some(IpAddress::V6(1))));
    assert_eq!(b.step(BridgeEvent::TransportOpened(true)), BridgeAction::ConnectBroker);
}

#[test]
fn down_link_waits_and_checks_again() {
    let mut b = Bridge::new(config(true));
    assert_eq!(b.step(BridgeEvent::LinkStatus(false)), BridgeAction::Sleep(LINK_WAIT_MS));
    assert_eq!(LINK_WAIT_MS, 500);
    assert_eq!(b.step(BridgeEvent::TimerElapsed), BridgeAction::QueryLink);
}

#[test]
fn failed_resolution_is_retried() {
    let mut b = Bridge::new(config(true));
    b.step(BridgeEvent::LinkStatus(true));
    for _ in 0..3 {
        assert_eq!(b.step(BridgeEvent::Resolved(None)), BridgeAction::Sleep(RESOLVE_RETRY_MS));
        assert_eq!(b.step(BridgeEvent::TimerElapsed), BridgeAction::Resolve);
    }
    assert_eq!(b.phase(), BridgePhase::Resolving);
}

fn multiplexing_bridge(use_tls: bool) -> Bridge {
    let mut b = Bridge::new(config(use_tls));
    b.step(BridgeEvent::LinkStatus(true));
    b.step(BridgeEvent::Resolved(Some(IpAddress::v4(1, 2, 3, 4))));
    b.step(BridgeEvent::TransportOpened(true));
    if use_tls {
        b.step(BridgeEvent::Secured(true));
    }
    b.step(BridgeEvent::BrokerConnected(true));
    b.step(BridgeEvent::Subscribed(true));
    assert_eq!(b.phase(), BridgePhase::Multiplexing);
    b
}

#[test]
fn failures_restart_from_the_link_check() {
    let mut b = Bridge::new(config(true));
    b.step(BridgeEvent::LinkStatus(true));
    b.step(BridgeEvent::Resolved(Some(IpAddress::v4(1, 2, 3, 4))));
    assert_eq!(b.step(BridgeEvent::TransportOpened(false)), BridgeAction::QueryLink);

    let mut b = Bridge::new(config(true));
    b.step(BridgeEvent::LinkStatus(true));
    b.step(BridgeEvent::Resolved(Some(IpAddress::v4(1, 2, 3, 4))));
    b.step(BridgeEvent::TransportOpened(true));
    assert_eq!(b.step(BridgeEvent::Secured(false)), BridgeAction::QueryLink);

    let mut b = multiplexing_bridge(false);
    b.step(BridgeEvent::Outbound(msg("t", b"x")));
    assert_eq!(b.step(BridgeEvent::Published(false)), BridgeAction::QueryLink);
    assert_eq!(b.phase(), BridgePhase::CheckingLink);

    let mut b = multiplexing_bridge(true);
    assert_eq!(b.step(BridgeEvent::Inbound(None)), BridgeAction::QueryLink);
}

#[test]
fn subscribe_failure_restarts() {
    let mut b = Bridge::new(config(false));
    b.step(BridgeEvent::LinkStatus(true));
    b.step(BridgeEvent::Resolved(Some(IpAddress::v4(1, 2, 3, 4))));
    b.step(BridgeEvent::TransportOpened(true));
    b.step(BridgeEvent::BrokerConnected(true));
    assert_eq!(b.step(BridgeEvent::Subscribed(false)), BridgeAction::QueryLink);
}

#[test]
fn outbound_only_is_published_in_order() {
    let mut b = multiplexing_bridge(true);
    let ms = vec![msg("a", b"1"), msg("b", b"2"), msg("c", b"3")];
    let mut published = Vec::new();
    for m in ms.clone() {
        match b.step(BridgeEvent::Outbound(m)) {
            BridgeAction::Publish { message, qos, retain } => {
                assert_eq!(qos, Qos::AtLeastOnce);
                assert!(!retain);
                published.push(message);
            }
            other => panic!("unexpected {:?}", other),
        }
        assert_eq!(b.step(BridgeEvent::Published(true)), BridgeAction::AwaitEither);
    }
    assert_eq!(published, ms);
}

#[test]
fn inbound_only_is_forwarded_in_order() {
    let mut b = multiplexing_bridge(false);
    let ms = vec![msg("config/delay", b"1"), msg("config/delay", b"2")];
    let mut forwarded = Vec::new();
    for m in ms.clone() {
        match b.step(BridgeEvent::Inbound(Some(m))) {
            BridgeAction::Forward(m) => forwarded.push(m),
            other => panic!("unexpected {:?}", other),
        }
        assert_eq!(b.step(BridgeEvent::Forwarded), BridgeAction::AwaitEither);
    }
    assert_eq!(forwarded, ms);
}

#[test]
fn end_to_end_publish() {
    let mut bridge = Bridge::new(config(true));
    let mut net = MockNetwork::new(0);
    let mut outbox = MessageChannel::new();
    let mut inbox = MessageChannel::new();
    outbox.try_send(msg("sensors/temp", &[0x17])).unwrap();
    run(&mut bridge, &mut net, &mut outbox, &mut inbox);
    assert_eq!(net.publishes, vec![msg("sensors/temp", &[0x17])]);
    assert_eq!(net.publishes[0].0, "sensors/temp");
    assert_eq!(inbox.len(), 0);
    assert!(outbox.is_empty());
    assert_eq!(bridge.phase(), BridgePhase::Multiplexing);
}

#[test]
fn reconfiguration_reaches_the_inbox() {
    let mut bridge = Bridge::new(config(true));
    let mut net = MockNetwork::new(0);
    net.delivered.push(msg("config/delay", &[0x31, 0x30]));
    let mut outbox = MessageChannel::new();
    let mut inbox = MessageChannel::new();
    run(&mut bridge, &mut net, &mut outbox, &mut inbox);
    assert_eq!(inbox.len(), 1);
    let delay = wifi_mqtt_bridge::config::poll_delay(&mut inbox, 5);
    assert_eq!(delay, 10);
    assert!(net.publishes.is_empty());
}
