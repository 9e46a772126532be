use esp_led_steuerung::discovery::{mdns_rng, mdns_step, HostRecord};
use esp_led_steuerung::discovery::{MdnsAction, MdnsError, MdnsEvent, MdnsState};
use esp_led_steuerung::network::{ConnectionState, DhcpPhase, IpAddress};
use esp_led_steuerung::network::{Ipv4Address, NetworkStatus};
use esp_led_steuerung::telemetry::{mode_label, mqtt_step, resolve_hostname, Delivery, DnsReply};
use esp_led_steuerung::telemetry::{MqttAction, MqttError, MqttEvent, MqttState, MqttTopic};
use esp_led_steuerung::wifi::{wifi_step, WifiAction, WifiEvent, WifiState};
use esp_led_steuerung::{LedColorMessage, Rgb8};

fn ip(a: u8, b: u8, c: u8, d: u8) -> Ipv4Address {
    Ipv4Address { a, b, c, d }
}

fn up(address: Ipv4Address) -> NetworkStatus {
    NetworkStatus { link_up: true, address: Some(address) }
}

#[test]
fn network_is_ready_with_link_and_address() {
    assert!(up(ip(10, 0, 0, 2)).is_ready());
    assert!(!NetworkStatus { link_up: true, address: None }.is_ready());
    assert!(!NetworkStatus { link_up: false, address: Some(ip(10, 0, 0, 2)) }.is_ready());
    assert!(!NetworkStatus { link_up: false, address: None }.is_ready());
}

#[test]
fn dhcp_task_waits_for_link_then_address() {
    let down = NetworkStatus { link_up: false, address: None };
    let linked = NetworkStatus { link_up: true, address: None };
    let phase = DhcpPhase::WaitingForLink;
    assert_eq!(phase.on_status(down), DhcpPhase::WaitingForLink);
    assert_eq!(phase.on_status(linked), DhcpPhase::WaitingForAddress);
    assert_eq!(phase.on_status(up(ip(1, 2, 3, 4))), DhcpPhase::Done(ip(1, 2, 3, 4)));
    let phase = DhcpPhase::WaitingForAddress;
    assert_eq!(phase.on_status(linked), DhcpPhase::WaitingForAddress);
    // Once the link was seen only the address counts.
    let address_only = NetworkStatus { link_up: false, address: Some(ip(1, 2, 3, 4)) };
    assert_eq!(phase.on_status(address_only), DhcpPhase::Done(ip(1, 2, 3, 4)));
    assert_eq!(DhcpPhase::WaitingForLink.on_status(address_only), DhcpPhase::WaitingForLink);
    let done = DhcpPhase::Done(ip(1, 2, 3, 4));
    assert_eq!(done.on_status(down), done);
}

#[test]
fn first_ipv4_address_is_picked() {
    let reply = DnsReply::Addresses(vec![
        IpAddress::V6,
        IpAddress::V4(ip(192, 168, 1, 5)),
        IpAddress::V4(ip(10, 0, 0, 1)),
    ]);
    assert_eq!(resolve_hostname(&reply), Ok(ip(192, 168, 1, 5)));
}

#[test]
fn lookup_errors_are_told_apart() {
    assert_eq!(
        resolve_hostname(&DnsReply::Addresses(vec![])),
        Err(MqttError::DnsResolutionFailed)
    );
    assert_eq!(
        resolve_hostname(&DnsReply::Addresses(vec![IpAddress::V6, IpAddress::V6])),
        Err(MqttError::DnsResolutionFailed)
    );
    assert_eq!(resolve_hostname(&DnsReply::QueryFailed), Err(MqttError::DnsResolutionFailed));
    assert_eq!(resolve_hostname(&DnsReply::TimedOut), Err(MqttError::DnsTimeout));
}

#[test]
fn mode_is_published_in_german() {
    assert_eq!(mode_label(true), "Auto");
    assert_eq!(mode_label(false), "Manuell");
}

#[test]
fn publisher_connects_and_publishes_name_then_mode() {
    let state = MqttState::new();
    assert_eq!(state, MqttState::WaitingForNetwork);
    assert_eq!(state.action(), MqttAction::CheckNetwork);
    assert_eq!(state.connection_state(), ConnectionState::Disconnected);

    let (state, action) = mqtt_step(state, &MqttEvent::Network(up(ip(10, 0, 0, 2))));
    assert_eq!((state, action), (MqttState::Resolving, MqttAction::Resolve));
    assert_eq!(state.connection_state(), ConnectionState::Connecting);

    let reply = DnsReply::Addresses(vec![IpAddress::V4(ip(10, 0, 0, 9))]);
    let (state, action) = mqtt_step(state, &MqttEvent::Resolved(reply));
    assert_eq!(state, MqttState::Connecting(ip(10, 0, 0, 9)));
    assert_eq!(action, MqttAction::Connect { address: ip(10, 0, 0, 9), port: 1883 });

    let (state, action) = mqtt_step(state, &MqttEvent::Connected(true));
    assert_eq!((state, action), (MqttState::Authenticating, MqttAction::Authenticate));

    let (state, action) = mqtt_step(state, &MqttEvent::Authenticated(true));
    assert_eq!((state, action), (MqttState::AwaitingState, MqttAction::AwaitState));
    assert_eq!(state.connection_state(), ConnectionState::Connected);

    let msg = LedColorMessage { color: Rgb8 { r: 0, g: 10, b: 0 }, name: "Grün", is_auto_mode: false };
    let (state, action) = mqtt_step(state, &MqttEvent::StateChanged(msg));
    assert_eq!(state, MqttState::PublishingColor(msg));
    assert_eq!(
        action,
        MqttAction::Publish {
            topic: MqttTopic::Color,
            payload: "Grün",
            delivery: Delivery::AtMostOnce,
            retain: false
        }
    );

    let (state, action) = mqtt_step(state, &MqttEvent::Published(true));
    assert_eq!(state, MqttState::PublishingMode(msg));
    assert_eq!(
        action,
        MqttAction::Publish {
            topic: MqttTopic::Mode,
            payload: "Manuell",
            delivery: Delivery::AtMostOnce,
            retain: false
        }
    );

    let (state, action) = mqtt_step(state, &MqttEvent::Published(true));
    assert_eq!((state, action), (MqttState::AwaitingState, MqttAction::AwaitState));
}

#[test]
fn publisher_polls_a_network_that_is_down() {
    let down = NetworkStatus { link_up: true, address: None };
    let (state, action) = mqtt_step(MqttState::WaitingForNetwork, &MqttEvent::Network(down));
    assert_eq!((state, action), (MqttState::NetworkDown, MqttAction::Sleep { millis: 500 }));
    let (state, action) = mqtt_step(state, &MqttEvent::DelayElapsed);
    assert_eq!((state, action), (MqttState::WaitingForNetwork, MqttAction::CheckNetwork));
}

#[test]
fn every_publisher_failure_leads_to_a_retry() {
    let msg = LedColorMessage { color: Rgb8 { r: 10, g: 0, b: 0 }, name: "Rot", is_auto_mode: true };
    let cases = [
        (MqttState::Resolving, MqttEvent::Resolved(DnsReply::QueryFailed), MqttError::DnsResolutionFailed),
        (MqttState::Resolving, MqttEvent::Resolved(DnsReply::TimedOut), MqttError::DnsTimeout),
        (
            MqttState::Resolving,
            MqttEvent::Resolved(DnsReply::Addresses(vec![IpAddress::V6])),
            MqttError::DnsResolutionFailed,
        ),
        (MqttState::Connecting(ip(1, 1, 1, 1)), MqttEvent::Connected(false), MqttError::ConnectionFailed),
        (MqttState::Authenticating, MqttEvent::Authenticated(false), MqttError::ProtocolError),
        (MqttState::PublishingColor(msg), MqttEvent::Published(false), MqttError::PublishFailed),
        (MqttState::PublishingMode(msg), MqttEvent::Published(false), MqttError::PublishFailed),
    ];
    for (state, event, error) in cases {
        let (next, action) = mqtt_step(state, &event);
        assert_eq!(next, MqttState::Backoff(error));
        assert_eq!(action, MqttAction::Reconnect { error, delay_secs: 5 });
        assert_eq!(next.connection_state(), ConnectionState::Error);
        let (after, action) = mqtt_step(next, &MqttEvent::DelayElapsed);
        assert_eq!((after, action), (MqttState::WaitingForNetwork, MqttAction::CheckNetwork));
    }
}

#[test]
fn publisher_ignores_events_it_did_not_ask_for() {
    let msg = LedColorMessage { color: Rgb8 { r: 10, g: 0, b: 0 }, name: "Rot", is_auto_mode: true };
    let states = [
        MqttState::WaitingForNetwork,
        MqttState::NetworkDown,
        MqttState::Resolving,
        MqttState::Connecting(ip(1, 1, 1, 1)),
        MqttState::Authenticating,
        MqttState::AwaitingState,
        MqttState::Backoff(MqttError::PublishFailed),
    ];
    for state in states {
        // No state but the two that publish waits for `Published`.
        assert_eq!(state.on_event(&MqttEvent::Published(false)), state);
    }
    assert_eq!(
        MqttState::PublishingColor(msg).on_event(&MqttEvent::StateChanged(msg)),
        MqttState::PublishingColor(msg)
    );
    assert_eq!(MqttState::AwaitingState.on_event(&MqttEvent::DelayElapsed), MqttState::AwaitingState);
}

#[test]
fn errors_have_words_for_the_log() {
    assert_eq!(MqttError::DnsResolutionFailed.describe(), "DNS failed");
    assert_eq!(MqttError::DnsTimeout.describe(), "DNS timeout");
    assert_eq!(MqttError::ConnectionFailed.describe(), "Connection failed");
    assert_eq!(MqttError::ProtocolError.describe(), "Protocol error");
    assert_eq!(MqttError::PublishFailed.describe(), "Publish failed");
    assert_eq!(MdnsError::SocketBindFailed.describe(), "Socket bind failed");
    assert_eq!(MdnsError::MulticastJoinFailed.describe(), "Multicast join failed");
    assert_eq!(MdnsError::ResponderFailed.describe(), "Responder failed");
}

#[test]
fn responder_binds_joins_and_serves_its_own_name() {
    let own = ip(192, 168, 4, 20);
    let state = MdnsState::new();
    assert_eq!(state.action(), MdnsAction::CheckNetwork);
    let (state, action) = mdns_step(state, MdnsEvent::Network(up(own)));
    assert_eq!((state, action), (MdnsState::Binding(own), MdnsAction::Bind { port: 5353 }));
    let (state, action) = mdns_step(state, MdnsEvent::Bound(true));
    assert_eq!(state, MdnsState::Joining(own));
    assert_eq!(action, MdnsAction::JoinMulticast { group: ip(224, 0, 0, 251) });
    let (state, action) = mdns_step(state, MdnsEvent::Joined(true));
    assert_eq!(state, MdnsState::Serving(own));
    assert_eq!(
        action,
        MdnsAction::Serve(HostRecord { hostname: "led", address: own, ttl_secs: 120 })
    );
    assert_eq!(state.connection_state(), ConnectionState::Connected);
}

#[test]
fn every_responder_failure_leads_to_a_retry() {
    let own = ip(192, 168, 4, 20);
    let cases = [
        (MdnsState::Binding(own), MdnsEvent::Bound(false), Some(MdnsError::SocketBindFailed)),
        (MdnsState::Joining(own), MdnsEvent::Joined(false), Some(MdnsError::MulticastJoinFailed)),
        (MdnsState::Serving(own), MdnsEvent::Stopped(false), Some(MdnsError::ResponderFailed)),
        (MdnsState::Serving(own), MdnsEvent::Stopped(true), None),
    ];
    for (state, event, error) in cases {
        let (next, action) = mdns_step(state, event);
        assert_eq!(next, MdnsState::Backoff(error));
        assert_eq!(action, MdnsAction::Reconnect { error, delay_secs: 5 });
        let (after, action) = mdns_step(next, MdnsEvent::DelayElapsed);
        assert_eq!((after, action), (MdnsState::WaitingForNetwork, MdnsAction::CheckNetwork));
    }
}

#[test]
fn responder_polls_a_network_that_is_down() {
    let down = NetworkStatus { link_up: false, address: Some(ip(1, 2, 3, 4)) };
    let (state, action) = mdns_step(MdnsState::WaitingForNetwork, MdnsEvent::Network(down));
    assert_eq!((state, action), (MdnsState::NetworkDown, MdnsAction::Sleep { millis: 500 }));
    let (state, _) = mdns_step(state, MdnsEvent::Bound(true));
    assert_eq!(state, MdnsState::NetworkDown);
    let (state, action) = mdns_step(state, MdnsEvent::DelayElapsed);
    assert_eq!((state, action), (MdnsState::WaitingForNetwork, MdnsAction::CheckNetwork));
}

#[test]
fn rng_fills_chunks_with_successive_words() {
    let mut counter: u32 = 0;
    let mut buf = [0xffu8; 10];
    mdns_rng(&mut counter, &mut buf);
    assert_eq!(buf, [0, 0, 0, 0, 1, 0, 0, 0, 2, 0]);
    assert_eq!(counter, 1);
    mdns_rng(&mut counter, &mut buf);
    assert_eq!(buf, [1, 0, 0, 0, 2, 0, 0, 0, 3, 0]);
    assert_eq!(counter, 2);
}

#[test]
fn rng_writes_the_least_significant_byte_first() {
    let mut counter: u32 = 0x1234_5678;
    let mut buf = [0u8; 7];
    mdns_rng(&mut counter, &mut buf);
    assert_eq!(buf, [0x78, 0x56, 0x34, 0x12, 0x79, 0x56, 0x34]);
    assert_eq!(counter, 0x1234_5679);
}

#[test]
fn rng_wraps_round() {
    let mut counter: u32 = u32::MAX;
    let mut buf = [0u8; 8];
    mdns_rng(&mut counter, &mut buf);
    assert_eq!(buf, [0xff, 0xff, 0xff, 0xff, 0, 0, 0, 0]);
    assert_eq!(counter, 0);
    let mut empty: [u8; 0] = [];
    mdns_rng(&mut counter, &mut empty);
    assert_eq!(counter, 1);
}

#[test]
fn radio_task_starts_a_radio_that_was_not_started() {
    let state = WifiState::new();
    assert_eq!(state.action(), WifiAction::QueryRadio);
    let (state, action) = wifi_step(state, WifiEvent::RadioStarted(Some(false)));
    assert_eq!((state, action), (WifiState::Configuring, WifiAction::Configure));
    let (state, action) = wifi_step(state, WifiEvent::Configured(true));
    assert_eq!((state, action), (WifiState::Starting, WifiAction::Start));
    let (state, action) = wifi_step(state, WifiEvent::Started(true));
    assert_eq!((state, action), (WifiState::Scanning, WifiAction::Scan));
    let (state, action) = wifi_step(state, WifiEvent::Scanned(false));
    assert_eq!((state, action), (WifiState::Connecting, WifiAction::Join));
    let (state, action) = wifi_step(state, WifiEvent::Joined(true));
    assert_eq!((state, action), (WifiState::Connected, WifiAction::AwaitDisconnect));
    assert_eq!(state.connection_state(), ConnectionState::Connected);
    let (state, action) = wifi_step(state, WifiEvent::Disconnected);
    assert_eq!((state, action), (WifiState::RejoinDelay, WifiAction::Sleep { secs: 2 }));
    let (state, action) = wifi_step(state, WifiEvent::DelayElapsed);
    assert_eq!((state, action), (WifiState::CheckingRadio, WifiAction::QueryRadio));
}

#[test]
fn radio_task_skips_the_start_of_a_radio_that_runs() {
    for started in [Some(true), None] {
        let (state, action) = wifi_step(WifiState::CheckingRadio, WifiEvent::RadioStarted(started));
        assert_eq!((state, action), (WifiState::Scanning, WifiAction::Scan));
    }
}

#[test]
fn every_radio_failure_leads_to_a_retry() {
    let cases = [
        (WifiState::Configuring, WifiEvent::Configured(false)),
        (WifiState::Starting, WifiEvent::Started(false)),
        (WifiState::Connecting, WifiEvent::Joined(false)),
    ];
    for (state, event) in cases {
        let (next, action) = wifi_step(state, event);
        assert_eq!((next, action), (WifiState::RetryDelay, WifiAction::Sleep { secs: 5 }));
        assert_eq!(next.connection_state(), ConnectionState::Error);
        let (after, action) = wifi_step(next, WifiEvent::DelayElapsed);
        assert_eq!((after, action), (WifiState::CheckingRadio, WifiAction::QueryRadio));
    }
    assert_eq!(WifiState::Connected.on_event(WifiEvent::DelayElapsed), WifiState::Connected);
}
