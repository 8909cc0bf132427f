use rpi_server::bluetooth::{connect_step, ConnectAction, ConnectEvent, ConnectPhase};
use rpi_server::bluetooth::{
    device_short_info, discovery_if_required, find_device_by_mac, handle_event, is_healthy,
    is_operating, wait_for_adapters, wait_until_powered, A2DPSourceHandler, ConnectOutcome,
    ConnectRequest, Device, DeviceAccessError, EventReaction, MacAddress, MediaControlCommand,
    PeerInfo, Poll, WifiAction, A2DP_SOURCE_SERVICE_UUID,
};
use rpi_server::device::description::LoungeTempMonitor;
use rpi_server::device::{access_error_message, describe, DeviceDescription};

const MAC: MacAddress = MacAddress(0x1122_3344_5566);

fn peer(id: &str, services: Vec<u128>, class: Option<u32>, connected: bool) -> PeerInfo {
    PeerInfo {
        id: id.to_string(),
        mac_address: MacAddress(1),
        name: None,
        services,
        class,
        connected,
    }
}

#[test]
fn concurrent_connect_requests_are_ignored() {
    let mut device: Device<&str> = Device::new(MAC);
    assert_eq!(device.connect_or_reconnect(), ConnectRequest::Proceed(MAC));
    assert!(matches!(device, Device::Connecting(m) if m == MAC));
    // A second caller arrives before the first attempt has settled.
    assert_eq!(device.connect_or_reconnect(), ConnectRequest::Ignored);
    assert!(matches!(device, Device::Connecting(_)));
    assert!(device.disconnect().is_none());
    assert!(matches!(device, Device::Connecting(_)));
    assert!(device.settle_connect(ConnectOutcome::Connected("handle")).is_ok());
    assert!(matches!(device, Device::Connected("handle", m) if m == MAC));
    assert_eq!(device.get_connected(), Ok(&"handle"));
    assert_eq!(device.mac_address(), MAC);
}

#[test]
fn failed_connect_settles_to_address() {
    let mut device: Device<u8> = Device::new(MAC);
    assert_eq!(device.connect_or_reconnect(), ConnectRequest::Proceed(MAC));
    assert_eq!(device.settle_connect(ConnectOutcome::Failed), Err(DeviceAccessError::NotConnected));
    assert!(matches!(device, Device::Address(m) if m == MAC));
    assert_eq!(device.connect_or_reconnect(), ConnectRequest::Proceed(MAC));
    assert_eq!(device.settle_connect(ConnectOutcome::NotFound), Err(DeviceAccessError::NotFound));
    assert!(matches!(device, Device::Address(m) if m == MAC));
    assert_eq!(device.get_connected(), Err(DeviceAccessError::NotConnected));
    assert_eq!(device.take_connected(), None);
}

#[test]
fn disconnect_resets_even_when_the_call_fails() {
    let mut device: Device<u8> = Device::new(MAC);
    device.connect_or_reconnect();
    device.settle_connect(ConnectOutcome::Connected(9)).unwrap();
    assert_eq!(device.connect_or_reconnect(), ConnectRequest::DisconnectFirst);
    assert_eq!(device.disconnect(), Some(9));
    assert!(matches!(device, Device::Disconnecting(m) if m == MAC));
    assert_eq!(device.connect_or_reconnect(), ConnectRequest::Ignored);
    let result = device.settle_disconnect(Err("org.bluez.Error.Failed".to_string()));
    assert_eq!(result, Err("org.bluez.Error.Failed".to_string()));
    assert!(matches!(device, Device::Address(m) if m == MAC));

    device.connect_or_reconnect();
    device.settle_connect(ConnectOutcome::Connected(10)).unwrap();
    assert_eq!(device.disconnect(), Some(10));
    assert_eq!(device.settle_disconnect(Ok(())), Ok(()));
    assert!(matches!(device, Device::Address(_)));
}

#[test]
fn access_depends_on_state_and_health() {
    let mut device: Device<u8> = Device::new(MAC);
    let access = device.ensure_connected_and_healthy(true);
    assert_eq!(access.result, Err(DeviceAccessError::NotConnected));
    assert!(access.reconnect);

    device.connect_or_reconnect();
    let access = device.ensure_connected_and_healthy(true);
    assert_eq!(access.result, Err(DeviceAccessError::Connecting));
    assert!(!access.reconnect);

    device.settle_connect(ConnectOutcome::Connected(1)).unwrap();
    let access = device.ensure_connected_and_healthy(true);
    assert_eq!(access.result, Ok(()));
    assert!(!access.reconnect);
    let access = device.ensure_connected_and_healthy(false);
    assert_eq!(access.result, Err(DeviceAccessError::Unhealthy));
    assert!(access.reconnect);

    device.disconnect();
    let access = device.ensure_connected_and_healthy(true);
    assert_eq!(access.result, Err(DeviceAccessError::Disconnecting));
    assert!(!access.reconnect);
}

#[test]
fn health_needs_connection_and_recent_data() {
    assert!(is_operating(Some(59_999), 1_000_000));
    assert!(!is_operating(Some(60_000), 0));
    assert!(is_operating(None, 59_999));
    assert!(!is_operating(None, 60_000));
    assert!(is_healthy(Some(true), true));
    assert!(!is_healthy(Some(true), false));
    assert!(!is_healthy(Some(false), true));
    assert!(!is_healthy(None, true));
}

#[test]
fn adapter_polls() {
    assert_eq!(wait_until_powered(&None), Poll::Permanent);
    assert_eq!(wait_until_powered(&Some(vec![])), Poll::Transient);
    assert_eq!(wait_until_powered(&Some(vec![false, false])), Poll::Transient);
    assert_eq!(wait_until_powered(&Some(vec![false, true])), Poll::Done);
    assert_eq!(wait_for_adapters(None), Poll::Permanent);
    assert_eq!(wait_for_adapters(Some(0)), Poll::Transient);
    assert_eq!(wait_for_adapters(Some(2)), Poll::Done);
}

#[test]
fn devices_are_found_by_address() {
    let mut a = peer("dev_a", vec![], None, false);
    a.mac_address = MacAddress(10);
    let mut b = peer("dev_b", vec![], None, false);
    b.mac_address = MacAddress(20);
    let mut c = peer("dev_c", vec![], None, false);
    c.mac_address = MacAddress(20);
    let devices = vec![a, b, c];
    assert_eq!(find_device_by_mac(&devices, MacAddress(20)), Some(1));
    assert_eq!(find_device_by_mac(&devices, MacAddress(30)), None);
    assert!(!discovery_if_required(&devices, MacAddress(10)));
    assert!(discovery_if_required(&devices, MacAddress(30)));
}

#[test]
fn audio_sources_are_told_by_service_or_class() {
    let other_service = 0x0000110b_0000_1000_8000_00805f9b34fb;
    assert!(A2DPSourceHandler::has_a2dp_source(&peer(
        "a",
        vec![other_service, A2DP_SOURCE_SERVICE_UUID],
        None,
        true
    )));
    // Advertised services decide, whatever the class says.
    assert!(!A2DPSourceHandler::has_a2dp_source(&peer("a", vec![other_service], Some(0x200), true)));
    // Phone and computer count as sources if no service is advertised.
    assert!(A2DPSourceHandler::has_a2dp_source(&peer("a", vec![], Some(0x5a020c), true)));
    assert!(A2DPSourceHandler::has_a2dp_source(&peer("a", vec![], Some(0x10c), true)));
    // Audio/video major class (headphones).
    assert!(!A2DPSourceHandler::has_a2dp_source(&peer("a", vec![], Some(0x240404), true)));
    // Both bits of computer and phone set is another major class.
    assert!(!A2DPSourceHandler::has_a2dp_source(&peer("a", vec![], Some(0x300), true)));
    assert!(!A2DPSourceHandler::has_a2dp_source(&peer("a", vec![], None, true)));
}

#[test]
fn handler_tracks_connected_sources() {
    let phone = peer("dev_phone", vec![A2DP_SOURCE_SERVICE_UUID], None, true);
    let headset = peer("dev_headset", vec![], Some(0x240404), true);
    let laptop = peer("dev_laptop", vec![], Some(0x10c), false);
    let mut handler = A2DPSourceHandler::new(&vec![
        peer("dev_phone", vec![A2DP_SOURCE_SERVICE_UUID], None, true),
        peer("dev_headset", vec![], Some(0x240404), true),
        peer("dev_laptop", vec![], Some(0x10c), false),
    ]);
    assert!(handler.has_connected());
    assert_eq!(handler.connected_devices(), &vec!["dev_phone".to_string()]);

    assert!(!handler.handle_connection_change(&phone, true));
    assert!(!handler.handle_connection_change(&headset, true));
    assert!(handler.handle_connection_change(&laptop, true));
    assert_eq!(handler.connected_devices().len(), 2);
    assert!(handler.handle_connection_change(&phone, false));
    assert!(!handler.handle_connection_change(&phone, false));
    assert!(handler.handle_connection_change(&laptop, false));
    assert!(!handler.has_connected());
    assert!(!A2DPSourceHandler::new(&Vec::new()).has_connected());
}

#[test]
fn peer_events_drive_audio_and_wifi() {
    let hotspot = Some(MacAddress(5));
    assert_eq!(
        handle_event(true, hotspot, true, MacAddress(5), true),
        EventReaction { update_audio: true, wifi: Some(WifiAction::Disconnect) }
    );
    assert_eq!(
        handle_event(false, hotspot, true, MacAddress(5), false),
        EventReaction { update_audio: false, wifi: Some(WifiAction::Connect) }
    );
    assert_eq!(
        handle_event(true, hotspot, false, MacAddress(5), true),
        EventReaction { update_audio: true, wifi: None }
    );
    assert_eq!(
        handle_event(false, hotspot, true, MacAddress(6), true),
        EventReaction { update_audio: false, wifi: None }
    );
    assert_eq!(
        handle_event(false, None, true, MacAddress(6), true),
        EventReaction { update_audio: false, wifi: None }
    );
    assert_eq!(MediaControlCommand::Pause.name(), "Pause");
}

#[test]
fn texts_for_devices() {
    assert_eq!(device_short_info(Some("Pixel"), "11:22:33:44:55:66"), "Pixel (11:22:33:44:55:66)");
    assert_eq!(device_short_info(None, "11:22:33:44:55:66"), "11:22:33:44:55:66");
    assert_eq!(LoungeTempMonitor::name(), "Lounge Mi Temperature and Humidity Monitor 2");
    assert_eq!(
        access_error_message::<LoungeTempMonitor>(DeviceAccessError::Unhealthy),
        "Lounge Mi Temperature and Humidity Monitor 2 is unhealthy and will be reconnected"
    );
    assert_eq!(
        access_error_message::<LoungeTempMonitor>(DeviceAccessError::NotConnected),
        "Lounge Mi Temperature and Humidity Monitor 2 is not connected"
    );
    let mut device: Device<u8> = Device::new(MAC);
    assert_eq!(
        describe::<LoungeTempMonitor, u8>(&device, "11:22:33:44:55:66"),
        "Lounge Mi Temperature and Humidity Monitor 2 (11:22:33:44:55:66)"
    );
    device.connect_or_reconnect();
    assert_eq!(
        describe::<LoungeTempMonitor, u8>(&device, "11:22:33:44:55:66"),
        "Lounge Mi Temperature and Humidity Monitor 2 (11:22:33:44:55:66) [connecting]"
    );
}

#[test]
fn connect_attempt_discovers_only_when_needed_and_only_once() {
    let (start, first) = ConnectPhase::begin();
    assert_eq!(start, ConnectPhase::Listing { discovered: false });
    assert_eq!(first, ConnectAction::List);

    // The daemon knows the device: no discovery.
    assert_eq!(
        connect_step(start, ConnectEvent::Listed { found: Some(Some(2)) }),
        (ConnectPhase::Connecting(2), ConnectAction::Connect(2))
    );
    assert_eq!(
        connect_step(ConnectPhase::Connecting(2), ConnectEvent::Connected { succeeded: true }),
        (ConnectPhase::Done, ConnectAction::SettleConnected)
    );
    assert_eq!(
        connect_step(ConnectPhase::Connecting(2), ConnectEvent::Connected { succeeded: false }),
        (ConnectPhase::Done, ConnectAction::SettleFailed)
    );

    // The daemon does not know it: one discovery, and a second look.
    assert_eq!(
        connect_step(start, ConnectEvent::Listed { found: Some(None) }),
        (ConnectPhase::Discovering, ConnectAction::Discover)
    );
    assert_eq!(
        connect_step(ConnectPhase::Discovering, ConnectEvent::Discovered { started: true }),
        (ConnectPhase::Listing { discovered: true }, ConnectAction::List)
    );
    assert_eq!(
        connect_step(ConnectPhase::Discovering, ConnectEvent::Discovered { started: false }),
        (ConnectPhase::Done, ConnectAction::SettleFailed)
    );
    let looked_again = ConnectPhase::Listing { discovered: true };
    assert_eq!(
        connect_step(looked_again, ConnectEvent::Listed { found: Some(None) }),
        (ConnectPhase::Done, ConnectAction::SettleNotFound)
    );
    assert_eq!(
        connect_step(looked_again, ConnectEvent::Listed { found: Some(Some(0)) }),
        (ConnectPhase::Connecting(0), ConnectAction::Connect(0))
    );
    assert_eq!(
        connect_step(looked_again, ConnectEvent::Listed { found: None }),
        (ConnectPhase::Done, ConnectAction::SettleFailed)
    );
    assert_eq!(
        connect_step(start, ConnectEvent::Listed { found: None }),
        (ConnectPhase::Done, ConnectAction::SettleFailed)
    );

    // Events that do not belong to the phase change nothing.
    assert_eq!(
        connect_step(ConnectPhase::Done, ConnectEvent::Connected { succeeded: true }),
        (ConnectPhase::Done, ConnectAction::Nothing)
    );
    assert_eq!(
        connect_step(start, ConnectEvent::Discovered { started: true }),
        (start, ConnectAction::Nothing)
    );
    assert_eq!(
        connect_step(ConnectPhase::Discovering, ConnectEvent::Listed { found: Some(Some(1)) }),
        (ConnectPhase::Discovering, ConnectAction::Nothing)
    );
}

fn holder(state: u8) -> Device<u8> {
    let mut device: Device<u8> = Device::new(MAC);
    if state >= 1 {
        device.connect_or_reconnect();
    }
    if state >= 2 {
        device.settle_connect(ConnectOutcome::Connected(1)).unwrap();
    }
    if state >= 3 {
        device.disconnect();
    }
    device
}

fn state_of(device: &Device<u8>) -> &'static str {
    match device {
        Device::Address(_) => "address",
        Device::Connecting(_) => "connecting",
        Device::Connected(_, _) => "connected",
        Device::Disconnecting(_) => "disconnecting",
    }
}

#[test]
fn transition_table_of_the_holder() {
    // States: address, connecting, connected, disconnecting.
    let after_connect_request = ["connecting", "connecting", "connected", "disconnecting"];
    let after_disconnect_request = ["address", "connecting", "disconnecting", "disconnecting"];
    for state in 0..4u8 {
        let mut device = holder(state);
        device.connect_or_reconnect();
        assert_eq!(state_of(&device), after_connect_request[state as usize]);
        assert_eq!(device.mac_address(), MAC);

        let mut device = holder(state);
        let handle = device.disconnect();
        assert_eq!(state_of(&device), after_disconnect_request[state as usize]);
        assert_eq!(handle.is_some(), state == 2);
        assert_eq!(device.mac_address(), MAC);
    }
    for outcome in 0..3u8 {
        let mut device = holder(1);
        let outcome = match outcome {
            0 => ConnectOutcome::Connected(5),
            1 => ConnectOutcome::NotFound,
            _ => ConnectOutcome::Failed,
        };
        let connected = matches!(outcome, ConnectOutcome::Connected(_));
        let result = device.settle_connect(outcome);
        assert_eq!(result.is_ok(), connected);
        assert_eq!(state_of(&device), if connected { "connected" } else { "address" });
    }
    for succeeded in [true, false] {
        let mut device = holder(3);
        let outcome = if succeeded { Ok(()) } else { Err("failed".to_string()) };
        assert_eq!(device.settle_disconnect(outcome.clone()), outcome);
        assert_eq!(state_of(&device), "address");
        assert_eq!(device.mac_address(), MAC);
    }
}
