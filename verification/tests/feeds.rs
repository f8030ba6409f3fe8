use quick_settings::feeds::{
    AdapterReply, AudioReport, AudioStep, BluetoothStep, BluetoothUpdate, NetworkStep,
    RETRY_SECONDS,
};
use quick_settings::network::{ActiveConnection, NetworkSnapshot};

fn snapshot() -> Option<NetworkSnapshot> {
    Some(NetworkSnapshot {
        wifi_enabled: true,
        connectivity: 4,
        active_connections: vec![ActiveConnection::Wifi { ssid: "home".to_string() }],
    })
}

#[test]
fn services_are_left_alone_for_three_seconds() {
    assert_eq!(RETRY_SECONDS, 3);
}

#[test]
fn the_network_is_followed() {
    let step = NetworkStep::Connect;
    let step = step.next(true);
    assert_eq!(step, NetworkStep::FirstSnapshot);
    let step = step.next(true);
    assert_eq!(step, NetworkStep::OpenEvents);
    let step = step.next(true);
    assert_eq!(step, NetworkStep::AwaitEvent);
    let step = step.next(true);
    assert_eq!(step, NetworkStep::Snapshot);
    assert_eq!(step.next(true), NetworkStep::AwaitEvent);
    assert_eq!(step.next(false), NetworkStep::AwaitEvent);
}

#[test]
fn the_network_is_tried_again_after_failures() {
    assert_eq!(NetworkStep::Connect.next(false), NetworkStep::Pause);
    assert_eq!(NetworkStep::Pause.next(true), NetworkStep::Connect);
    assert_eq!(NetworkStep::FirstSnapshot.next(false), NetworkStep::OpenEvents);
    assert_eq!(NetworkStep::OpenEvents.next(false), NetworkStep::Pause);
    assert_eq!(NetworkStep::AwaitEvent.next(false), NetworkStep::Connect);
}

#[test]
fn the_network_state_is_passed_on_when_it_was_read() {
    for step in [NetworkStep::FirstSnapshot, NetworkStep::Snapshot] {
        let update = step.report(&snapshot()).unwrap();
        assert!(update.wifi_enabled);
        assert_eq!(update.connectivity, "Full");
        assert_eq!(update.connection_name.as_deref(), Some("home"));
        assert!(step.report(&None).is_none());
    }
    for step in [
        NetworkStep::Connect,
        NetworkStep::OpenEvents,
        NetworkStep::AwaitEvent,
        NetworkStep::Pause,
    ] {
        assert!(step.report(&snapshot()).is_none());
    }
}

#[test]
fn bluetooth_is_followed() {
    let step = BluetoothStep::OpenSession.next(true);
    assert_eq!(step, BluetoothStep::OpenAdapter);
    let step = step.next(true);
    assert_eq!(step, BluetoothStep::ReadPower);
    assert_eq!(step.next(false), BluetoothStep::OpenEvents);
    let step = step.next(true);
    assert_eq!(step, BluetoothStep::OpenEvents);
    let step = step.next(true);
    assert_eq!(step, BluetoothStep::AwaitChange);
    assert_eq!(step.next(true), BluetoothStep::AwaitChange);
}

#[test]
fn bluetooth_is_tried_again_after_failures() {
    assert_eq!(BluetoothStep::OpenSession.next(false), BluetoothStep::Pause);
    assert_eq!(BluetoothStep::OpenAdapter.next(false), BluetoothStep::Pause);
    assert_eq!(BluetoothStep::OpenEvents.next(false), BluetoothStep::Pause);
    assert_eq!(BluetoothStep::Pause.next(true), BluetoothStep::OpenSession);
    assert_eq!(BluetoothStep::AwaitChange.next(false), BluetoothStep::OpenSession);
}

#[test]
fn the_power_of_the_adapter_is_passed_on() {
    let read = BluetoothStep::ReadPower;
    assert_eq!(read.report(AdapterReply::Powered(true)), Some(BluetoothUpdate(true)));
    assert_eq!(read.report(AdapterReply::Powered(false)), Some(BluetoothUpdate(false)));
    assert_eq!(read.report(AdapterReply::Other), Some(BluetoothUpdate(false)));
    let change = BluetoothStep::AwaitChange;
    assert_eq!(change.report(AdapterReply::Powered(true)), Some(BluetoothUpdate(true)));
    assert_eq!(change.report(AdapterReply::Other), None);
    assert_eq!(BluetoothStep::OpenAdapter.report(AdapterReply::Powered(true)), None);
}

#[test]
fn audio_is_followed() {
    let step = AudioStep::Connect;
    assert_eq!(step.report(true), AudioReport::Nothing);
    let step = step.next(true);
    assert_eq!(step, AudioStep::OpenEvents);
    assert_eq!(step.report(true), AudioReport::Client);
    assert_eq!(step.report(false), AudioReport::Nothing);
    let step = step.next(true);
    assert_eq!(step, AudioStep::AwaitEvent);
    assert_eq!(step.report(true), AudioReport::Event);
    assert_eq!(step.report(false), AudioReport::Nothing);
    assert_eq!(step.next(true), AudioStep::AwaitEvent);
}

#[test]
fn audio_is_tried_again_after_failures() {
    assert_eq!(AudioStep::Connect.next(false), AudioStep::Pause);
    assert_eq!(AudioStep::OpenEvents.next(false), AudioStep::Pause);
    assert_eq!(AudioStep::Pause.next(false), AudioStep::Connect);
    assert_eq!(AudioStep::AwaitEvent.next(false), AudioStep::Connect);
}
