use quick_settings::network::{network_update, ActiveConnection, NetworkSnapshot, NetworkState};

fn wifi(ssid: &str) -> ActiveConnection {
    ActiveConnection::Wifi { ssid: ssid.to_string() }
}

fn snapshot(connectivity: u32, active_connections: Vec<ActiveConnection>) -> NetworkSnapshot {
    NetworkSnapshot { wifi_enabled: false, connectivity, active_connections }
}

#[test]
fn connectivity_goes_by_its_name() {
    let name = |code| network_update(&snapshot(code, vec![])).connectivity;
    assert_eq!(name(0), "Unknown");
    assert_eq!(name(1), "None");
    assert_eq!(name(2), "Portal");
    assert_eq!(name(3), "Limited");
    assert_eq!(name(4), "Full");
    assert_eq!(name(5), "Unknown");
    assert_eq!(name(u32::MAX), "Unknown");
}

#[test]
fn connectivity_numbers_are_those_of_the_network_manager() {
    for state in [
        nmrs::ConnectivityState::Unknown,
        nmrs::ConnectivityState::None,
        nmrs::ConnectivityState::Portal,
        nmrs::ConnectivityState::Limited,
        nmrs::ConnectivityState::Full,
    ] {
        let update = network_update(&snapshot(u32::from(state), vec![]));
        assert_eq!(update.connectivity, format!("{state:?}"));
    }
}

#[test]
fn the_first_wifi_network_gives_the_name() {
    let name = |connections| network_update(&snapshot(4, connections)).connection_name;
    assert_eq!(name(vec![]), None);
    assert_eq!(
        name(vec![ActiveConnection::Wired, ActiveConnection::Vpn, ActiveConnection::Other]),
        None
    );
    assert_eq!(
        name(vec![ActiveConnection::Wired, wifi("home"), wifi("cafe")]),
        Some("home".to_string())
    );
    assert_eq!(name(vec![wifi("")]), Some(String::new()));
}

#[test]
fn the_radio_is_passed_on() {
    let mut report = snapshot(4, vec![]);
    assert!(!network_update(&report).wifi_enabled);
    report.wifi_enabled = true;
    assert!(network_update(&report).wifi_enabled);
}

#[test]
fn a_report_replaces_what_was_known() {
    let state = NetworkState::new();
    assert_eq!(state.wifi_enabled, None);
    assert_eq!(state.connectivity, None);
    assert_eq!(state.connection_name, None);
    let state = NetworkState::reported(network_update(&snapshot(3, vec![wifi("home")])));
    assert_eq!(state.wifi_enabled, Some(false));
    assert_eq!(state.connectivity.as_deref(), Some("Limited"));
    assert_eq!(state.connection_name.as_deref(), Some("home"));
    let state = NetworkState::reported(network_update(&snapshot(1, vec![])));
    assert_eq!(state.connectivity.as_deref(), Some("None"));
    assert_eq!(state.connection_name, None);
}
