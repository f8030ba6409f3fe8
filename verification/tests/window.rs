use quick_settings::app::{AppModel, Message, Surroundings};
use quick_settings::audio::AudioEvent;
use quick_settings::battery::BatteryEvent;
use quick_settings::brightness::BrightnessEvent;
use quick_settings::feeds::BluetoothUpdate;
use quick_settings::labels::Labels;
use quick_settings::network::NetworkUpdate;
use quick_settings::percent::Percent;
use quick_settings::power::PowerAction;
use quick_settings::profile::system76_profile;
use quick_settings::window::{BrightnessRow, ProfileRow, Section, Tile, VolumeControl, MAX_VOLUME};

fn labels() -> Labels {
    let text = |s: &str| s.to_string();
    Labels {
        unavailable: text("Unavailable"),
        enabled: text("On"),
        disabled: text("Off"),
        network: text("Network"),
        bluetooth: text("Bluetooth"),
        battery: text("Battery"),
        on_battery: text("On battery"),
        charging: text("Charging"),
        less_than_minute: text("less than a minute"),
        power_profile: text("Power profile"),
        power_saver: text("Power saver"),
        balanced: text("Balanced mode"),
        performance: text("High performance"),
        settings: text("Settings"),
        suspend: text("Suspend"),
        logout: text("Log out"),
        restart: text("Restart"),
        shutdown: text("Shut down"),
    }
}

const AROUND: Surroundings =
    Surroundings { fresh_popup: 11, privileged_socket: false, client_is_shared: false };

fn model(messages: Vec<Message>) -> AppModel {
    let mut model = AppModel::default();
    for message in messages {
        model.update(message, AROUND);
    }
    model
}

fn network(wifi_enabled: bool, connectivity: &str, name: Option<&str>) -> Message {
    Message::Network(NetworkUpdate {
        wifi_enabled,
        connectivity: connectivity.to_string(),
        connection_name: name.map(|name| name.to_string()),
    })
}

fn window(model: &AppModel) -> Vec<Section> {
    model.view_window(&labels(), "1h left")
}

fn tiles(model: &AppModel) -> (Tile, Tile) {
    match window(model).remove(0) {
        Section::Tiles(left, right) => (left, right),
        other => panic!("{other:?}"),
    }
}

#[test]
fn the_panel_button_toggles_the_popup() {
    let button = model(vec![]).view_button();
    assert_eq!(button.icon, "display-symbolic");
    assert!(matches!(button.on_press, Message::TogglePopup));
}

#[test]
fn nothing_can_be_used_at_first() {
    let model = model(vec![]);
    let sections = window(&model);
    assert_eq!(sections.len(), 5);
    assert!(matches!(sections[1], Section::Divider));
    assert!(matches!(sections[3], Section::Divider));
    let (network, bluetooth) = tiles(&model);
    assert_eq!(network.icon, "network-wireless-symbolic");
    assert_eq!(network.title, "Network");
    assert_eq!(network.caption, "Unavailable");
    assert!(!network.selected);
    assert!(network.on_press.is_none());
    assert_eq!(bluetooth.icon, "bluetooth-symbolic");
    assert_eq!(bluetooth.title, "Bluetooth");
    assert_eq!(bluetooth.caption, "Unavailable");
    assert!(!bluetooth.selected);
    assert!(bluetooth.on_press.is_none());
    let audio = model.audio_row(&labels());
    assert!(audio.on_press.is_none());
    assert!(matches!(audio.control, VolumeControl::Text(text) if text == "Unavailable"));
    assert_eq!(audio.icon, "audio-volume-muted-symbolic");
    assert_eq!(audio.percent, "0%");
}

#[test]
fn the_network_tile_tells_the_connection() {
    let caption = |message| tiles(&model(vec![message])).0.caption;
    assert_eq!(caption(network(true, "Full", Some("home"))), "home");
    assert_eq!(caption(network(true, "Limited", None)), "Limited");
    assert_eq!(caption(network(false, "None", None)), "None · Off");
    assert_eq!(caption(network(false, "Full", Some("home"))), "home · Off");
    assert_eq!(caption(Message::ToggleWifi(true)), "Unavailable");
    assert_eq!(caption(Message::ToggleWifi(false)), "Unavailable · Off");
}

#[test]
fn pressing_the_network_tile_twice_takes_it_back() {
    let mut model = model(vec![network(true, "Full", None)]);
    let (tile, _) = tiles(&model);
    assert!(tile.selected);
    assert!(matches!(tile.on_press, Some(Message::ToggleWifi(false))));
    model.update(tile.on_press.unwrap(), AROUND);
    let (tile, _) = tiles(&model);
    assert!(!tile.selected);
    assert!(matches!(tile.on_press, Some(Message::ToggleWifi(true))));
    model.update(tile.on_press.unwrap(), AROUND);
    assert!(tiles(&model).0.selected);
}

#[test]
fn the_bluetooth_tile_tells_the_power() {
    let on = tiles(&model(vec![Message::Bluetooth(BluetoothUpdate(true))])).1;
    assert_eq!(on.caption, "On");
    assert!(on.selected);
    assert!(matches!(on.on_press, Some(Message::ToggleBluetooth(false))));
    let off = tiles(&model(vec![Message::Bluetooth(BluetoothUpdate(false))])).1;
    assert_eq!(off.caption, "Off");
    assert!(!off.selected);
    assert!(matches!(off.on_press, Some(Message::ToggleBluetooth(true))));
}

fn audio(volume: u32, mute: bool) -> AppModel {
    model(vec![
        Message::AudioClient(1),
        Message::Audio(AudioEvent::DefaultSink(2)),
        Message::Audio(AudioEvent::NodeVolume(2, volume)),
        Message::Audio(AudioEvent::NodeMute(2, mute)),
    ])
}

#[test]
fn the_audio_row_follows_volume_and_mute() {
    let icon = |volume, mute| audio(volume, mute).audio_row(&labels()).icon;
    assert_eq!(icon(0, false), "audio-volume-muted-symbolic");
    assert_eq!(icon(80, true), "audio-volume-muted-symbolic");
    assert_eq!(icon(1, false), "audio-volume-medium-symbolic");
    assert_eq!(icon(49, false), "audio-volume-medium-symbolic");
    assert_eq!(icon(50, false), "audio-volume-high-symbolic");
    assert_eq!(icon(100, false), "audio-volume-high-symbolic");
    let row = audio(37, false).audio_row(&labels());
    assert!(matches!(row.on_press, Some(Message::ToggleMute)));
    assert!(matches!(row.control, VolumeControl::Slider(37)));
    assert_eq!(row.percent, "37%");
    assert_eq!(MAX_VOLUME, 100);
}

#[test]
fn the_audio_row_is_disabled_while_the_client_is_away() {
    let mut model = audio(37, false);
    model.update(Message::SetVolume(40), AROUND);
    let row = model.audio_row(&labels());
    assert!(row.on_press.is_none());
    assert!(matches!(row.control, VolumeControl::Text(_)));
    assert_eq!(row.percent, "40%");
}

fn full_model() -> AppModel {
    model(vec![
        Message::TogglePopup,
        Message::BrightnessDaemon(BrightnessEvent::DisplayBrightness(20)),
        Message::BrightnessDaemon(BrightnessEvent::MaxDisplayBrightness(80)),
        Message::Battery(BatteryEvent::Update {
            on_battery: false,
            percent: Percent { bits: 66.0f64.to_bits() },
            time_to_empty: 3600,
        }),
        Message::Profile(system76_profile("Balanced")),
    ])
}

#[test]
fn known_services_stand_in_the_popup() {
    let model = full_model();
    assert_eq!(model.battery_remaining(&labels()), Some("1h".to_string()));
    let sections = window(&model);
    assert_eq!(sections.len(), 9);
    assert!(matches!(sections[0], Section::Tiles(_, _)));
    assert!(matches!(sections[1], Section::Divider));
    assert!(matches!(sections[2], Section::Audio(_)));
    match &sections[3] {
        Section::Brightness(row) => {
            assert_eq!(row.icon, "display-brightness-symbolic");
            assert_eq!(row.value, 20);
            assert_eq!(row.max, 80);
            assert_eq!(row.percent, "25%");
        }
        other => panic!("{other:?}"),
    }
    match &sections[4] {
        Section::Battery(row) => {
            assert_eq!(row.icon, "cosmic-applet-battery-level-80-charging-symbolic");
            assert_eq!(row.title, "Battery");
            assert_eq!(row.caption, "66% · Charging · 1h left");
        }
        other => panic!("{other:?}"),
    }
    assert!(matches!(sections[5], Section::Divider));
    match &sections[6] {
        Section::Profile(row) => {
            assert_eq!(row.icon, "preferences-system-symbolic");
            assert_eq!(row.title, "Power profile");
            assert_eq!(row.choices, vec!["Power saver", "Balanced mode", "High performance"]);
            assert_eq!(row.selected, Some(1));
            assert_eq!(row.popup, Some(11));
        }
        other => panic!("{other:?}"),
    }
    assert!(matches!(sections[7], Section::Divider));
}

#[test]
fn a_service_that_goes_takes_its_control_along() {
    let mut model = full_model();
    model.update(Message::Battery(BatteryEvent::NoBattery), AROUND);
    assert!(!window(&model).iter().any(|section| matches!(section, Section::Battery(_))));
    assert_eq!(model.battery_remaining(&labels()), None);
    model.update(Message::BrightnessDaemon(BrightnessEvent::MaxDisplayBrightness(0)), AROUND);
    assert!(!window(&model).iter().any(|section| matches!(section, Section::Brightness(_))));
    model.update(Message::Profile(Err("gone".to_string())), AROUND);
    assert!(!window(&model).iter().any(|section| matches!(section, Section::Profile(_))));
    assert_eq!(window(&model).len(), 5);
}

#[test]
fn the_buttons_at_the_foot() {
    let buttons = match window(&model(vec![])).pop() {
        Some(Section::Buttons(buttons)) => buttons,
        other => panic!("{other:?}"),
    };
    let shown: Vec<(&str, &str)> =
        buttons.iter().map(|button| (button.icon, button.label.as_str())).collect();
    assert_eq!(
        shown,
        vec![
            ("settings-symbolic", "Settings"),
            ("system-suspend-symbolic", "Suspend"),
            ("system-log-out-symbolic", "Log out"),
            ("system-reboot-symbolic", "Restart"),
            ("system-shutdown-symbolic", "Shut down"),
        ]
    );
    assert!(matches!(buttons[0].on_press, Message::OpenSettings));
    assert!(matches!(buttons[1].on_press, Message::Power(PowerAction::Suspend)));
    assert!(matches!(buttons[2].on_press, Message::Power(PowerAction::Logout)));
    assert!(matches!(buttons[3].on_press, Message::Power(PowerAction::Restart)));
    assert!(matches!(buttons[4].on_press, Message::Power(PowerAction::Shutdown)));
}

#[test]
fn a_moved_volume_slider_tells_the_volume() {
    let mut model = audio(30, false);
    let slider = model.audio_row(&labels()).control;
    assert!(matches!(slider.moved(0), Some(Message::SetVolume(0))));
    assert!(matches!(slider.moved(100), Some(Message::SetVolume(100))));
    model.update(slider.moved(64).unwrap(), AROUND);
    assert_eq!(model.audio.pending_volume, 64);
    assert!(model.audio_row(&labels()).control.moved(70).is_none());
    model.update(Message::AudioClientReturned(1), AROUND);
    assert!(matches!(model.audio_row(&labels()).control, VolumeControl::Slider(64)));
}

fn brightness_row(model: &AppModel) -> BrightnessRow {
    for section in window(model) {
        if let Section::Brightness(row) = section {
            return row;
        }
    }
    panic!("no brightness");
}

#[test]
fn a_moved_brightness_slider_tells_the_value() {
    let mut model = model(vec![
        Message::BrightnessDaemon(BrightnessEvent::MaxDisplayBrightness(200)),
        Message::BrightnessDaemon(BrightnessEvent::DisplayBrightness(50)),
    ]);
    let row = brightness_row(&model);
    assert_eq!((row.value, row.max), (50, 200));
    assert!(matches!(row.moved(120), Message::SetBrightness(120)));
    model.update(row.moved(120), AROUND);
    let row = brightness_row(&model);
    assert_eq!((row.value, row.percent.as_str()), (120, "60%"));
}

fn profile_row(model: &AppModel) -> ProfileRow {
    for section in window(model) {
        if let Section::Profile(row) = section {
            return row;
        }
    }
    panic!("no profiles");
}

#[test]
fn a_picked_entry_tells_its_index() {
    let mut model = model(vec![Message::Profile(system76_profile("Battery"))]);
    let row = profile_row(&model);
    assert_eq!(row.selected, Some(0));
    assert!(matches!(row.picked(2), Message::SetProfileIndex(2)));
    assert!(matches!(row.picked(7), Message::SetProfileIndex(7)));
    model.update(row.picked(2), AROUND);
    assert_eq!(profile_row(&model).selected, Some(2));
}
