use quick_settings::app::{Action, AppModel, Message, Surroundings, TokenUpdate, APP_ID};
use quick_settings::audio::AudioEvent;
use quick_settings::battery::{BatteryEvent, BatteryState};
use quick_settings::brightness::{BrightnessEvent, BrightnessRequest, BrightnessState};
use quick_settings::feeds::{BluetoothUpdate, Feed};
use quick_settings::network::NetworkUpdate;
use quick_settings::percent::Percent;
use quick_settings::power::{PowerAction, SystemCall};
use quick_settings::profile::{system76_profile, ProfileBackend};

const AROUND: Surroundings =
    Surroundings { fresh_popup: 11, privileged_socket: false, client_is_shared: false };

fn send(model: &mut AppModel, message: Message) -> Action {
    model.update(message, AROUND)
}

fn is_nothing(action: Action) -> bool {
    matches!(action, Action::Nothing)
}

#[test]
fn the_applet_starts_with_a_connection() {
    let (model, action) = AppModel::init();
    assert!(matches!(action, Action::ConnectSettings));
    assert_eq!(model.popup, None);
    assert_eq!(model.settings_connection, None);
    assert_eq!(model.bluetooth, None);
    assert_eq!(model.battery, None);
    assert!(model.profile.is_none());
    assert_eq!(model.brightness.shown, None);
}

#[test]
fn the_popup_toggles() {
    let mut model = AppModel::default();
    assert!(matches!(send(&mut model, Message::TogglePopup), Action::OpenPopup(11)));
    assert_eq!(model.popup, Some(11));
    let later = Surroundings { fresh_popup: 12, ..AROUND };
    assert!(matches!(model.update(Message::TogglePopup, later), Action::DestroyPopup(11)));
    assert_eq!(model.popup, None);
    assert!(matches!(model.update(Message::TogglePopup, later), Action::OpenPopup(12)));
}

#[test]
fn the_popup_closes_with_its_own_window() {
    let mut model = AppModel::default();
    send(&mut model, Message::TogglePopup);
    assert!(is_nothing(send(&mut model, Message::PopupClosed(5))));
    assert_eq!(model.popup, Some(11));
    match model.on_close_requested(11) {
        Some(Message::PopupClosed(11)) => {}
        other => panic!("{other:?}"),
    }
    assert!(is_nothing(send(&mut model, Message::PopupClosed(11))));
    assert_eq!(model.popup, None);
}

#[test]
fn a_network_report_is_kept() {
    let mut model = AppModel::default();
    assert!(is_nothing(send(
        &mut model,
        Message::Network(NetworkUpdate {
            wifi_enabled: true,
            connectivity: "Full".to_string(),
            connection_name: Some("home".to_string()),
        })
    )));
    assert_eq!(model.network.wifi_enabled, Some(true));
    assert_eq!(model.network.connectivity.as_deref(), Some("Full"));
    assert_eq!(model.network.connection_name.as_deref(), Some("home"));
    assert!(matches!(send(&mut model, Message::ToggleWifi(false)), Action::SetWifi(false)));
    assert_eq!(model.network.wifi_enabled, Some(false));
    assert_eq!(model.network.connection_name.as_deref(), Some("home"));
}

#[test]
fn bluetooth_is_switched() {
    let mut model = AppModel::default();
    assert!(is_nothing(send(&mut model, Message::Bluetooth(BluetoothUpdate(true)))));
    assert_eq!(model.bluetooth, Some(true));
    assert!(matches!(
        send(&mut model, Message::ToggleBluetooth(false)),
        Action::SetBluetooth(false)
    ));
    assert_eq!(model.bluetooth, Some(false));
}

#[test]
fn a_new_audio_client_starts_afresh() {
    let mut model = AppModel::default();
    send(&mut model, Message::AudioClient(1));
    send(&mut model, Message::Audio(AudioEvent::NodeVolume(4, 30)));
    send(&mut model, Message::Audio(AudioEvent::DefaultSink(4)));
    assert!(model.audio.available());
    assert!(is_nothing(send(&mut model, Message::AudioClient(2))));
    assert_eq!(model.audio.client, Some(2));
    assert_eq!(model.audio.default_sink, None);
    assert!(model.audio.nodes.is_empty());
    assert_eq!(model.audio.volume, 30);
    assert!(!model.audio.available());
}

#[test]
fn a_volume_is_sent_with_the_client() {
    let mut model = AppModel::default();
    send(&mut model, Message::AudioClient(1));
    assert!(matches!(send(&mut model, Message::SetVolume(40)), Action::SetVolume(1)));
    assert_eq!(model.audio.volume, 40);
    assert_eq!(model.audio.pending_volume, 40);
    assert_eq!(model.audio.client, None);
}

#[test]
fn the_last_volume_waits_while_the_client_is_away() {
    let mut model = AppModel::default();
    send(&mut model, Message::AudioClient(1));
    send(&mut model, Message::SetVolume(40));
    assert!(is_nothing(send(&mut model, Message::SetVolume(50))));
    assert!(is_nothing(send(&mut model, Message::SetVolume(60))));
    send(&mut model, Message::Audio(AudioEvent::NodeVolume(1, 5)));
    assert_eq!(model.audio.pending_volume, 60);
    assert_eq!(model.audio.volume, 60);
    assert!(is_nothing(send(&mut model, Message::AudioClientReturned(8))));
    assert_eq!(model.audio.client, Some(8));
    assert_eq!(model.audio.pending_volume, 60);
}

#[test]
fn a_shared_client_is_not_used() {
    let mut model = AppModel::default();
    send(&mut model, Message::AudioClient(1));
    let shared = Surroundings { client_is_shared: true, ..AROUND };
    assert!(is_nothing(model.update(Message::SetVolume(40), shared)));
    assert_eq!(model.audio.client, Some(1));
    assert_eq!(model.audio.volume, 40);
    assert_eq!(model.audio.pending_volume, 40);
    assert!(is_nothing(model.update(Message::ToggleMute, shared)));
    assert_eq!(model.audio.client, Some(1));
}

#[test]
fn mute_is_toggled_with_the_client() {
    let mut model = AppModel::default();
    assert!(is_nothing(send(&mut model, Message::ToggleMute)));
    send(&mut model, Message::AudioClient(1));
    assert!(matches!(send(&mut model, Message::ToggleMute), Action::ToggleMute(1)));
    assert_eq!(model.audio.client, None);
    assert!(!model.audio.mute);
    send(&mut model, Message::AudioClientReturned(1));
    assert_eq!(model.audio.client, Some(1));
}

#[test]
fn the_settings_daemon_is_asked_for_the_brightness() {
    let mut model = AppModel::default();
    match send(&mut model, Message::BrightnessDaemon(BrightnessEvent::Sender(6))) {
        Action::AskDaemon { sender: 6, requests } => assert_eq!(
            requests,
            vec![
                BrightnessRequest::GetDisplayBrightness,
                BrightnessRequest::GetMaxDisplayBrightness
            ]
        ),
        other => panic!("{other:?}"),
    }
    let value = BrightnessEvent::DisplayBrightness(20);
    let max = BrightnessEvent::MaxDisplayBrightness(50);
    assert!(is_nothing(send(&mut model, Message::BrightnessDaemon(value))));
    assert!(is_nothing(send(&mut model, Message::BrightnessDaemon(max))));
    assert_eq!(model.brightness.shown, Some(BrightnessState { value: 20, max: 50 }));
    match send(&mut model, Message::SetBrightness(25)) {
        Action::AskDaemon { sender: 6, requests } => {
            assert_eq!(requests, vec![BrightnessRequest::SetDisplayBrightness(25)])
        }
        other => panic!("{other:?}"),
    }
    assert_eq!(model.brightness.shown, Some(BrightnessState { value: 25, max: 50 }));
}

#[test]
fn a_brightness_without_a_channel_is_not_sent() {
    let mut model = AppModel::default();
    assert!(is_nothing(send(&mut model, Message::SetBrightness(25))));
    assert_eq!(model.brightness.value, Some(25));
}

#[test]
fn battery_reports_are_kept() {
    let mut model = AppModel::default();
    let percent = Percent { bits: 50.0f64.to_bits() };
    send(
        &mut model,
        Message::Battery(BatteryEvent::Update { on_battery: true, percent, time_to_empty: 9 }),
    );
    assert_eq!(
        model.battery,
        Some(BatteryState { percent, on_battery: true, time_to_empty: 9 })
    );
    assert!(is_nothing(send(&mut model, Message::Battery(BatteryEvent::NoBattery))));
    assert_eq!(model.battery, None);
}

#[test]
fn a_profile_is_chosen_by_name() {
    let mut model = AppModel::default();
    assert!(is_nothing(send(&mut model, Message::SetProfile("balanced".to_string()))));
    assert!(is_nothing(send(&mut model, Message::Profile(system76_profile("Battery")))));
    match send(&mut model, Message::SetProfile("performance".to_string())) {
        Action::ApplyProfile(wanted) => {
            assert_eq!(wanted.backend, ProfileBackend::System76);
            assert_eq!(wanted.active, "performance");
            assert_eq!(wanted.choices, vec!["power-saver", "balanced", "performance"]);
        }
        other => panic!("{other:?}"),
    }
    assert_eq!(model.profile.as_ref().unwrap().active, "performance");
}

#[test]
fn a_profile_that_is_not_offered_is_refused() {
    let mut model = AppModel::default();
    send(&mut model, Message::Profile(system76_profile("Battery")));
    assert!(is_nothing(send(&mut model, Message::SetProfile("Performance".to_string()))));
    assert!(is_nothing(send(&mut model, Message::SetProfileIndex(3))));
    assert!(is_nothing(send(&mut model, Message::SetProfileIndex(usize::MAX))));
    assert_eq!(model.profile.as_ref().unwrap().active, "power-saver");
}

#[test]
fn a_profile_is_chosen_by_its_entry() {
    let mut model = AppModel::default();
    assert!(is_nothing(send(&mut model, Message::SetProfileIndex(0))));
    send(&mut model, Message::Profile(system76_profile("Battery")));
    match send(&mut model, Message::SetProfileIndex(1)) {
        Action::ApplyProfile(wanted) => assert_eq!(wanted.active, "balanced"),
        other => panic!("{other:?}"),
    }
    assert_eq!(model.profile.as_ref().unwrap().selected(), Some(1));
}

#[test]
fn profiles_that_were_not_found_are_gone() {
    let mut model = AppModel::default();
    send(&mut model, Message::Profile(system76_profile("Battery")));
    assert!(is_nothing(send(&mut model, Message::Profile(Err("no bus".to_string())))));
    assert!(model.profile.is_none());
}

#[test]
fn surface_actions_are_forwarded() {
    let mut model = AppModel::default();
    assert!(matches!(send(&mut model, Message::Surface(77)), Action::ForwardSurface(77)));
}

#[test]
fn a_settings_connection_starts_the_search_for_profiles() {
    let mut model = AppModel::default();
    let failed = Message::SettingsConnection(Err("no bus".to_string()));
    assert!(is_nothing(send(&mut model, failed)));
    assert_eq!(model.settings_connection, None);
    let connected = Message::SettingsConnection(Ok(4));
    assert!(matches!(send(&mut model, connected), Action::LoadProfile));
    assert_eq!(model.settings_connection, Some(4));
}

#[test]
fn settings_open_without_a_token() {
    let mut model = AppModel::default();
    match send(&mut model, Message::OpenSettings) {
        Action::Start(launch) => {
            assert_eq!(launch.program, "cosmic-settings");
            assert!(launch.environment.is_empty());
        }
        other => panic!("{other:?}"),
    }
    let privileged = Surroundings { privileged_socket: true, ..AROUND };
    assert!(is_nothing(model.update(Message::OpenSettings, privileged)));
}

#[test]
fn settings_open_with_a_token() {
    let mut model = AppModel::default();
    assert!(is_nothing(send(&mut model, Message::Token(TokenUpdate::Init(5)))));
    match send(&mut model, Message::OpenSettings) {
        Action::RequestToken { channel, app_id, program } => {
            assert_eq!(channel, 5);
            assert_eq!(app_id, APP_ID);
            assert_eq!(app_id, "com.github.chrispouliot.cosmic-applet-quick-settings");
            assert_eq!(program, "cosmic-settings");
        }
        other => panic!("{other:?}"),
    }
    let token = TokenUpdate::ActivationToken { token: Some("abc".to_string()) };
    match send(&mut model, Message::Token(token)) {
        Action::Start(launch) => {
            assert_eq!(launch.program, "cosmic-settings");
            assert_eq!(
                launch.environment,
                vec![
                    ("XDG_ACTIVATION_TOKEN".to_string(), "abc".to_string()),
                    ("DESKTOP_STARTUP_ID".to_string(), "abc".to_string())
                ]
            );
        }
        other => panic!("{other:?}"),
    }
    match send(&mut model, Message::Token(TokenUpdate::ActivationToken { token: None })) {
        Action::Start(launch) => assert!(launch.environment.is_empty()),
        other => panic!("{other:?}"),
    }
    assert!(is_nothing(send(&mut model, Message::Token(TokenUpdate::Finished))));
    assert_eq!(model.token_tx, None);
}

#[test]
fn power_actions_are_planned() {
    let mut model = AppModel::default();
    match send(&mut model, Message::Power(PowerAction::Shutdown)) {
        Action::Power(plan) => {
            assert_eq!(plan.osd, Some("shutdown"));
            assert_eq!(plan.call, SystemCall::PowerOff);
        }
        other => panic!("{other:?}"),
    }
}

#[test]
fn the_services_are_followed() {
    let mut model = AppModel::default();
    let services = vec![Feed::Network, Feed::Bluetooth, Feed::Audio, Feed::Battery];
    assert_eq!(model.subscription(false), services);
    send(&mut model, Message::SettingsConnection(Ok(4)));
    let mut all = services.clone();
    all.push(Feed::ActivationToken);
    all.push(Feed::SettingsDaemon(4));
    assert_eq!(model.subscription(true), all);
    let mut without_tokens = services;
    without_tokens.push(Feed::SettingsDaemon(4));
    assert_eq!(model.subscription(false), without_tokens);
}

#[test]
fn a_service_leaves_the_others_alone() {
    let mut model = AppModel::default();
    send(&mut model, Message::Bluetooth(BluetoothUpdate(true)));
    send(&mut model, Message::Profile(system76_profile("Battery")));
    send(&mut model, Message::AudioClient(1));
    send(&mut model, Message::ToggleWifi(true));
    send(&mut model, Message::Battery(BatteryEvent::NoBattery));
    assert_eq!(model.bluetooth, Some(true));
    assert_eq!(model.audio.client, Some(1));
    assert_eq!(model.network.wifi_enabled, Some(true));
    assert_eq!(model.profile.as_ref().unwrap().active, "power-saver");
}

#[test]
fn messages_are_cloned_with_all_they_hold() {
    let messages = vec![
        Message::TogglePopup,
        Message::PopupClosed(3),
        Message::Network(NetworkUpdate {
            wifi_enabled: true,
            connectivity: "Full".to_string(),
            connection_name: Some("home".to_string()),
        }),
        Message::ToggleWifi(true),
        Message::Bluetooth(BluetoothUpdate(true)),
        Message::ToggleBluetooth(false),
        Message::AudioClient(4),
        Message::AudioClientReturned(5),
        Message::Audio(AudioEvent::NodeVolume(6, 70)),
        Message::SetVolume(30),
        Message::ToggleMute,
        Message::BrightnessDaemon(BrightnessEvent::DisplayBrightness(8)),
        Message::SetBrightness(9),
        Message::Battery(BatteryEvent::NoBattery),
        Message::Profile(system76_profile("Balanced")),
        Message::Profile(Err("no service".to_string())),
        Message::SetProfile("balanced".to_string()),
        Message::SetProfileIndex(1),
        Message::Surface(10),
        Message::SettingsConnection(Ok(12)),
        Message::SettingsConnection(Err("no bus".to_string())),
        Message::OpenSettings,
        Message::Token(TokenUpdate::Init(13)),
        Message::Token(TokenUpdate::Finished),
        Message::Token(TokenUpdate::ActivationToken { token: Some("t".to_string()) }),
        Message::Token(TokenUpdate::ActivationToken { token: None }),
        Message::Power(PowerAction::Restart),
    ];
    for message in &messages {
        assert_eq!(format!("{:?}", message.clone()), format!("{message:?}"));
    }
}
