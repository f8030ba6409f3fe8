use quick_settings::battery::{
    battery_caption, battery_icon_name, battery_remaining, battery_time, BatteryEvent,
    BatteryState,
};
use quick_settings::labels::Labels;
use quick_settings::percent::Percent;

fn labels() -> Labels {
    let text = |s: &str| s.to_string();
    Labels {
        unavailable: text("Unavailable"),
        enabled: text("On"),
        disabled: text("Off"),
        network: text("Network"),
        bluetooth: text("Bluetooth"),
        battery: text("Battery"),
        on_battery: text("On battery"),
        charging: text("Charging"),
        less_than_minute: text("less than a minute"),
        power_profile: text("Power profile"),
        power_saver: text("Power saver"),
        balanced: text("Balanced mode"),
        performance: text("High performance"),
        settings: text("Settings"),
        suspend: text("Suspend"),
        logout: text("Log out"),
        restart: text("Restart"),
        shutdown: text("Shut down"),
    }
}

fn battery(percent: f64, on_battery: bool, time_to_empty: i64) -> BatteryState {
    BatteryState { percent: Percent { bits: percent.to_bits() }, on_battery, time_to_empty }
}

fn time(seconds: i64) -> String {
    battery_time(seconds, &labels())
}

#[test]
fn durations_are_shown_to_the_minute() {
    assert_eq!(time(60), "1m");
    assert_eq!(time(119), "1m");
    assert_eq!(time(120), "2m");
    assert_eq!(time(3599), "59m");
    assert_eq!(time(3600), "1h");
    assert_eq!(time(3660), "1h 1m");
    assert_eq!(time(86_399), "23h 59m");
    assert_eq!(time(86_400), "1d");
    assert_eq!(time(86_460), "1d 1m");
    assert_eq!(time(90_000), "1d 1h");
    assert_eq!(time(93_784), "1d 2h 3m");
    assert_eq!(time(i64::MAX), "106751991167300d 15h 30m");
}

#[test]
fn short_durations_have_a_message_of_their_own() {
    assert_eq!(time(59), "less than a minute");
    assert_eq!(time(0), "less than a minute");
    assert_eq!(time(-1), "less than a minute");
    assert_eq!(time(i64::MIN), "less than a minute");
}

fn icon(percent: f64) -> String {
    battery_icon_name(battery(percent, true, 0))
}

#[test]
fn icons_follow_the_charge() {
    for (percent, level) in [
        (100.0, 100),
        (95.1, 100),
        (95.0, 90),
        (80.5, 90),
        (80.0, 80),
        (65.000001, 80),
        (65.0, 50),
        (36.0, 50),
        (35.0, 35),
        (20.5, 35),
        (20.0, 20),
        (14.25, 20),
        (14.0, 10),
        (9.5, 10),
        (9.0, 5),
        (5.0000001, 5),
        (5.0, 0),
        (0.0, 0),
        (-0.0, 0),
        (-20.0, 0),
        (250.0, 100),
        (f64::INFINITY, 100),
        (f64::NAN, 0),
    ] {
        assert_eq!(icon(percent), format!("cosmic-applet-battery-level-{level}-symbolic"));
    }
}

#[test]
fn icons_tell_whether_the_battery_is_charging() {
    assert_eq!(
        battery_icon_name(battery(50.0, false, 0)),
        "cosmic-applet-battery-level-50-charging-symbolic"
    );
    assert_eq!(
        battery_icon_name(battery(50.0, true, 0)),
        "cosmic-applet-battery-level-50-symbolic"
    );
}

#[test]
fn the_caption_tells_charge_and_status() {
    let caption = |state| battery_caption(state, &labels(), "2h left");
    assert_eq!(caption(battery(79.6, true, 0)), "80% · On battery");
    assert_eq!(caption(battery(79.4, false, -5)), "79% · Charging");
    assert_eq!(caption(battery(12.5, true, 7200)), "12% · On battery · 2h left");
    assert_eq!(caption(battery(101.0, false, 1)), "100% · Charging · 2h left");
}

#[test]
fn the_remaining_time_is_shown_where_it_is_known() {
    assert_eq!(
        battery_remaining(battery(50.0, true, 7260), &labels()),
        Some("2h 1m".to_string())
    );
    assert_eq!(
        battery_remaining(battery(50.0, true, 1), &labels()),
        Some("less than a minute".to_string())
    );
    assert_eq!(battery_remaining(battery(50.0, true, 0), &labels()), None);
    assert_eq!(battery_remaining(battery(50.0, true, -1), &labels()), None);
}

#[test]
fn a_report_replaces_the_battery() {
    assert_eq!(BatteryState::reported(BatteryEvent::NoBattery), None);
    let state = battery(33.0, true, 90);
    assert_eq!(
        BatteryState::reported(BatteryEvent::Update {
            on_battery: true,
            percent: state.percent,
            time_to_empty: 90
        }),
        Some(state)
    );
}
