use quick_settings::labels::Labels;
use quick_settings::profile::{
    normalized_profile, profile_label, system76_profile, upower_profile, PowerProfile,
    ProfileBackend, ProfileChange, ProfileCommand, ProfileField, ProfileSearch,
};

fn labels() -> Labels {
    let text = |s: &str| s.to_string();
    Labels {
        unavailable: text("Unavailable"),
        enabled: text("On"),
        disabled: text("Off"),
        network: text("Network"),
        bluetooth: text("Bluetooth"),
        battery: text("Battery"),
        on_battery: text("On battery"),
        charging: text("Charging"),
        less_than_minute: text("less than a minute"),
        power_profile: text("Power profile"),
        power_saver: text("Power saver"),
        balanced: text("Balanced mode"),
        performance: text("High performance"),
        settings: text("Settings"),
        suspend: text("Suspend"),
        logout: text("Log out"),
        restart: text("Restart"),
        shutdown: text("Shut down"),
    }
}

fn field(name: &str, text: Option<&str>) -> ProfileField {
    ProfileField { name: name.to_string(), text: text.map(|text| text.to_string()) }
}

fn described(name: &str) -> Vec<ProfileField> {
    vec![field("Driver", Some("platform_profile")), field("Profile", Some(name))]
}

fn profile(backend: ProfileBackend, active: &str, choices: &[&str]) -> PowerProfile {
    PowerProfile {
        backend,
        active: active.to_string(),
        choices: choices.iter().map(|choice| choice.to_string()).collect(),
    }
}

fn ok() -> Result<(), String> {
    Ok(())
}

fn refused() -> Result<(), String> {
    Err("refused".to_string())
}

#[test]
fn names_of_both_services_come_to_the_listed_ones() {
    assert_eq!(normalized_profile("Battery"), Some("power-saver"));
    assert_eq!(normalized_profile("power-saver"), Some("power-saver"));
    assert_eq!(normalized_profile("Balanced"), Some("balanced"));
    assert_eq!(normalized_profile("balanced"), Some("balanced"));
    assert_eq!(normalized_profile("Performance"), Some("performance"));
    assert_eq!(normalized_profile("performance"), Some("performance"));
    assert_eq!(normalized_profile("battery"), None);
    assert_eq!(normalized_profile("Power-Saver"), None);
    assert_eq!(normalized_profile(""), None);
}

#[test]
fn listed_names_are_their_own() {
    for name in ["Battery", "Balanced", "Performance"] {
        let listed = normalized_profile(name).unwrap();
        assert_eq!(normalized_profile(listed), Some(listed));
    }
}

#[test]
fn listed_names_are_translated() {
    assert_eq!(profile_label("power-saver", &labels()), "Power saver");
    assert_eq!(profile_label("balanced", &labels()), "Balanced mode");
    assert_eq!(profile_label("performance", &labels()), "High performance");
    assert_eq!(profile_label("Balanced", &labels()), "Balanced");
    assert_eq!(profile_label("quiet", &labels()), "quiet");
}

#[test]
fn the_system76_daemon_offers_three_profiles() {
    let found = system76_profile("Performance").unwrap();
    assert_eq!(found.backend, ProfileBackend::System76);
    assert_eq!(found.active, "performance");
    assert_eq!(found.choices, vec!["power-saver", "balanced", "performance"]);
}

#[test]
fn an_unknown_system76_profile_is_an_error() {
    assert_eq!(
        system76_profile("Turbo").unwrap_err(),
        "unknown System76 power profile: Turbo"
    );
}

#[test]
fn the_power_profiles_service_offers_what_it_describes() {
    let found = upower_profile(
        "power-saver",
        &vec![described("performance"), described("power-saver"), described("balanced")],
    )
    .unwrap();
    assert_eq!(found.backend, ProfileBackend::Upower);
    assert_eq!(found.active, "power-saver");
    assert_eq!(found.choices, vec!["performance", "power-saver", "balanced"]);
}

#[test]
fn descriptions_without_a_known_name_are_skipped() {
    let found = upower_profile(
        "custom",
        &vec![
            vec![],
            described("quiet"),
            vec![field("Driver", Some("balanced"))],
            vec![field("Profile", None)],
            described("balanced"),
            described("balanced"),
        ],
    )
    .unwrap();
    assert_eq!(found.active, "custom");
    assert_eq!(found.choices, vec!["balanced", "balanced"]);
}

#[test]
fn no_known_description_is_an_error() {
    let reason = "UPower exposes no supported power profiles";
    assert_eq!(upower_profile("balanced", &vec![]).unwrap_err(), reason);
    assert_eq!(upower_profile("balanced", &vec![described("quiet")]).unwrap_err(), reason);
}

#[test]
fn a_search_asks_the_system76_daemon_first() {
    assert!(matches!(ProfileSearch::connected(ok()), ProfileSearch::PowerDaemon));
    match ProfileSearch::power_daemon(Some("Battery".to_string())) {
        ProfileSearch::Done(Ok(found)) => assert_eq!(found.active, "power-saver"),
        other => panic!("{other:?}"),
    }
    match ProfileSearch::power_daemon(Some("Turbo".to_string())) {
        ProfileSearch::Done(Err(reason)) => {
            assert_eq!(reason, "unknown System76 power profile: Turbo")
        }
        other => panic!("{other:?}"),
    }
    assert!(matches!(ProfileSearch::power_daemon(None), ProfileSearch::PowerProfiles));
}

#[test]
fn a_search_goes_on_with_the_power_profiles_service() {
    assert!(matches!(ProfileSearch::power_profiles(ok()), ProfileSearch::ActiveProfile));
    let active = match ProfileSearch::active_profile(Ok("balanced".to_string())) {
        ProfileSearch::Descriptions { active } => active,
        other => panic!("{other:?}"),
    };
    match ProfileSearch::descriptions(&active, Ok(vec![described("balanced")])) {
        ProfileSearch::Done(Ok(found)) => {
            assert_eq!(found.active, "balanced");
            assert_eq!(found.choices, vec!["balanced"]);
        }
        other => panic!("{other:?}"),
    }
}

fn reason(search: ProfileSearch) -> String {
    match search {
        ProfileSearch::Done(Err(reason)) => reason,
        other => panic!("{other:?}"),
    }
}

#[test]
fn a_search_ends_with_the_first_failure() {
    assert_eq!(reason(ProfileSearch::connected(refused())), "refused");
    assert_eq!(reason(ProfileSearch::power_profiles(refused())), "refused");
    assert_eq!(reason(ProfileSearch::active_profile(Err("gone".to_string()))), "gone");
    assert_eq!(
        reason(ProfileSearch::descriptions("balanced", Err("gone".to_string()))),
        "gone"
    );
    assert_eq!(
        reason(ProfileSearch::descriptions("balanced", Ok(vec![]))),
        "UPower exposes no supported power profiles"
    );
}

#[test]
fn services_are_told_in_their_own_words() {
    let choices = ["power-saver", "balanced", "performance"];
    let command =
        |backend, active| profile(backend, active, &choices).command();
    let system76 = ProfileBackend::System76;
    assert!(matches!(command(system76, "power-saver"), Ok(ProfileCommand::Battery)));
    assert!(matches!(command(system76, "balanced"), Ok(ProfileCommand::Balanced)));
    assert!(matches!(command(system76, "performance"), Ok(ProfileCommand::Performance)));
    assert_eq!(
        command(system76, "Battery").unwrap_err(),
        "unsupported power profile: Battery"
    );
    match command(ProfileBackend::Upower, "anything") {
        Ok(ProfileCommand::SetActiveProfile(name)) => assert_eq!(name, "anything"),
        other => panic!("{other:?}"),
    }
}

#[test]
fn every_offered_choice_can_be_told() {
    let found = system76_profile("Balanced").unwrap();
    assert!(found.choices.contains(&found.active));
    for choice in found.choices.clone() {
        let mut wanted = found.clone();
        wanted.active = choice;
        assert!(wanted.command().is_ok());
    }
}

#[test]
fn a_change_gives_the_profile_back() {
    let wanted = || profile(ProfileBackend::System76, "balanced", &["balanced"]);
    assert!(matches!(ProfileChange::connected(wanted(), ok()), ProfileChange::Open(_)));
    match ProfileChange::opened(wanted(), ok()) {
        ProfileChange::Tell(kept, ProfileCommand::Balanced) => {
            assert_eq!(kept.active, "balanced")
        }
        other => panic!("{other:?}"),
    }
    match ProfileChange::told(wanted(), ok()) {
        ProfileChange::Done(Ok(kept)) => {
            assert_eq!(kept.backend, ProfileBackend::System76);
            assert_eq!(kept.active, "balanced");
            assert_eq!(kept.choices, vec!["balanced"]);
        }
        other => panic!("{other:?}"),
    }
}

#[test]
fn a_change_ends_with_the_first_failure() {
    let wanted = || profile(ProfileBackend::System76, "quiet", &["quiet"]);
    let reason = |change| match change {
        ProfileChange::Done(Err(reason)) => reason,
        other => panic!("{other:?}"),
    };
    assert_eq!(reason(ProfileChange::connected(wanted(), refused())), "refused");
    assert_eq!(reason(ProfileChange::opened(wanted(), refused())), "refused");
    assert_eq!(
        reason(ProfileChange::opened(wanted(), ok())),
        "unsupported power profile: quiet"
    );
    assert_eq!(reason(ProfileChange::told(wanted(), refused())), "refused");
}

fn change(
    profile: PowerProfile,
    bus: Result<(), String>,
    service: Result<(), String>,
    told: Result<(), String>,
) -> Result<PowerProfile, String> {
    let mut change = ProfileChange::connected(profile, bus);
    loop {
        change = match change {
            ProfileChange::Open(profile) => ProfileChange::opened(profile, service.clone()),
            ProfileChange::Tell(profile, _) => ProfileChange::told(profile, told.clone()),
            ProfileChange::Done(outcome) => return outcome,
        };
    }
}

#[test]
fn a_change_comes_to_the_profile_or_the_first_reason() {
    let failed = |reason: &str| Err(reason.to_string());
    for (active, known) in [("performance", true), ("quiet", false)] {
        let wanted = || profile(ProfileBackend::System76, active, &[active]);
        let outcome = change(wanted(), failed("bus"), failed("service"), failed("told"));
        assert_eq!(outcome.unwrap_err(), "bus");
        let outcome = change(wanted(), ok(), failed("service"), failed("told"));
        assert_eq!(outcome.unwrap_err(), "service");
        let refusal = "unsupported power profile: quiet";
        let outcome = change(wanted(), ok(), ok(), failed("told"));
        assert_eq!(outcome.unwrap_err(), if known { "told" } else { refusal });
        match change(wanted(), ok(), ok(), ok()) {
            Ok(kept) => {
                assert!(known);
                assert_eq!(kept.active, "performance");
                assert_eq!(kept.choices, vec!["performance"]);
            }
            Err(reason) => {
                assert!(!known);
                assert_eq!(reason, refusal);
            }
        }
    }
    let unlisted = profile(ProfileBackend::Upower, "quiet", &["quiet"]);
    assert_eq!(change(unlisted, ok(), ok(), ok()).unwrap().active, "quiet");
}

#[test]
fn the_profile_in_use_is_selected_at_its_first_place() {
    let choices = ["balanced", "performance", "balanced"];
    let selected = |active| profile(ProfileBackend::Upower, active, &choices).selected();
    assert_eq!(selected("balanced"), Some(0));
    assert_eq!(selected("performance"), Some(1));
    assert_eq!(selected("power-saver"), None);
    let listed = profile(ProfileBackend::Upower, "x", &choices);
    assert_eq!(listed.position("performance"), Some(1));
    assert_eq!(
        listed.choice_labels(&labels()),
        vec!["Balanced mode", "High performance", "Balanced mode"]
    );
}
