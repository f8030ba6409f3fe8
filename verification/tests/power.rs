use quick_settings::power::{
    log_out, osd_or_fallback, perform_power_action, LogoutCall, PowerAction, SystemCall,
    INTERACTIVE,
};

#[test]
fn actions_go_through_the_display_but_for_suspend() {
    let plan = perform_power_action(PowerAction::Suspend);
    assert_eq!(plan.osd, None);
    assert_eq!(plan.call, SystemCall::Suspend);
    let plan = perform_power_action(PowerAction::Logout);
    assert_eq!(plan.osd, Some("log-out"));
    assert_eq!(plan.call, SystemCall::LogOut);
    let plan = perform_power_action(PowerAction::Restart);
    assert_eq!(plan.osd, Some("restart"));
    assert_eq!(plan.call, SystemCall::Reboot);
    let plan = perform_power_action(PowerAction::Shutdown);
    assert_eq!(plan.osd, Some("shutdown"));
    assert_eq!(plan.call, SystemCall::PowerOff);
}

#[test]
fn the_call_is_made_where_the_display_does_not_start() {
    let restart = perform_power_action(PowerAction::Restart);
    assert_eq!(osd_or_fallback(restart, true), None);
    assert_eq!(osd_or_fallback(restart, false), Some(SystemCall::Reboot));
    let suspend = perform_power_action(PowerAction::Suspend);
    assert_eq!(osd_or_fallback(suspend, true), Some(SystemCall::Suspend));
    assert_eq!(osd_or_fallback(suspend, false), Some(SystemCall::Suspend));
}

#[test]
fn the_session_is_told_by_its_desktop() {
    assert_eq!(log_out(Some("pop:GNOME")), LogoutCall::Gnome(0));
    assert_eq!(log_out(Some("COSMIC")), LogoutCall::Cosmic);
    assert_eq!(log_out(Some("GNOME")), LogoutCall::Cosmic);
    assert_eq!(log_out(Some("")), LogoutCall::Cosmic);
    assert_eq!(log_out(None), LogoutCall::Cosmic);
}

#[test]
fn the_login_manager_may_ask_back() {
    assert!(INTERACTIVE);
}
