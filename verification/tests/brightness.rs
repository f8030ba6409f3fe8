use quick_settings::brightness::{
    brightness_percent, Brightness, BrightnessEvent, BrightnessRequest, BrightnessState,
};

fn reported(events: &[BrightnessEvent]) -> Brightness {
    let mut state = Brightness::new();
    for event in events {
        state.report(*event);
    }
    state
}

#[test]
fn percent_of_the_range() {
    let percent = |value, max| brightness_percent(BrightnessState { value, max });
    assert_eq!(percent(30, 40), 75);
    assert_eq!(percent(0, 40), 0);
    assert_eq!(percent(40, 40), 100);
    assert_eq!(percent(1, 3), 33);
    assert_eq!(percent(2, 3), 66);
    assert_eq!(percent(-5, 40), 0);
    assert_eq!(percent(50, 40), 100);
    assert_eq!(percent(96_000, 96_000), 100);
    assert_eq!(percent(1, 0), 100);
    assert_eq!(percent(0, -7), 0);
    assert_eq!(percent(21_474_836, i32::MAX), 0);
}

#[test]
fn brightness_is_shown_once_value_and_maximum_are_known() {
    let shown = Some(BrightnessState { value: 20, max: 50 });
    let value = BrightnessEvent::DisplayBrightness(20);
    let max = BrightnessEvent::MaxDisplayBrightness(50);
    assert_eq!(reported(&[value]).shown, None);
    assert_eq!(reported(&[max]).shown, None);
    assert_eq!(reported(&[value, max]).shown, shown);
    assert_eq!(reported(&[max, value]).shown, shown);
}

#[test]
fn a_value_above_the_maximum_is_shown_as_the_maximum() {
    let state = reported(&[
        BrightnessEvent::MaxDisplayBrightness(50),
        BrightnessEvent::DisplayBrightness(80),
    ]);
    assert_eq!(state.shown, Some(BrightnessState { value: 50, max: 50 }));
    assert_eq!(state.value, Some(80));
}

#[test]
fn a_negative_value_is_unknown() {
    let state = reported(&[
        BrightnessEvent::MaxDisplayBrightness(50),
        BrightnessEvent::DisplayBrightness(20),
        BrightnessEvent::DisplayBrightness(-1),
    ]);
    assert_eq!(state.value, None);
    assert_eq!(state.max, Some(50));
    assert_eq!(state.shown, None);
}

#[test]
fn a_display_without_a_range_shows_nothing() {
    for max in [0, -1, i32::MIN] {
        let state = reported(&[
            BrightnessEvent::DisplayBrightness(20),
            BrightnessEvent::MaxDisplayBrightness(50),
            BrightnessEvent::MaxDisplayBrightness(max),
        ]);
        assert_eq!(state.value, None);
        assert_eq!(state.max, None);
        assert_eq!(state.shown, None);
    }
}

#[test]
fn a_new_channel_asks_for_value_and_maximum() {
    let mut state = reported(&[
        BrightnessEvent::DisplayBrightness(20),
        BrightnessEvent::MaxDisplayBrightness(50),
    ]);
    let requests = state.report(BrightnessEvent::Sender(7));
    assert_eq!(
        requests,
        vec![
            BrightnessRequest::GetDisplayBrightness,
            BrightnessRequest::GetMaxDisplayBrightness
        ]
    );
    assert_eq!(state, Brightness { sender: Some(7), value: None, max: None, shown: None });
    assert!(state.report(BrightnessEvent::DisplayBrightness(1)).is_empty());
    assert!(state.report(BrightnessEvent::MaxDisplayBrightness(2)).is_empty());
}

#[test]
fn a_chosen_value_is_shown_and_sent() {
    let mut state = reported(&[
        BrightnessEvent::Sender(7),
        BrightnessEvent::DisplayBrightness(20),
        BrightnessEvent::MaxDisplayBrightness(50),
    ]);
    assert_eq!(state.choose_value(33), vec![BrightnessRequest::SetDisplayBrightness(33)]);
    assert_eq!(state.value, Some(33));
    assert_eq!(state.shown, Some(BrightnessState { value: 33, max: 50 }));
}

#[test]
fn a_value_chosen_without_a_channel_is_not_sent() {
    let mut state = reported(&[BrightnessEvent::MaxDisplayBrightness(50)]);
    assert!(state.choose_value(33).is_empty());
    assert_eq!(state.value, Some(33));
    assert_eq!(state.shown, None);
}

#[test]
fn refreshing_takes_the_value_into_the_range() {
    let mut state =
        Brightness { sender: None, value: Some(-4), max: Some(10), shown: None };
    state.refresh_brightness();
    assert_eq!(state.shown, Some(BrightnessState { value: 0, max: 10 }));
    state.max = Some(0);
    state.refresh_brightness();
    assert_eq!(state.shown, None);
}
