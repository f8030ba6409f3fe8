use quick_settings::audio::{AudioEvent, AudioState, VolumeStep, VOLUME_DELAY_MILLIS};

fn apply(state: &mut AudioState, events: &[AudioEvent]) {
    for event in events {
        state.apply(*event);
    }
}

#[test]
fn nothing_is_known_of_audio_at_first() {
    let state = AudioState::new();
    assert_eq!(state.client, None);
    assert_eq!(state.default_sink, None);
    assert_eq!(state.volume, 0);
    assert!(!state.mute);
    assert!(state.nodes.is_empty());
    assert!(!state.available());
}

#[test]
fn volume_of_the_default_sink_is_shown_up_to_100() {
    let mut state = AudioState::new();
    apply(&mut state, &[AudioEvent::DefaultSink(4), AudioEvent::NodeVolume(4, 63)]);
    assert_eq!(state.volume, 63);
    state.apply(AudioEvent::NodeVolume(4, 101));
    assert_eq!(state.volume, 100);
    assert_eq!(state.nodes.get(&4), Some(&(101, false)));
    state.apply(AudioEvent::NodeVolume(4, u32::MAX));
    assert_eq!(state.volume, 100);
    state.apply(AudioEvent::NodeVolume(4, 100));
    assert_eq!(state.volume, 100);
}

#[test]
fn reports_on_other_nodes_are_kept_but_not_shown() {
    let mut state = AudioState::new();
    apply(
        &mut state,
        &[
            AudioEvent::DefaultSink(1),
            AudioEvent::NodeVolume(1, 20),
            AudioEvent::NodeVolume(2, 80),
            AudioEvent::NodeMute(2, true),
        ],
    );
    assert_eq!(state.volume, 20);
    assert!(!state.mute);
    assert_eq!(state.nodes.get(&2), Some(&(80, true)));
}

#[test]
fn a_new_default_sink_shows_what_was_reported_on_it() {
    let mut state = AudioState::new();
    apply(
        &mut state,
        &[
            AudioEvent::NodeMute(9, true),
            AudioEvent::NodeVolume(9, 140),
            AudioEvent::DefaultSink(9),
        ],
    );
    assert_eq!(state.default_sink, Some(9));
    assert_eq!(state.volume, 100);
    assert!(state.mute);
}

#[test]
fn an_unknown_default_sink_keeps_what_is_shown() {
    let mut state = AudioState::new();
    apply(
        &mut state,
        &[
            AudioEvent::DefaultSink(1),
            AudioEvent::NodeVolume(1, 20),
            AudioEvent::NodeMute(1, true),
            AudioEvent::DefaultSink(2),
        ],
    );
    assert_eq!(state.default_sink, Some(2));
    assert_eq!(state.volume, 20);
    assert!(state.mute);
    state.apply(AudioEvent::NodeMute(2, false));
    assert!(!state.mute);
    assert_eq!(state.nodes.get(&2), Some(&(0, false)));
    assert_eq!(state.volume, 20);
}

#[test]
fn other_reports_change_nothing() {
    let mut state = AudioState::new();
    apply(&mut state, &[AudioEvent::DefaultSink(1), AudioEvent::NodeVolume(1, 20)]);
    state.apply(AudioEvent::Other);
    assert_eq!(state.default_sink, Some(1));
    assert_eq!(state.volume, 20);
    assert_eq!(state.nodes.len(), 1);
}

#[test]
fn the_output_is_available_with_client_and_default_sink() {
    let mut state = AudioState::new();
    state.apply(AudioEvent::DefaultSink(1));
    assert!(!state.available());
    state.client = Some(3);
    assert!(state.available());
    state.default_sink = None;
    assert!(!state.available());
}

#[test]
fn a_volume_waits_128_milliseconds() {
    assert_eq!(VOLUME_DELAY_MILLIS, 128);
}

#[test]
fn the_volume_that_is_pending_after_the_wait_is_sent() {
    let step = VolumeStep::Wait.next(40);
    assert_eq!(step, VolumeStep::Send(40));
    assert_eq!(step.next(70), VolumeStep::Return);
    assert_eq!(VolumeStep::Return.next(70), VolumeStep::Return);
}
