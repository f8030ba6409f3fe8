//! What holds of the applet as a whole.

use vstd::prelude::*;

use crate::app::{
    settings_launch, ActionView, Message, ModelView, Surroundings, TokenUpdate,
};
use crate::audio::{AudioView, VolumeStep};
use crate::brightness::{BrightnessRequest, BrightnessState};
use crate::feeds::Feed;
use crate::labels::Labels;
use crate::profile::{first_position, offered, ProfileView};
use crate::text::optional_text;
use crate::window::{ControlView, SectionView};

verus! {

/// A message, and the surroundings in which it is handled.
pub struct Step {
    pub message: Message,
    pub surroundings: Surroundings,
}

/// The model once the messages were handled in their order.
pub open spec fn run(model: ModelView, steps: Seq<Step>) -> ModelView
    decreases steps.len(),
{
    if steps.len() == 0 {
        model
    } else {
        run(model, steps.drop_last()).after(steps.last().message, steps.last().surroundings)
    }
}

/// The brightness fits together, and the profiles, where there are any, were offered.
pub open spec fn sound(model: ModelView) -> bool {
    &&& model.brightness.consistent()
    &&& model.profile matches Some(profile) ==> offered(profile)
}

/// A search for profiles that a message reports has found what was offered.
pub open spec fn reports_offers(message: Message) -> bool {
    message matches Message::Profile(Ok(profile)) ==> offered(profile@)
}

/// Whatever messages come, the model stays sound from the start on.
pub proof fn model_stays_sound(model: ModelView, steps: Seq<Step>)
    requires
        sound(model),
        forall|i: int| 0 <= i < steps.len() ==> reports_offers(#[trigger] steps[i].message),
    ensures
        sound(ModelView::initial()),
        sound(run(model, steps)),
    decreases steps.len(),
{
    if steps.len() > 0 {
        let before = run(model, steps.drop_last());
        let message = steps.last().message;
        assert forall|i: int| 0 <= i < steps.drop_last().len() implies reports_offers(
            #[trigger] steps.drop_last()[i].message,
        ) by {
            assert(steps.drop_last()[i] == steps[i]);
        }
        model_stays_sound(model, steps.drop_last());
        assert(reports_offers(steps[steps.len() - 1].message));
        match message {
            Message::SetProfile(name) => {
                lemma_choosing_is_sound(before, name@);
            },
            Message::SetProfileIndex(index) => {
                if before.choice(index) is Some {
                    lemma_choosing_is_sound(before, before.choice(index)->0);
                }
            },
            _ => {},
        }
    }
}

proof fn lemma_choosing_is_sound(model: ModelView, name: Seq<char>)
    requires
        sound(model),
    ensures
        sound(model.with_active(name)),
{
    if model.offers(name) {
        crate::profile::offered_choice_is_supported(model.profile->0, name);
    }
}

/// The volume that was asked for last, or `volume` where none was.
pub open spec fn last_volume(steps: Seq<Step>, volume: u32) -> u32
    decreases steps.len(),
{
    if steps.len() == 0 {
        volume
    } else {
        match steps.last().message {
            Message::SetVolume(volume) => volume,
            _ => last_volume(steps.drop_last(), volume),
        }
    }
}

/// What waits to be sent is the volume that was asked for last, whatever came after.
pub proof fn pending_volume_is_the_last(model: ModelView, steps: Seq<Step>)
    ensures
        run(model, steps).audio.pending_volume == last_volume(steps, model.audio.pending_volume),
    decreases steps.len(),
{
    if steps.len() > 0 {
        pending_volume_is_the_last(model, steps.drop_last());
    }
}

/// Of the volumes that are asked for while one waits, only the last is sent, and the
/// client is returned then.
pub proof fn last_volume_is_sent(
    model: ModelView,
    volume: u32,
    surroundings: Surroundings,
    meanwhile: Seq<Step>,
    later: u32,
)
    ensures
        ({
            let asked = model.after(Message::SetVolume(volume), surroundings);
            let pending = run(asked, meanwhile).audio.pending_volume;
            let sent = VolumeStep::Wait.following(pending);
            &&& sent == VolumeStep::Send(last_volume(meanwhile, volume))
            &&& sent.following(later) == VolumeStep::Return
        }),
{
    pending_volume_is_the_last(model.after(Message::SetVolume(volume), surroundings), meanwhile);
}

/// As long as no volume over 100 is asked for, none is shown.
pub proof fn shown_volume_stays_in_range(model: ModelView, steps: Seq<Step>)
    requires
        model.audio.volume <= 100,
        forall|i: int|
            0 <= i < steps.len() ==> ((#[trigger] steps[i]).message matches Message::SetVolume(
                volume,
            ) ==> volume <= 100),
    ensures
        run(model, steps).audio.volume <= 100,
    decreases steps.len(),
{
    if steps.len() > 0 {
        assert forall|i: int| 0 <= i < steps.drop_last().len() implies ((
        #[trigger] steps.drop_last()[i]).message matches Message::SetVolume(volume) ==> volume
            <= 100) by {
            assert(steps.drop_last()[i] == steps[i]);
        }
        shown_volume_stays_in_range(model, steps.drop_last());
        assert(steps.last() == steps[steps.len() - 1]);
    }
}

/// Whether a brightness that is shown lies in its range.
pub open spec fn brightness_in_range(model: ModelView) -> bool {
    model.brightness.shown matches Some(shown) ==> 0 <= shown.value <= shown.max
}

/// A brightness in its range stays there on every message, a value chosen with the
/// slider, which spans just that range, included.
pub proof fn brightness_stays_in_range(
    model: ModelView,
    message: Message,
    surroundings: Surroundings,
)
    requires
        brightness_in_range(model),
        message matches Message::SetBrightness(value) ==> (model.brightness.shown matches Some(
            shown,
        ) ==> 0 <= value <= shown.max),
    ensures
        brightness_in_range(model.after(message, surroundings)),
{
}

/// Toggling the popup twice leaves the model as it was where the popup was closed, and
/// destroys just the window that was opened.
pub proof fn popup_toggles(
    model: ModelView,
    first: Surroundings,
    second: Surroundings,
)
    requires
        model.popup is None,
    ensures
        model.action(Message::TogglePopup, first) == ActionView::OpenPopup(first.fresh_popup),
        model.after(Message::TogglePopup, first).popup == Some(first.fresh_popup),
        model.after(Message::TogglePopup, first).action(Message::TogglePopup, second)
            == ActionView::DestroyPopup(first.fresh_popup),
        model.after(Message::TogglePopup, first).after(Message::TogglePopup, second) == model,
{
}

/// The popup counts as closed once its window is, and only then: the end of another
/// window changes nothing.
pub proof fn popup_closes_with_its_window(model: ModelView, id: u64, surroundings: Surroundings)
    ensures
        model.popup == Some(id) ==> model.after(Message::PopupClosed(id), surroundings)
            == (ModelView { popup: None, ..model }),
        model.popup != Some(id) ==> model.after(Message::PopupClosed(id), surroundings) == model,
{
}

/// A client that was put to use is held again once it is returned, and then nothing but
/// the volume has changed.
pub proof fn client_returns(
    model: ModelView,
    client: u64,
    volume: u32,
    surroundings: Surroundings,
    later: Surroundings,
)
    requires
        model.audio.client == Some(client),
    ensures
        model.after(Message::SetVolume(volume), surroundings).after(
            Message::AudioClientReturned(client),
            later,
        ) == (ModelView {
            audio: AudioView { volume, pending_volume: volume, ..model.audio },
            ..model
        }),
        model.after(Message::ToggleMute, surroundings).after(
            Message::AudioClientReturned(client),
            later,
        ) == model,
{
}

/// A client is in use once at most: while it is away nothing is asked of it.
pub proof fn client_is_used_once(
    model: ModelView,
    message: Message,
    surroundings: Surroundings,
)
    ensures
        (model.action(message, surroundings) matches ActionView::SetVolume(client) ==>
            model.audio.client == Some(client)
            && model.after(message, surroundings).audio.client is None),
        (model.action(message, surroundings) matches ActionView::ToggleMute(client) ==>
            model.audio.client == Some(client)
            && model.after(message, surroundings).audio.client is None),
{
}

/// The volume can be moved just where the output can be controlled. The volume that the
/// slider is moved to waits to be sent, and the slider stands there once the client that
/// sends it is back.
pub proof fn moved_slider_sets_the_volume(
    model: ModelView,
    labels: Labels,
    client: u64,
    volume: u32,
    surroundings: Surroundings,
    later: Surroundings,
)
    ensures
        ({
            let message = Message::SetVolume(volume);
            let moved = model.after(message, surroundings);
            let returned = moved.after(Message::AudioClientReturned(client), later);
            &&& model.audio_section(labels).control.moved(volume)
                == if model.audio.is_available() {
                    Some(message)
                } else {
                    None
                }
            &&& moved.audio.pending_volume == volume
            &&& model.audio.is_available() ==> returned.audio_section(labels).control
                == ControlView::Slider(volume)
        }),
{
}

/// A brightness that the slider is moved to is shown at once, and the daemon is asked for
/// it where it takes requests.
pub proof fn moved_slider_sets_the_brightness(
    model: ModelView,
    shown: BrightnessState,
    value: i32,
    surroundings: Surroundings,
)
    requires
        model.brightness.shown == Some(shown),
    ensures
        ({
            let message = Message::SetBrightness(value);
            &&& model.brightness_section()[0].moved(value) == Some(message)
            &&& model.after(message, surroundings).brightness.shown == Some(
                BrightnessState { value, max: shown.max },
            )
            &&& model.action(message, surroundings) == match model.brightness.sender {
                Some(sender) => ActionView::AskDaemon {
                    sender,
                    requests: seq![BrightnessRequest::SetDisplayBrightness(value)],
                },
                None => ActionView::Nothing,
            }
        }),
{
}

/// A new connection to the audio server forgets the outputs of the one before: the
/// output cannot be controlled until a default is reported.
pub proof fn new_client_starts_afresh(
    model: ModelView,
    client: u64,
    surroundings: Surroundings,
)
    ensures
        ({
            let after = model.after(Message::AudioClient(client), surroundings);
            &&& !after.audio.is_available()
            &&& after.audio.nodes == Map::<u32, (u32, bool)>::empty()
            &&& after.audio.volume == model.audio.volume
            &&& after.audio.mute == model.audio.mute
        }),
{
}

/// A profile that is not offered is refused: the model stays as it is and nothing is
/// done.
pub proof fn unknown_profile_is_refused(
    model: ModelView,
    name: String,
    surroundings: Surroundings,
)
    requires
        model.profile matches Some(profile) ==> !profile.choices.contains(name@),
    ensures
        model.after(Message::SetProfile(name), surroundings) == model,
        model.action(Message::SetProfile(name), surroundings) == ActionView::Nothing,
{
}

/// So is an entry that the list does not have.
pub proof fn unknown_index_is_refused(
    model: ModelView,
    index: usize,
    surroundings: Surroundings,
)
    requires
        model.profile matches Some(profile) ==> index >= profile.choices.len(),
    ensures
        model.after(Message::SetProfileIndex(index), surroundings) == model,
        model.action(Message::SetProfileIndex(index), surroundings) == ActionView::Nothing,
{
}

/// Picking an entry of the list is choosing the profile of that name; it is then in
/// use, and the list shows it, at its first place, as selected.
pub proof fn chosen_entry_comes_into_use(
    model: ModelView,
    labels: Labels,
    profile: ProfileView,
    index: usize,
    name: String,
    surroundings: Surroundings,
)
    requires
        model.profile == Some(profile),
        index < profile.choices.len(),
        name@ == profile.choices[index as int],
    ensures
        ({
            let wanted = ProfileView { active: name@, ..profile };
            let selected = first_position(wanted.choices, wanted.active);
            &&& model.profile_section(labels)[1].picked(index) == Some(
                Message::SetProfileIndex(index),
            )
            &&& model.after(Message::SetProfileIndex(index), surroundings) == (ModelView {
                profile: Some(wanted),
                ..model
            })
            &&& model.after(Message::SetProfile(name), surroundings) == model.after(
                Message::SetProfileIndex(index),
                surroundings,
            )
            &&& model.action(Message::SetProfileIndex(index), surroundings)
                == ActionView::ApplyProfile(wanted)
            &&& model.action(Message::SetProfile(name), surroundings)
                == ActionView::ApplyProfile(wanted)
            &&& selected is Some
            &&& selected->0 <= index
            &&& wanted.choices[selected->0 as int] == name@
        }),
{
    assert(profile.choices.contains(name@));
    crate::profile::first_position_is_first(profile.choices, name@);
}

/// Pressing the network tile asks for the opposite of what it shows, shows that at once,
/// and pressing it again takes both back.
pub proof fn network_tile_toggles(
    model: ModelView,
    labels: Labels,
    first: Surroundings,
    second: Surroundings,
    enabled: bool,
)
    requires
        model.network.wifi_enabled == Some(enabled),
    ensures
        ({
            let press = Message::ToggleWifi(!enabled);
            let pressed = model.after(press, first);
            let back = Message::ToggleWifi(enabled);
            &&& model.network_tile(labels).selected == enabled
            &&& model.network_tile(labels).on_press == Some(press)
            &&& model.action(press, first) == ActionView::SetWifi(!enabled)
            &&& pressed.network_tile(labels).selected == !enabled
            &&& pressed.network_tile(labels).on_press == Some(back)
            &&& pressed.after(back, second) == model
        }),
{
}

/// So does the Bluetooth tile.
pub proof fn bluetooth_tile_toggles(
    model: ModelView,
    labels: Labels,
    first: Surroundings,
    second: Surroundings,
    enabled: bool,
)
    requires
        model.bluetooth == Some(enabled),
    ensures
        ({
            let press = Message::ToggleBluetooth(!enabled);
            let pressed = model.after(press, first);
            let back = Message::ToggleBluetooth(enabled);
            &&& model.bluetooth_tile(labels).selected == enabled
            &&& model.bluetooth_tile(labels).on_press == Some(press)
            &&& model.action(press, first) == ActionView::SetBluetooth(!enabled)
            &&& pressed.bluetooth_tile(labels).selected == !enabled
            &&& pressed.bluetooth_tile(labels).on_press == Some(back)
            &&& pressed.after(back, second) == model
        }),
{
}

/// A message of one service leaves what is known of the others alone.
pub proof fn services_are_independent(
    model: ModelView,
    message: Message,
    surroundings: Surroundings,
)
    ensures
        ({
            let after = model.after(message, surroundings);
            match message {
                Message::TogglePopup | Message::PopupClosed(_) => after == (ModelView {
                    popup: after.popup,
                    ..model
                }),
                Message::Network(_) | Message::ToggleWifi(_) => after == (ModelView {
                    network: after.network,
                    ..model
                }),
                Message::Bluetooth(_) | Message::ToggleBluetooth(_) => after == (ModelView {
                    bluetooth: after.bluetooth,
                    ..model
                }),
                Message::AudioClient(_)
                | Message::AudioClientReturned(_)
                | Message::Audio(_)
                | Message::SetVolume(_)
                | Message::ToggleMute => after == (ModelView { audio: after.audio, ..model }),
                Message::BrightnessDaemon(_) | Message::SetBrightness(_) => after == (ModelView {
                    brightness: after.brightness,
                    ..model
                }),
                Message::Battery(_) => after == (ModelView { battery: after.battery, ..model }),
                Message::Profile(_)
                | Message::SetProfile(_)
                | Message::SetProfileIndex(_) => after == (ModelView {
                    profile: after.profile,
                    ..model
                }),
                Message::SettingsConnection(_) => after == (ModelView {
                    settings_connection: after.settings_connection,
                    ..model
                }),
                Message::Token(_) => after == (ModelView { token_tx: after.token_tx, ..model }),
                Message::Surface(_) | Message::OpenSettings | Message::Power(_) => after
                    == model,
            }
        }),
{
}

/// The settings program is not started past a compositor that hands out tokens: where
/// there is a channel for tokens one is requested, and where a channel is to come nothing
/// is done. It is started at once where there is neither. The token that comes in is
/// handed to the program.
pub proof fn settings_start_with_a_token(
    model: ModelView,
    surroundings: Surroundings,
    token: Option<String>,
)
    ensures
        model.action(Message::OpenSettings, surroundings) is RequestToken <==> model.token_tx
            is Some,
        model.action(Message::OpenSettings, surroundings) is Start <==> model.token_tx is None
            && !surroundings.privileged_socket,
        model.action(
            Message::Token(TokenUpdate::ActivationToken { token }),
            surroundings,
        ) == ActionView::Start(settings_launch(optional_text(token))),
{
}

/// The settings daemon is followed just where there is a connection to it, and tokens
/// just where the compositor gave a privileged socket; the other services always are.
pub proof fn feeds_are_as_reachable(model: ModelView, privileged_socket: bool, connection: u64)
    ensures
        ({
            let feeds = model.feeds(privileged_socket);
            &&& feeds.contains(Feed::Network)
            &&& feeds.contains(Feed::Bluetooth)
            &&& feeds.contains(Feed::Audio)
            &&& feeds.contains(Feed::Battery)
            &&& feeds.contains(Feed::ActivationToken) <==> privileged_socket
            &&& feeds.contains(Feed::SettingsDaemon(connection)) <==> model.settings_connection
                == Some(connection)
        }),
{
    let feeds = model.feeds(privileged_socket);
    assert(feeds[0] == Feed::Network);
    assert(feeds[1] == Feed::Bluetooth);
    assert(feeds[2] == Feed::Audio);
    assert(feeds[3] == Feed::Battery);
    if privileged_socket {
        assert(feeds[4] == Feed::ActivationToken);
    }
    if model.settings_connection is Some {
        assert(feeds[feeds.len() - 1] == Feed::SettingsDaemon(model.settings_connection->0));
    }
}

/// Whether the brightness can be set in the popup.
pub open spec fn has_brightness(window: Seq<SectionView>) -> bool {
    exists|i: int| 0 <= i < window.len() && #[trigger] window[i] is Brightness
}

/// Whether the battery is shown in the popup.
pub open spec fn has_battery(window: Seq<SectionView>) -> bool {
    exists|i: int| 0 <= i < window.len() && #[trigger] window[i] is Battery
}

/// Whether a power profile can be chosen in the popup.
pub open spec fn has_profile(window: Seq<SectionView>) -> bool {
    exists|i: int| 0 <= i < window.len() && #[trigger] window[i] is Profile
}

/// Each service is optional. Where brightness, battery or profiles are not known their
/// controls are missing, and where they are known they stand in the popup; where network,
/// Bluetooth or audio are not known their controls cannot be used, and otherwise they
/// can.
pub proof fn missing_services_lose_their_controls(
    model: ModelView,
    labels: Labels,
    remaining: Seq<char>,
)
    ensures
        ({
            let window = model.window(labels, remaining);
            &&& has_brightness(window) <==> model.brightness.shown is Some
            &&& has_battery(window) <==> model.battery is Some
            &&& has_profile(window) <==> model.profile is Some
            &&& window[0] == SectionView::Tiles(
                model.network_tile(labels),
                model.bluetooth_tile(labels),
            )
            &&& window[2] == SectionView::Audio(model.audio_section(labels))
            &&& model.network_tile(labels).on_press is Some <==> model.network.wifi_enabled is Some
            &&& model.bluetooth_tile(labels).on_press is Some <==> model.bluetooth is Some
            &&& model.audio_section(labels).on_press is Some <==> model.audio.is_available()
            &&& model.audio_section(labels).control is Slider <==> model.audio.is_available()
        }),
{
    let window = model.window(labels, remaining);
    let brightness = model.brightness_section();
    let battery = model.battery_section(labels, remaining);
    if model.brightness.shown is Some {
        assert(window[3] == brightness[0]);
    }
    if model.battery is Some {
        assert(window[(3 + brightness.len()) as int] == battery[0]);
    }
    if model.profile is Some {
        let profile = model.profile_section(labels);
        assert(window[(4 + brightness.len() + battery.len()) as int] == profile[1]);
    }
}

/// Before anything is reported, the popup has its tiles, the audio row and the buttons,
/// and none of the three controls can be used.
pub proof fn nothing_is_known_at_first(labels: Labels, remaining: Seq<char>)
    ensures
        ({
            let model = ModelView::initial();
            &&& model.window(labels, remaining).len() == 5
            &&& model.network_tile(labels).on_press is None
            &&& model.bluetooth_tile(labels).on_press is None
            &&& model.audio_section(labels).on_press is None
            &&& model.audio_section(labels).control == ControlView::Text(labels.unavailable@)
        }),
{
}

} // verus!
