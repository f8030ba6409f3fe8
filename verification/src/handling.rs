//! What each message comes to: what is known once it was handled, and what is done.

use vstd::prelude::*;

use crate::app::{
    settings_launch, Action, ActionView, AppModel, Launch, Message, ModelView, Surroundings,
    TokenUpdate,
};
use crate::audio::{AudioEvent, AudioView};
use crate::battery::BatteryEvent;
use crate::brightness::{BrightnessEvent, BrightnessRequest};
use crate::feeds::{BluetoothUpdate, Feed};
use crate::network::NetworkUpdate;
use crate::percent::Percent;
use crate::power::{left_to_do, PowerAction, SystemCall};
use crate::profile::{command, CommandView, PowerProfile, ProfileBackend};

verus! {

/// At the start nothing is known and nothing is open.
pub proof fn start_is_empty()
    ensures
        ({
            let model = ModelView::initial();
            &&& model.popup is None
            &&& model.token_tx is None
            &&& model.settings_connection is None
            &&& model.network.wifi_enabled is None
            &&& model.network.connectivity is None
            &&& model.network.connection_name is None
            &&& model.bluetooth is None
            &&& model.audio.client is None
            &&& model.audio.default_sink is None
            &&& model.audio.volume == 0
            &&& !model.audio.mute
            &&& model.audio.nodes == Map::<u32, (u32, bool)>::empty()
            &&& model.audio.pending_volume == 0
            &&& model.brightness.sender is None
            &&& model.brightness.value is None
            &&& model.brightness.max is None
            &&& model.brightness.shown is None
            &&& model.battery is None
            &&& model.profile is None
        }),
{
}

/// Toggling destroys the window that is open, and opens a fresh one just where none is.
pub proof fn toggling_opens_or_destroys(model: ModelView, surroundings: Surroundings)
    ensures
        ({
            let after = model.after(Message::TogglePopup, surroundings);
            let action = model.action(Message::TogglePopup, surroundings);
            &&& model.popup is Some <==> after.popup is None
            &&& model.popup matches Some(window) ==> action == ActionView::DestroyPopup(window)
            &&& after.popup matches Some(window) ==> action == ActionView::OpenPopup(window)
                && window == surroundings.fresh_popup
        }),
{
}

/// The message for a window that is to be closed makes the popup count as closed where the
/// window is the popup's, and changes and does nothing for any other window.
pub proof fn closing_reaches_the_popup(model: ModelView, id: u64, surroundings: Surroundings)
    ensures
        ({
            let message = model.closing(id);
            let after = model.after(message->0, surroundings);
            &&& message is Some
            &&& model.popup == Some(id) ==> after.popup is None
            &&& model.popup != Some(id) ==> after == model
            &&& model.action(message->0, surroundings) == ActionView::Nothing
        }),
{
}

/// After a network report just what was reported is known of the network, whatever was known
/// before, and nothing is done.
pub proof fn network_report_is_taken_over(
    model: ModelView,
    update: NetworkUpdate,
    surroundings: Surroundings,
)
    ensures
        ({
            let message = Message::Network(update);
            let network = model.after(message, surroundings).network;
            &&& network.wifi_enabled == Some(update.wifi_enabled)
            &&& network.connectivity == Some(update.connectivity@)
            &&& update.connection_name matches Some(name) ==> network.connection_name == Some(
                name@,
            )
            &&& update.connection_name is None ==> network.connection_name is None
            &&& model.action(message, surroundings) == ActionView::Nothing
        }),
{
}

/// Switching the Wi-Fi radio switches it to what was asked for, and shows that at once;
/// what else is known of the network stays.
pub proof fn wifi_is_switched_as_asked(
    model: ModelView,
    enabled: bool,
    surroundings: Surroundings,
)
    ensures
        ({
            let message = Message::ToggleWifi(enabled);
            let network = model.after(message, surroundings).network;
            &&& network.wifi_enabled == Some(enabled)
            &&& network.connectivity == model.network.connectivity
            &&& network.connection_name == model.network.connection_name
            &&& model.action(message, surroundings) == ActionView::SetWifi(enabled)
        }),
{
}

/// A report on the Bluetooth adapter is known and nothing is done; switching the adapter is
/// known at once too, and switches it to what was asked for.
pub proof fn bluetooth_is_as_reported_or_asked(
    model: ModelView,
    enabled: bool,
    surroundings: Surroundings,
)
    ensures
        ({
            let reported = Message::Bluetooth(BluetoothUpdate(enabled));
            let asked = Message::ToggleBluetooth(enabled);
            &&& model.after(reported, surroundings).bluetooth == Some(enabled)
            &&& model.after(asked, surroundings).bluetooth == Some(enabled)
            &&& model.action(reported, surroundings) == ActionView::Nothing
            &&& model.action(asked, surroundings) == ActionView::SetBluetooth(enabled)
        }),
{
}

/// A client that comes, anew or back, is held from then on. A new one forgets the nodes and
/// the default output; one that comes back leaves everything else. Nothing is done.
pub proof fn clients_are_held(model: ModelView, client: u64, surroundings: Surroundings)
    ensures
        ({
            let new = model.after(Message::AudioClient(client), surroundings).audio;
            let back = model.after(Message::AudioClientReturned(client), surroundings).audio;
            &&& new.client == Some(client)
            &&& new.default_sink is None
            &&& new.nodes.dom() == Set::<u32>::empty()
            &&& new.volume == model.audio.volume
            &&& new.mute == model.audio.mute
            &&& new.pending_volume == model.audio.pending_volume
            &&& back == (AudioView { client: Some(client), ..model.audio })
            &&& model.action(Message::AudioClient(client), surroundings) == ActionView::Nothing
            &&& model.action(Message::AudioClientReturned(client), surroundings)
                == ActionView::Nothing
        }),
{
}

/// A report of the audio server goes to what is known of it, and nothing is done.
pub proof fn audio_reports_are_taken_in(
    model: ModelView,
    event: AudioEvent,
    surroundings: Surroundings,
)
    ensures
        model.after(Message::Audio(event), surroundings).audio == model.audio.after(event),
        model.action(Message::Audio(event), surroundings) == ActionView::Nothing,
{
}

/// A volume that is asked for is shown and waits to be sent, whether or not it can be sent.
/// The client is used, and then away, just where there is one that is not held elsewhere
/// too; otherwise it stays and nothing is done. Nodes, default output and mute switch stay.
pub proof fn volume_is_set_with_the_client(
    model: ModelView,
    volume: u32,
    surroundings: Surroundings,
)
    ensures
        ({
            let message = Message::SetVolume(volume);
            let after = model.after(message, surroundings).audio;
            let action = model.action(message, surroundings);
            let free = !surroundings.client_is_shared;
            &&& after.volume == volume
            &&& after.pending_volume == volume
            &&& after.mute == model.audio.mute
            &&& after.nodes == model.audio.nodes
            &&& after.default_sink == model.audio.default_sink
            &&& free ==> after.client is None
            &&& !free ==> after.client == model.audio.client
            &&& free ==> (model.audio.client matches Some(client) ==> action
                == ActionView::SetVolume(client))
            &&& !free || model.audio.client is None ==> action == ActionView::Nothing
        }),
{
}

/// Toggling the mute switch uses the client in the same way, and shows nothing new until the
/// server reports it.
pub proof fn mute_is_toggled_with_the_client(model: ModelView, surroundings: Surroundings)
    ensures
        ({
            let after = model.after(Message::ToggleMute, surroundings).audio;
            let action = model.action(Message::ToggleMute, surroundings);
            let free = !surroundings.client_is_shared;
            &&& after == (AudioView { client: after.client, ..model.audio })
            &&& free ==> after.client is None
            &&& !free ==> after.client == model.audio.client
            &&& free ==> (model.audio.client matches Some(client) ==> action
                == ActionView::ToggleMute(client))
            &&& !free || model.audio.client is None ==> action == ActionView::Nothing
        }),
{
}

/// A report of the settings daemon goes to what is known of the brightness. A new channel is
/// asked for value and maximum; on every other report nothing is done.
pub proof fn brightness_reports_are_taken_in(
    model: ModelView,
    event: BrightnessEvent,
    surroundings: Surroundings,
)
    ensures
        ({
            let message = Message::BrightnessDaemon(event);
            let action = model.action(message, surroundings);
            &&& model.after(message, surroundings).brightness == model.brightness.after(event)
            &&& event matches BrightnessEvent::Sender(channel) ==> action == (
            ActionView::AskDaemon {
                sender: channel,
                requests: seq![
                    BrightnessRequest::GetDisplayBrightness,
                    BrightnessRequest::GetMaxDisplayBrightness,
                ],
            })
            &&& event !is Sender ==> action == ActionView::Nothing
        }),
{
}

/// A brightness that is asked for is known, shown where anything is, and asked of the daemon
/// where there is a channel to it.
pub proof fn brightness_is_set_as_asked(
    model: ModelView,
    value: i32,
    surroundings: Surroundings,
)
    ensures
        ({
            let message = Message::SetBrightness(value);
            let after = model.after(message, surroundings).brightness;
            let action = model.action(message, surroundings);
            &&& after.value == Some(value)
            &&& after.max == model.brightness.max
            &&& after.sender == model.brightness.sender
            &&& model.brightness.shown is None ==> after.shown is None
            &&& model.brightness.shown matches Some(shown) ==> after.shown is Some
                && after.shown->0.value == value && after.shown->0.max == shown.max
            &&& model.brightness.sender is None ==> action == ActionView::Nothing
            &&& model.brightness.sender matches Some(channel) ==> action == (
            ActionView::AskDaemon {
                sender: channel,
                requests: seq![BrightnessRequest::SetDisplayBrightness(value)],
            })
        }),
{
}

/// After every report on a battery the battery is known, with just what was reported; it is
/// unknown after the report that there is none. Nothing is done.
pub proof fn battery_is_as_reported(
    model: ModelView,
    on_battery: bool,
    percent: Percent,
    time_to_empty: i64,
    surroundings: Surroundings,
)
    ensures
        ({
            let update = Message::Battery(
                BatteryEvent::Update { on_battery, percent, time_to_empty },
            );
            let gone = Message::Battery(BatteryEvent::NoBattery);
            let battery = model.after(update, surroundings).battery;
            &&& battery is Some
            &&& battery->0.on_battery == on_battery
            &&& battery->0.percent == percent
            &&& battery->0.time_to_empty == time_to_empty
            &&& model.after(gone, surroundings).battery is None
            &&& model.action(update, surroundings) == ActionView::Nothing
            &&& model.action(gone, surroundings) == ActionView::Nothing
        }),
{
}

/// Profiles that were found are known as they were found, and none where they were not;
/// nothing is done.
pub proof fn profiles_are_as_found(
    model: ModelView,
    profile: PowerProfile,
    reason: String,
    surroundings: Surroundings,
)
    ensures
        ({
            let found = Message::Profile(Ok(profile));
            let failed = Message::Profile(Err(reason));
            &&& model.after(found, surroundings).profile == Some(profile@)
            &&& model.after(failed, surroundings).profile is None
            &&& model.action(found, surroundings) == ActionView::Nothing
            &&& model.action(failed, surroundings) == ActionView::Nothing
        }),
{
}

/// A profile that is among the choices comes into use when it is asked for by name: it is
/// the one in use at once, choices and service stay, and the change is carried out with it.
pub proof fn named_profile_comes_into_use(
    model: ModelView,
    name: String,
    surroundings: Surroundings,
)
    requires
        model.profile matches Some(profile) && profile.choices.contains(name@),
    ensures
        ({
            let message = Message::SetProfile(name);
            let before = model.profile->0;
            let after = model.after(message, surroundings).profile;
            &&& after is Some
            &&& after->0.active == name@
            &&& after->0.choices == before.choices
            &&& after->0.backend == before.backend
            &&& model.action(message, surroundings) == ActionView::ApplyProfile(after->0)
        }),
{
}

/// The entry that is picked is the one that the power-profiles service is told by name: what
/// is carried out for the entry of an index names the choice with that index.
pub proof fn picked_entry_is_what_the_service_is_told(
    model: ModelView,
    index: usize,
    surroundings: Surroundings,
)
    requires
        model.profile matches Some(profile) && index < profile.choices.len() && profile.backend
            == ProfileBackend::Upower,
    ensures
        ({
            let picked = model.profile->0.choices[index as int];
            model.action(Message::SetProfileIndex(index), surroundings) matches
                ActionView::ApplyProfile(applied) && command(applied) == Ok::<
                CommandView,
                Seq<char>,
            >(CommandView::SetActiveProfile(picked))
        }),
{
    let choices = model.profile->0.choices;
    assert(choices.contains(choices[index as int]));
}

/// An action of a widget's surface is forwarded, and changes nothing.
pub proof fn surface_actions_are_passed_through(
    model: ModelView,
    surface: u64,
    surroundings: Surroundings,
)
    ensures
        model.after(Message::Surface(surface), surroundings) == model,
        model.action(Message::Surface(surface), surroundings) == ActionView::ForwardSurface(
            surface,
        ),
{
}

/// A connection that was made is held, and the search for profiles begins; one that was not
/// made changes and does nothing, so that an earlier connection stays.
pub proof fn connection_starts_the_search(
    model: ModelView,
    connection: u64,
    reason: String,
    surroundings: Surroundings,
)
    ensures
        ({
            let made = Message::SettingsConnection(Ok(connection));
            let failed = Message::SettingsConnection(Err(reason));
            &&& model.after(made, surroundings).settings_connection == Some(connection)
            &&& model.action(made, surroundings) == ActionView::LoadProfile
            &&& model.after(failed, surroundings) == model
            &&& model.action(failed, surroundings) == ActionView::Nothing
        }),
{
}

/// Opening the settings requests a token for the settings program, in the applet's name,
/// on the channel where there is one; without a channel the program is started bare, unless
/// a channel is to come.
pub proof fn settings_are_opened(model: ModelView, surroundings: Surroundings)
    ensures
        ({
            let action = model.action(Message::OpenSettings, surroundings);
            &&& model.after(Message::OpenSettings, surroundings) == model
            &&& model.token_tx matches Some(channel) ==> action == (ActionView::RequestToken {
                channel,
                app_id: "com.github.chrispouliot.cosmic-applet-quick-settings"@,
                program: "cosmic-settings"@,
            })
            &&& model.token_tx is None && surroundings.privileged_socket ==> action
                == ActionView::Nothing
            &&& model.token_tx is None && !surroundings.privileged_socket ==> {
                &&& action is Start
                &&& action->Start_0.program == "cosmic-settings"@
                &&& action->Start_0.environment.len() == 0
            }
        }),
{
}

/// A channel for tokens is held from when it comes until it ends. A token that comes starts
/// the settings program with it, under both names by which programs look for one, and an
/// answer without a token starts the program bare.
pub proof fn tokens_are_handed_on(
    model: ModelView,
    channel: u64,
    token: String,
    surroundings: Surroundings,
)
    ensures
        ({
            let begins = Message::Token(TokenUpdate::Init(channel));
            let ends = Message::Token(TokenUpdate::Finished);
            let comes = Message::Token(TokenUpdate::ActivationToken { token: Some(token) });
            let bare = Message::Token(TokenUpdate::ActivationToken { token: None });
            let started = model.action(comes, surroundings);
            let without = model.action(bare, surroundings);
            &&& model.after(begins, surroundings).token_tx == Some(channel)
            &&& model.after(ends, surroundings).token_tx is None
            &&& model.action(begins, surroundings) == ActionView::Nothing
            &&& model.action(ends, surroundings) == ActionView::Nothing
            &&& model.after(comes, surroundings) == model
            &&& model.after(bare, surroundings) == model
            &&& started is Start
            &&& started->Start_0.program == "cosmic-settings"@
            &&& started->Start_0.environment.len() == 2
            &&& started->Start_0.environment.contains(("XDG_ACTIVATION_TOKEN"@, token@))
            &&& started->Start_0.environment.contains(("DESKTOP_STARTUP_ID"@, token@))
            &&& without is Start
            &&& without->Start_0.program == "cosmic-settings"@
            &&& without->Start_0.environment.len() == 0
        }),
{
    let environment = settings_launch(Some(token@)).environment;
    assert(environment[0] == ("XDG_ACTIVATION_TOKEN"@, token@));
    assert(environment[1] == ("DESKTOP_STARTUP_ID"@, token@));
}

/// Each of the four session actions is carried out as what it says: its own word goes to the
/// on-screen display, suspending goes without, and what is left where the display does not
/// start is its own call.
pub proof fn session_actions_do_as_they_say(model: ModelView, surroundings: Surroundings)
    ensures
        ({
            let suspend = model.action(Message::Power(PowerAction::Suspend), surroundings);
            let log_out = model.action(Message::Power(PowerAction::Logout), surroundings);
            let restart = model.action(Message::Power(PowerAction::Restart), surroundings);
            let shut_down = model.action(Message::Power(PowerAction::Shutdown), surroundings);
            &&& suspend is Power && log_out is Power && restart is Power && shut_down is Power
            &&& suspend->Power_0.osd is None
            &&& log_out->Power_0.osd == Some("log-out"@)
            &&& restart->Power_0.osd == Some("restart"@)
            &&& shut_down->Power_0.osd == Some("shutdown"@)
            &&& left_to_do(suspend->Power_0, true) == Some(SystemCall::Suspend)
            &&& left_to_do(suspend->Power_0, false) == Some(SystemCall::Suspend)
            &&& left_to_do(log_out->Power_0, false) == Some(SystemCall::LogOut)
            &&& left_to_do(restart->Power_0, false) == Some(SystemCall::Reboot)
            &&& left_to_do(shut_down->Power_0, false) == Some(SystemCall::PowerOff)
            &&& left_to_do(log_out->Power_0, true) is None
            &&& left_to_do(restart->Power_0, true) is None
            &&& left_to_do(shut_down->Power_0, true) is None
        }),
{
}

/// Different session actions come to different calls, and none changes what is known.
pub proof fn session_actions_are_told_apart(
    model: ModelView,
    a: PowerAction,
    b: PowerAction,
    surroundings: Surroundings,
)
    ensures
        model.after(Message::Power(a), surroundings) == model,
        ({
            let first = model.action(Message::Power(a), surroundings);
            let second = model.action(Message::Power(b), surroundings);
            a != b ==> first->Power_0.call != second->Power_0.call
        }),
{
}

/// Nothing but the services, the tokens and the settings daemon is followed, and none of
/// them twice.
pub proof fn nothing_else_is_followed(model: ModelView, privileged_socket: bool, feed: Feed)
    ensures
        ({
            let feeds = model.feeds(privileged_socket);
            &&& feeds.no_duplicates()
            &&& feeds.contains(feed) ==> match feed {
                Feed::ActivationToken => privileged_socket,
                Feed::SettingsDaemon(connection) => model.settings_connection == Some(
                    connection,
                ),
                _ => true,
            }
            &&& feeds.len() == 4 + (if privileged_socket {
                1int
            } else {
                0
            }) + (if model.settings_connection is Some {
                1int
            } else {
                0
            })
        }),
{
}

/// The view of the model shows each of its parts as it is.
pub proof fn model_view_is_faithful(model: AppModel)
    ensures
        model@.popup == model.popup,
        model@.token_tx == model.token_tx,
        model@.settings_connection == model.settings_connection,
        model@.network.wifi_enabled == model.network.wifi_enabled,
        model.network.connectivity matches Some(text) ==> model@.network.connectivity == Some(
            text@,
        ),
        model.network.connectivity is None ==> model@.network.connectivity is None,
        model.network.connection_name matches Some(text) ==> model@.network.connection_name
            == Some(text@),
        model.network.connection_name is None ==> model@.network.connection_name is None,
        model@.bluetooth == model.bluetooth,
        model@.audio.client == model.audio.client,
        model@.audio.default_sink == model.audio.default_sink,
        model@.audio.volume == model.audio.volume,
        model@.audio.mute == model.audio.mute,
        model@.audio.nodes == model.audio.nodes@,
        model@.audio.pending_volume == model.audio.pending_volume,
        model@.brightness == model.brightness,
        model@.battery == model.battery,
        model.profile matches Some(profile) ==> model@.profile == Some(profile@),
        model.profile is None ==> model@.profile is None,
{
}

/// The view of an action is that action, with what it holds.
pub proof fn action_view_is_faithful(action: Action)
    ensures
        action@ is Nothing <==> action is Nothing,
        action@ is ConnectSettings <==> action is ConnectSettings,
        action@ is LoadProfile <==> action is LoadProfile,
        action matches Action::DestroyPopup(id) ==> action@ == ActionView::DestroyPopup(id),
        action matches Action::OpenPopup(id) ==> action@ == ActionView::OpenPopup(id),
        action matches Action::SetWifi(enabled) ==> action@ == ActionView::SetWifi(enabled),
        action matches Action::SetBluetooth(enabled) ==> action@ == ActionView::SetBluetooth(
            enabled,
        ),
        action matches Action::SetVolume(client) ==> action@ == ActionView::SetVolume(client),
        action matches Action::ToggleMute(client) ==> action@ == ActionView::ToggleMute(client),
        (action matches Action::AskDaemon { sender, requests } ==> action@ == (
        ActionView::AskDaemon { sender, requests: requests@ })),
        action matches Action::ApplyProfile(profile) ==> action@ == ActionView::ApplyProfile(
            profile@,
        ),
        action matches Action::ForwardSurface(surface) ==> action@ == ActionView::ForwardSurface(
            surface,
        ),
        (action matches Action::RequestToken { channel, app_id, program } ==> action@ == (
        ActionView::RequestToken { channel, app_id: app_id@, program: program@ })),
        action matches Action::Start(launch) ==> action@ == ActionView::Start(launch@),
        action matches Action::Power(plan) ==> action@ == ActionView::Power(plan@),
{
}

/// The view of a launch holds the program and the environment, entry for entry.
pub proof fn launch_view_is_faithful(launch: Launch, i: int)
    ensures
        launch@.program == launch.program@,
        launch@.environment.len() == launch.environment@.len(),
        0 <= i < launch.environment@.len() ==> launch@.environment[i] == (
            launch.environment@[i].0@,
            launch.environment@[i].1@,
        ),
{
}

} // verus!
