//! The applet: what it knows of the services, and what it does on each message.
//!
//! Windows, connections and channels belong to the surroundings. The applet holds
//! each by a number and gives the number back where something is to be done with
//! it.

use vstd::prelude::*;

use crate::audio::{AudioEvent, AudioState, AudioView};
use crate::battery::{battery_after, BatteryEvent, BatteryState};
use crate::brightness::{questions, Brightness, BrightnessEvent, BrightnessRequest};
use crate::feeds::{BluetoothUpdate, Feed};
use crate::network::{NetworkState, NetworkUpdate, NetworkView};
use crate::power::{perform_power_action, plan_for, PlanView, PowerAction, PowerPlan};
use crate::profile::{optional_profile, PowerProfile, ProfileView};

verus! {

/// The name under which the panel knows the applet. It stays as it is, so that existing
/// panel configurations continue to work.
pub const APP_ID: &'static str = "com.github.chrispouliot.cosmic-applet-quick-settings";

/// The program that shows all settings.
pub const SETTINGS_PROGRAM: &'static str = "cosmic-settings";

/// What the surroundings look like while a message is handled.
#[derive(Clone, Copy, Debug, PartialEq, Eq, Structural)]
pub struct Surroundings {
    /// The number of a window that was never opened.
    pub fresh_popup: u64,
    /// Whether the compositor has given the applet a privileged socket.
    pub privileged_socket: bool,
    /// Whether the audio client is held elsewhere too, so that it cannot be put to
    /// use.
    pub client_is_shared: bool,
}

/// News on activation tokens, with which a program that is started may come to the
/// front. `Init` brings the channel on which tokens are requested.
#[derive(Debug)]
pub enum TokenUpdate {
    Init(u64),
    Finished,
    ActivationToken { token: Option<String> },
}

impl Clone for TokenUpdate {
    fn clone(&self) -> (r: Self)
        ensures
            r == *self,
    {
        match self {
            TokenUpdate::Init(channel) => TokenUpdate::Init(*channel),
            TokenUpdate::Finished => TokenUpdate::Finished,
            TokenUpdate::ActivationToken { token } => TokenUpdate::ActivationToken {
                token: match token {
                    Some(token) => Some(token.clone()),
                    None => None,
                },
            },
        }
    }
}

/// What the services report, and what the user asks for.
#[derive(Debug)]
pub enum Message {
    TogglePopup,
    PopupClosed(u64),
    Network(NetworkUpdate),
    ToggleWifi(bool),
    Bluetooth(BluetoothUpdate),
    ToggleBluetooth(bool),
    AudioClient(u64),
    AudioClientReturned(u64),
    Audio(AudioEvent),
    SetVolume(u32),
    ToggleMute,
    BrightnessDaemon(BrightnessEvent),
    SetBrightness(i32),
    Battery(BatteryEvent),
    Profile(Result<PowerProfile, String>),
    SetProfile(String),
    SetProfileIndex(usize),
    Surface(u64),
    SettingsConnection(Result<u64, String>),
    OpenSettings,
    Token(TokenUpdate),
    Power(PowerAction),
}

impl Clone for Message {
    fn clone(&self) -> (r: Self)
        ensures
            match *self {
                Message::Profile(Ok(profile)) => {
                    r matches Message::Profile(Ok(copy)) && copy@ == profile@
                },
                _ => r == *self,
            },
    {
        match self {
            Message::TogglePopup => Message::TogglePopup,
            Message::PopupClosed(id) => Message::PopupClosed(*id),
            Message::Network(update) => Message::Network(update.clone()),
            Message::ToggleWifi(enabled) => Message::ToggleWifi(*enabled),
            Message::Bluetooth(update) => Message::Bluetooth(*update),
            Message::ToggleBluetooth(enabled) => Message::ToggleBluetooth(*enabled),
            Message::AudioClient(client) => Message::AudioClient(*client),
            Message::AudioClientReturned(client) => Message::AudioClientReturned(*client),
            Message::Audio(event) => Message::Audio(*event),
            Message::SetVolume(volume) => Message::SetVolume(*volume),
            Message::ToggleMute => Message::ToggleMute,
            Message::BrightnessDaemon(event) => Message::BrightnessDaemon(*event),
            Message::SetBrightness(value) => Message::SetBrightness(*value),
            Message::Battery(event) => Message::Battery(*event),
            Message::Profile(Ok(profile)) => Message::Profile(Ok(profile.clone())),
            Message::Profile(Err(reason)) => Message::Profile(Err(reason.clone())),
            Message::SetProfile(name) => Message::SetProfile(name.clone()),
            Message::SetProfileIndex(index) => Message::SetProfileIndex(*index),
            Message::Surface(surface) => Message::Surface(*surface),
            Message::SettingsConnection(Ok(connection)) => {
                Message::SettingsConnection(Ok(*connection))
            },
            Message::SettingsConnection(Err(reason)) => {
                Message::SettingsConnection(Err(reason.clone()))
            },
            Message::OpenSettings => Message::OpenSettings,
            Message::Token(update) => Message::Token(update.clone()),
            Message::Power(action) => Message::Power(*action),
        }
    }
}

/// A program to start, and what is added to its environment.
#[derive(Debug)]
pub struct Launch {
    pub program: String,
    pub environment: Vec<(String, String)>,
}

/// A [`Launch`] with its texts as sequences.
#[verifier::ext_equal]
pub struct LaunchView {
    pub program: Seq<char>,
    pub environment: Seq<(Seq<char>, Seq<char>)>,
}

impl View for Launch {
    type V = LaunchView;

    open spec fn view(&self) -> LaunchView {
        LaunchView {
            program: self.program@,
            environment: self.environment@.map_values(|e: (String, String)| (e.0@, e.1@)),
        }
    }
}

/// What is to be done after a message.
#[derive(Debug)]
pub enum Action {
    Nothing,
    /// Connect to the session bus, for the settings daemon.
    ConnectSettings,
    DestroyPopup(u64),
    OpenPopup(u64),
    SetWifi(bool),
    SetBluetooth(bool),
    /// Send the pending volume with the client of this number, by the steps from
    /// `VolumeStep::Wait` on.
    SetVolume(u64),
    /// Toggle the mute switch with the client of this number, and return the client
    /// then.
    ToggleMute(u64),
    /// Send the requests on the channel of this number.
    AskDaemon { sender: u64, requests: Vec<BrightnessRequest> },
    /// Bring the profile's `active` into use.
    ApplyProfile(PowerProfile),
    /// Search for the power profiles.
    LoadProfile,
    ForwardSurface(u64),
    /// Request a token on the channel of this number.
    RequestToken { channel: u64, app_id: String, program: String },
    Start(Launch),
    Power(PowerPlan),
}

/// An [`Action`] with its texts as sequences.
pub enum ActionView {
    Nothing,
    ConnectSettings,
    DestroyPopup(u64),
    OpenPopup(u64),
    SetWifi(bool),
    SetBluetooth(bool),
    SetVolume(u64),
    ToggleMute(u64),
    AskDaemon { sender: u64, requests: Seq<BrightnessRequest> },
    ApplyProfile(ProfileView),
    LoadProfile,
    ForwardSurface(u64),
    RequestToken { channel: u64, app_id: Seq<char>, program: Seq<char> },
    Start(LaunchView),
    Power(PlanView),
}

impl View for Action {
    type V = ActionView;

    open spec fn view(&self) -> ActionView {
        match self {
            Action::Nothing => ActionView::Nothing,
            Action::ConnectSettings => ActionView::ConnectSettings,
            Action::DestroyPopup(id) => ActionView::DestroyPopup(*id),
            Action::OpenPopup(id) => ActionView::OpenPopup(*id),
            Action::SetWifi(enabled) => ActionView::SetWifi(*enabled),
            Action::SetBluetooth(enabled) => ActionView::SetBluetooth(*enabled),
            Action::SetVolume(client) => ActionView::SetVolume(*client),
            Action::ToggleMute(client) => ActionView::ToggleMute(*client),
            Action::AskDaemon { sender, requests } => ActionView::AskDaemon {
                sender: *sender,
                requests: requests@,
            },
            Action::ApplyProfile(profile) => ActionView::ApplyProfile(profile@),
            Action::LoadProfile => ActionView::LoadProfile,
            Action::ForwardSurface(surface) => ActionView::ForwardSurface(*surface),
            Action::RequestToken { channel, app_id, program } => ActionView::RequestToken {
                channel: *channel,
                app_id: app_id@,
                program: program@,
            },
            Action::Start(launch) => ActionView::Start(launch@),
            Action::Power(plan) => ActionView::Power(plan@),
        }
    }
}

/// The model intentionally keeps only the small set of values that the popup exposes.
/// Each service is optional: a missing daemon simply removes (or disables) its
/// control.
pub struct AppModel {
    pub popup: Option<u64>,
    pub token_tx: Option<u64>,
    pub settings_connection: Option<u64>,
    pub network: NetworkState,
    pub bluetooth: Option<bool>,
    pub audio: AudioState,
    pub brightness: Brightness,
    pub battery: Option<BatteryState>,
    pub profile: Option<PowerProfile>,
}

/// An [`AppModel`] with its texts as sequences and its tables as maps.
#[verifier::ext_equal]
pub struct ModelView {
    pub popup: Option<u64>,
    pub token_tx: Option<u64>,
    pub settings_connection: Option<u64>,
    pub network: NetworkView,
    pub bluetooth: Option<bool>,
    pub audio: AudioView,
    pub brightness: Brightness,
    pub battery: Option<BatteryState>,
    pub profile: Option<ProfileView>,
}

impl View for AppModel {
    type V = ModelView;

    open spec fn view(&self) -> ModelView {
        ModelView {
            popup: self.popup,
            token_tx: self.token_tx,
            settings_connection: self.settings_connection,
            network: self.network@,
            bluetooth: self.bluetooth,
            audio: self.audio@,
            brightness: self.brightness,
            battery: self.battery,
            profile: optional_profile(self.profile),
        }
    }
}

/// How the settings program is started: with the token, where there is one, under
/// both names by which programs look for it.
pub open spec fn settings_launch(token: Option<Seq<char>>) -> LaunchView {
    LaunchView {
        program: SETTINGS_PROGRAM@,
        environment: match token {
            Some(token) => seq![
                ("XDG_ACTIVATION_TOKEN"@, token),
                ("DESKTOP_STARTUP_ID"@, token),
            ],
            None => Seq::empty(),
        },
    }
}

/// Requests go out where there is something to request and a channel for it.
pub open spec fn asking(sender: Option<u64>, requests: Seq<BrightnessRequest>) -> ActionView {
    match sender {
        Some(sender) => if requests.len() > 0 {
            ActionView::AskDaemon { sender, requests }
        } else {
            ActionView::Nothing
        },
        None => ActionView::Nothing,
    }
}

impl ModelView {
    /// What is known before anything was reported.
    pub open spec fn initial() -> ModelView {
        ModelView {
            popup: None,
            token_tx: None,
            settings_connection: None,
            network: NetworkView::initial(),
            bluetooth: None,
            audio: AudioView::initial(),
            brightness: Brightness::initial(),
            battery: None,
            profile: None,
        }
    }

    /// Whether a profile of that name can be chosen.
    pub open spec fn offers(self, name: Seq<char>) -> bool {
        self.profile matches Some(profile) && profile.choices.contains(name)
    }

    /// The model with the profile of that name in use, where it can be chosen.
    pub open spec fn with_active(self, name: Seq<char>) -> ModelView {
        if self.offers(name) {
            ModelView { profile: Some(ProfileView { active: name, ..self.profile->0 }), ..self }
        } else {
            self
        }
    }

    /// What is to be done so that the profile of that name comes into use.
    pub open spec fn activating(self, name: Seq<char>) -> ActionView {
        if self.offers(name) {
            ActionView::ApplyProfile(ProfileView { active: name, ..self.profile->0 })
        } else {
            ActionView::Nothing
        }
    }

    /// The name of the choice with that index.
    pub open spec fn choice(self, index: usize) -> Option<Seq<char>> {
        match self.profile {
            Some(profile) => if index < profile.choices.len() {
                Some(profile.choices[index as int])
            } else {
                None
            },
            None => None,
        }
    }

    /// The audio client that can be put to use.
    pub open spec fn client_used(self, surroundings: Surroundings) -> Option<u64> {
        if surroundings.client_is_shared {
            None
        } else {
            self.audio.client
        }
    }

    /// The audio client that stays once the one that can be used is.
    pub open spec fn client_left(self, surroundings: Surroundings) -> Option<u64> {
        if surroundings.client_is_shared {
            self.audio.client
        } else {
            None
        }
    }

    /// The model once a message was handled.
    pub open spec fn after(self, message: Message, surroundings: Surroundings) -> ModelView {
        match message {
            Message::TogglePopup => ModelView {
                popup: if self.popup is Some {
                    None
                } else {
                    Some(surroundings.fresh_popup)
                },
                ..self
            },
            Message::PopupClosed(id) => if self.popup == Some(id) {
                ModelView { popup: None, ..self }
            } else {
                self
            },
            Message::Network(update) => ModelView {
                network: NetworkView::reported(update@),
                ..self
            },
            Message::ToggleWifi(enabled) => ModelView {
                network: NetworkView { wifi_enabled: Some(enabled), ..self.network },
                ..self
            },
            Message::Bluetooth(BluetoothUpdate(enabled)) => ModelView {
                bluetooth: Some(enabled),
                ..self
            },
            Message::ToggleBluetooth(enabled) => ModelView { bluetooth: Some(enabled), ..self },
            Message::AudioClient(client) => ModelView {
                audio: AudioView {
                    client: Some(client),
                    nodes: Map::empty(),
                    default_sink: None,
                    ..self.audio
                },
                ..self
            },
            Message::AudioClientReturned(client) => ModelView {
                audio: AudioView { client: Some(client), ..self.audio },
                ..self
            },
            Message::Audio(event) => ModelView { audio: self.audio.after(event), ..self },
            Message::SetVolume(volume) => ModelView {
                audio: AudioView {
                    volume,
                    pending_volume: volume,
                    client: self.client_left(surroundings),
                    ..self.audio
                },
                ..self
            },
            Message::ToggleMute => ModelView {
                audio: AudioView { client: self.client_left(surroundings), ..self.audio },
                ..self
            },
            Message::BrightnessDaemon(event) => ModelView {
                brightness: self.brightness.after(event),
                ..self
            },
            Message::SetBrightness(value) => ModelView {
                brightness: self.brightness.chosen(value),
                ..self
            },
            Message::Battery(event) => ModelView { battery: battery_after(event), ..self },
            Message::Profile(result) => ModelView {
                profile: match result {
                    Ok(profile) => Some(profile@),
                    Err(_) => None,
                },
                ..self
            },
            Message::SetProfile(name) => self.with_active(name@),
            Message::SetProfileIndex(index) => match self.choice(index) {
                Some(name) => self.with_active(name),
                None => self,
            },
            Message::SettingsConnection(result) => match result {
                Ok(connection) => ModelView { settings_connection: Some(connection), ..self },
                Err(_) => self,
            },
            Message::Token(TokenUpdate::Init(channel)) => ModelView {
                token_tx: Some(channel),
                ..self
            },
            Message::Token(TokenUpdate::Finished) => ModelView { token_tx: None, ..self },
            Message::Token(TokenUpdate::ActivationToken { .. }) => self,
            Message::Surface(_) | Message::OpenSettings | Message::Power(_) => self,
        }
    }

    /// What is to be done on a message.
    pub open spec fn action(self, message: Message, surroundings: Surroundings) -> ActionView {
        match message {
            Message::TogglePopup => match self.popup {
                Some(popup) => ActionView::DestroyPopup(popup),
                None => ActionView::OpenPopup(surroundings.fresh_popup),
            },
            Message::ToggleWifi(enabled) => ActionView::SetWifi(enabled),
            Message::ToggleBluetooth(enabled) => ActionView::SetBluetooth(enabled),
            Message::SetVolume(_) => match self.client_used(surroundings) {
                Some(client) => ActionView::SetVolume(client),
                None => ActionView::Nothing,
            },
            Message::ToggleMute => match self.client_used(surroundings) {
                Some(client) => ActionView::ToggleMute(client),
                None => ActionView::Nothing,
            },
            Message::BrightnessDaemon(event) => asking(
                self.brightness.after(event).sender,
                questions(event),
            ),
            Message::SetBrightness(value) => asking(
                self.brightness.sender,
                seq![BrightnessRequest::SetDisplayBrightness(value)],
            ),
            Message::SetProfile(name) => self.activating(name@),
            Message::SetProfileIndex(index) => match self.choice(index) {
                Some(name) => self.activating(name),
                None => ActionView::Nothing,
            },
            Message::Surface(surface) => ActionView::ForwardSurface(surface),
            Message::SettingsConnection(result) => match result {
                Ok(_) => ActionView::LoadProfile,
                Err(_) => ActionView::Nothing,
            },
            Message::OpenSettings => match self.token_tx {
                Some(channel) => ActionView::RequestToken {
                    channel,
                    app_id: APP_ID@,
                    program: SETTINGS_PROGRAM@,
                },
                None => if surroundings.privileged_socket {
                    ActionView::Nothing
                } else {
                    ActionView::Start(settings_launch(None))
                },
            },
            Message::Token(TokenUpdate::ActivationToken { token }) => ActionView::Start(
                settings_launch(crate::text::optional_text(token)),
            ),
            Message::Power(power) => ActionView::Power(plan_for(power)),
            _ => ActionView::Nothing,
        }
    }

    /// The message for a window that is to be closed.
    pub open spec fn closing(self, id: u64) -> Option<Message> {
        Some(Message::PopupClosed(id))
    }

    /// What is followed: the four services at any time, activation tokens where the
    /// compositor has given a privileged socket, and the settings daemon once there is
    /// a connection to it.
    pub open spec fn feeds(self, privileged_socket: bool) -> Seq<Feed> {
        let services = seq![Feed::Network, Feed::Bluetooth, Feed::Audio, Feed::Battery];
        let tokens = if privileged_socket {
            seq![Feed::ActivationToken]
        } else {
            Seq::empty()
        };
        let daemon = match self.settings_connection {
            Some(connection) => seq![Feed::SettingsDaemon(connection)],
            None => Seq::empty(),
        };
        services + tokens + daemon
    }
}

/// How the settings program is started.
pub fn settings_command(token: Option<String>) -> (r: Launch)
    ensures
        r@ == settings_launch(crate::text::optional_text(token)),
{
    let mut environment: Vec<(String, String)> = Vec::new();
    let ghost given = crate::text::optional_text(token);
    match token {
        Some(token) => {
            environment.push(("XDG_ACTIVATION_TOKEN".to_owned(), token.clone()));
            environment.push(("DESKTOP_STARTUP_ID".to_owned(), token));
        },
        None => {},
    }
    let r = Launch { program: SETTINGS_PROGRAM.to_owned(), environment };
    assert(r@.environment =~= settings_launch(given).environment);
    r
}

fn ask(sender: Option<u64>, requests: Vec<BrightnessRequest>) -> (r: Action)
    ensures
        r@ == asking(sender, requests@),
{
    match sender {
        Some(sender) => {
            if requests.len() > 0 {
                Action::AskDaemon { sender, requests }
            } else {
                Action::Nothing
            }
        },
        None => Action::Nothing,
    }
}

impl Default for AppModel {
    fn default() -> (r: AppModel)
        ensures
            r@ == ModelView::initial(),
    {
        AppModel {
            popup: None,
            token_tx: None,
            settings_connection: None,
            network: NetworkState::new(),
            bluetooth: None,
            audio: AudioState::new(),
            brightness: Brightness::new(),
            battery: None,
            profile: None,
        }
    }
}

impl AppModel {
    /// The applet as it starts, and what is to be done then.
    pub fn init() -> (r: (AppModel, Action))
        ensures
            r.0@ == ModelView::initial(),
            r.1@ == ActionView::ConnectSettings,
    {
        (AppModel::default(), Action::ConnectSettings)
    }

    /// The message for a window that is to be closed.
    pub fn on_close_requested(&self, id: u64) -> (r: Option<Message>)
        ensures
            r == Some(Message::PopupClosed(id)),
            r == self@.closing(id),
    {
        Some(Message::PopupClosed(id))
    }

    /// What is followed while the model is as it is.
    pub fn subscription(&self, privileged_socket: bool) -> (r: Vec<Feed>)
        ensures
            r@ == self@.feeds(privileged_socket),
    {
        let mut feeds: Vec<Feed> = Vec::new();
        feeds.push(Feed::Network);
        feeds.push(Feed::Bluetooth);
        feeds.push(Feed::Audio);
        feeds.push(Feed::Battery);
        if privileged_socket {
            feeds.push(Feed::ActivationToken);
        }
        match self.settings_connection {
            Some(connection) => feeds.push(Feed::SettingsDaemon(connection)),
            None => {},
        }
        assert(feeds@ =~= self@.feeds(privileged_socket));
        feeds
    }

    /// Brings the profile of that name into use, where it can be chosen.
    fn set_profile(&mut self, name: String) -> (r: Action)
        ensures
            final(self)@ == old(self)@.with_active(name@),
            r@ == old(self)@.activating(name@),
    {
        let profile = self.profile.take();
        match profile {
            Some(mut profile) => {
                proof {
                    crate::profile::first_position_is_first(profile@.choices, name@);
                }
                if profile.position(name.as_str()).is_some() {
                    profile.active = name;
                    let applied = profile.clone();
                    self.profile = Some(profile);
                    Action::ApplyProfile(applied)
                } else {
                    self.profile = Some(profile);
                    Action::Nothing
                }
            },
            None => Action::Nothing,
        }
    }

    /// Takes the audio client out, where it can be put to use.
    fn take_client(&mut self, surroundings: Surroundings) -> (r: Option<u64>)
        ensures
            r == old(self)@.client_used(surroundings),
            final(self)@ == (ModelView {
                audio: AudioView {
                    client: old(self)@.client_left(surroundings),
                    ..old(self)@.audio
                },
                ..old(self)@
            }),
    {
        if surroundings.client_is_shared {
            None
        } else {
            self.audio.client.take()
        }
    }

    /// Handles a message, and gives what is to be done on it.
    pub fn update(&mut self, message: Message, surroundings: Surroundings) -> (r: Action)
        ensures
            final(self)@ == old(self)@.after(message, surroundings),
            r@ == old(self)@.action(message, surroundings),
    {
        match message {
            Message::TogglePopup => {
                match self.popup.take() {
                    Some(popup) => Action::DestroyPopup(popup),
                    None => {
                        self.popup = Some(surroundings.fresh_popup);
                        Action::OpenPopup(surroundings.fresh_popup)
                    },
                }
            },
            Message::PopupClosed(id) => {
                match self.popup {
                    Some(popup) => {
                        if popup == id {
                            self.popup = None;
                        }
                    },
                    None => {},
                }
                Action::Nothing
            },
            Message::Network(update) => {
                self.network = NetworkState::reported(update);
                Action::Nothing
            },
            Message::ToggleWifi(enabled) => {
                self.network.wifi_enabled = Some(enabled);
                Action::SetWifi(enabled)
            },
            Message::Bluetooth(BluetoothUpdate(enabled)) => {
                self.bluetooth = Some(enabled);
                Action::Nothing
            },
            Message::ToggleBluetooth(enabled) => {
                self.bluetooth = Some(enabled);
                Action::SetBluetooth(enabled)
            },
            Message::AudioClient(client) => {
                self.audio.client = Some(client);
                self.audio.nodes.clear();
                self.audio.default_sink = None;
                Action::Nothing
            },
            Message::AudioClientReturned(client) => {
                self.audio.client = Some(client);
                Action::Nothing
            },
            Message::Audio(event) => {
                self.audio.apply(event);
                Action::Nothing
            },
            Message::SetVolume(volume) => {
                self.audio.volume = volume;
                self.audio.pending_volume = volume;
                match self.take_client(surroundings) {
                    Some(client) => Action::SetVolume(client),
                    None => Action::Nothing,
                }
            },
            Message::ToggleMute => {
                match self.take_client(surroundings) {
                    Some(client) => Action::ToggleMute(client),
                    None => Action::Nothing,
                }
            },
            Message::BrightnessDaemon(event) => {
                let requests = self.brightness.report(event);
                ask(self.brightness.sender, requests)
            },
            Message::SetBrightness(value) => {
                let requests = self.brightness.choose_value(value);
                ask(self.brightness.sender, requests)
            },
            Message::Battery(event) => {
                self.battery = BatteryState::reported(event);
                Action::Nothing
            },
            Message::Profile(result) => {
                self.profile = match result {
                    Ok(profile) => Some(profile),
                    Err(_) => None,
                };
                Action::Nothing
            },
            Message::SetProfileIndex(index) => {
                let name: Option<String> = match &self.profile {
                    Some(profile) => {
                        if index < profile.choices.len() {
                            Some(profile.choices[index].clone())
                        } else {
                            None
                        }
                    },
                    None => None,
                };
                match name {
                    Some(name) => self.set_profile(name),
                    None => Action::Nothing,
                }
            },
            Message::SetProfile(name) => self.set_profile(name),
            Message::Surface(surface) => Action::ForwardSurface(surface),
            Message::SettingsConnection(result) => {
                match result {
                    Ok(connection) => {
                        self.settings_connection = Some(connection);
                        Action::LoadProfile
                    },
                    Err(_) => Action::Nothing,
                }
            },
            Message::OpenSettings => {
                match self.token_tx {
                    Some(channel) => Action::RequestToken {
                        channel,
                        app_id: APP_ID.to_owned(),
                        program: SETTINGS_PROGRAM.to_owned(),
                    },
                    None => {
                        if surroundings.privileged_socket {
                            Action::Nothing
                        } else {
                            Action::Start(settings_command(None))
                        }
                    },
                }
            },
            Message::Token(update) => {
                match update {
                    TokenUpdate::Init(channel) => {
                        self.token_tx = Some(channel);
                        Action::Nothing
                    },
                    TokenUpdate::Finished => {
                        self.token_tx = None;
                        Action::Nothing
                    },
                    TokenUpdate::ActivationToken { token } => {
                        Action::Start(settings_command(token))
                    },
                }
            },
            Message::Power(action) => Action::Power(perform_power_action(action)),
        }
    }
}

} // verus!
