//! The applet's button in the panel, and the popup under it: what stands in them,
//! and what a control that is pressed, moved or picked from tells the applet.

use vstd::prelude::*;

use crate::app::{AppModel, Message, ModelView};
use crate::battery::{battery_caption, battery_icon_name, caption, icon_name, remaining_text};
use crate::brightness::{brightness_percent, has_percent, percent_of};
use crate::labels::Labels;
use crate::power::PowerAction;
use crate::profile::{choice_labels, first_position, position_of};
use crate::text::{decimal, optional_text, push_decimal, texts};

verus! {

/// The largest volume that the slider reaches.
pub const MAX_VOLUME: u32 = 100;

/// A button with an icon alone.
#[derive(Debug)]
pub struct IconButton {
    pub icon: &'static str,
    pub on_press: Message,
}

/// A control for something that is switched on and off. It cannot be pressed where
/// `on_press` is missing.
#[derive(Debug)]
pub struct Tile {
    pub icon: &'static str,
    pub title: String,
    pub caption: String,
    pub selected: bool,
    pub on_press: Option<Message>,
}

/// The control of the volume: a slider from 0 to `MAX_VOLUME`, or a text in its place.
#[derive(Debug)]
pub enum VolumeControl {
    Slider(u32),
    Text(String),
}

/// The mute button, which cannot be pressed where `on_press` is missing, the control of
/// the volume, and the volume as a text.
#[derive(Debug)]
pub struct AudioRow {
    pub icon: &'static str,
    pub on_press: Option<Message>,
    pub control: VolumeControl,
    pub percent: String,
}

/// A slider from 0 to `max`, and how much of the range is in use as a text.
#[derive(Debug)]
pub struct BrightnessRow {
    pub icon: &'static str,
    pub value: i32,
    pub max: i32,
    pub percent: String,
}

/// An icon, and a title with a line under it.
#[derive(Debug)]
pub struct BatteryRow {
    pub icon: String,
    pub title: String,
    pub caption: String,
}

/// A list of which an entry can be chosen. It opens over the window `popup`.
#[derive(Debug)]
pub struct ProfileRow {
    pub icon: &'static str,
    pub title: String,
    pub choices: Vec<String>,
    pub selected: Option<usize>,
    pub popup: Option<u64>,
}

/// A button with an icon and a text.
#[derive(Debug)]
pub struct TextButton {
    pub icon: &'static str,
    pub label: String,
    pub on_press: Message,
}

/// A line of the popup.
#[derive(Debug)]
pub enum Section {
    Tiles(Tile, Tile),
    Divider,
    Audio(AudioRow),
    Brightness(BrightnessRow),
    Battery(BatteryRow),
    Profile(ProfileRow),
    Buttons(Vec<TextButton>),
}

/// An [`IconButton`] with its text as a sequence.
pub struct IconButtonView {
    pub icon: Seq<char>,
    pub on_press: Message,
}

impl View for IconButton {
    type V = IconButtonView;

    open spec fn view(&self) -> IconButtonView {
        IconButtonView { icon: self.icon@, on_press: self.on_press }
    }
}

/// A [`Tile`] with its texts as sequences.
pub struct TileView {
    pub icon: Seq<char>,
    pub title: Seq<char>,
    pub caption: Seq<char>,
    pub selected: bool,
    pub on_press: Option<Message>,
}

impl View for Tile {
    type V = TileView;

    open spec fn view(&self) -> TileView {
        TileView {
            icon: self.icon@,
            title: self.title@,
            caption: self.caption@,
            selected: self.selected,
            on_press: self.on_press,
        }
    }
}

/// A [`VolumeControl`] with its text as a sequence.
pub enum ControlView {
    Slider(u32),
    Text(Seq<char>),
}

impl View for VolumeControl {
    type V = ControlView;

    open spec fn view(&self) -> ControlView {
        match self {
            VolumeControl::Slider(volume) => ControlView::Slider(*volume),
            VolumeControl::Text(text) => ControlView::Text(text@),
        }
    }
}

impl ControlView {
    /// What moving the control to a volume tells the applet. A text cannot be moved.
    pub open spec fn moved(self, volume: u32) -> Option<Message> {
        match self {
            ControlView::Slider(_) => Some(Message::SetVolume(volume)),
            ControlView::Text(_) => None,
        }
    }
}

/// An [`AudioRow`] with its texts as sequences.
pub struct AudioRowView {
    pub icon: Seq<char>,
    pub on_press: Option<Message>,
    pub control: ControlView,
    pub percent: Seq<char>,
}

impl View for AudioRow {
    type V = AudioRowView;

    open spec fn view(&self) -> AudioRowView {
        AudioRowView {
            icon: self.icon@,
            on_press: self.on_press,
            control: self.control@,
            percent: self.percent@,
        }
    }
}

/// A [`TextButton`] with its texts as sequences.
pub struct ButtonView {
    pub icon: Seq<char>,
    pub label: Seq<char>,
    pub on_press: Message,
}

impl View for TextButton {
    type V = ButtonView;

    open spec fn view(&self) -> ButtonView {
        ButtonView { icon: self.icon@, label: self.label@, on_press: self.on_press }
    }
}

/// A [`Section`] with its texts as sequences.
pub enum SectionView {
    Tiles(TileView, TileView),
    Divider,
    Audio(AudioRowView),
    Brightness { icon: Seq<char>, value: i32, max: i32, percent: Seq<char> },
    Battery { icon: Seq<char>, title: Seq<char>, caption: Seq<char> },
    Profile {
        icon: Seq<char>,
        title: Seq<char>,
        choices: Seq<Seq<char>>,
        selected: Option<nat>,
        popup: Option<u64>,
    },
    Buttons(Seq<ButtonView>),
}

impl View for Section {
    type V = SectionView;

    open spec fn view(&self) -> SectionView {
        match self {
            Section::Tiles(left, right) => SectionView::Tiles(left@, right@),
            Section::Divider => SectionView::Divider,
            Section::Audio(row) => SectionView::Audio(row@),
            Section::Brightness(row) => SectionView::Brightness {
                icon: row.icon@,
                value: row.value,
                max: row.max,
                percent: row.percent@,
            },
            Section::Battery(row) => SectionView::Battery {
                icon: row.icon@,
                title: row.title@,
                caption: row.caption@,
            },
            Section::Profile(row) => SectionView::Profile {
                icon: row.icon@,
                title: row.title@,
                choices: texts(row.choices@),
                selected: position_of(row.selected),
                popup: row.popup,
            },
            Section::Buttons(buttons) => SectionView::Buttons(
                buttons@.map_values(|button: TextButton| button@),
            ),
        }
    }
}

impl SectionView {
    /// What moving the slider of the line to a brightness tells the applet.
    pub open spec fn moved(self, value: i32) -> Option<Message> {
        match self {
            SectionView::Brightness { .. } => Some(Message::SetBrightness(value)),
            _ => None,
        }
    }

    /// What picking an entry of the line's list tells the applet.
    pub open spec fn picked(self, index: usize) -> Option<Message> {
        match self {
            SectionView::Profile { .. } => Some(Message::SetProfileIndex(index)),
            _ => None,
        }
    }
}

/// The popup with its texts as sequences.
pub open spec fn section_views(sections: Seq<Section>) -> Seq<SectionView> {
    sections.map_values(|section: Section| section@)
}

/// A number of percent points as a text.
pub open spec fn percent_text(n: nat) -> Seq<char> {
    decimal(n) + "%"@
}

impl ModelView {
    /// The applet's button in the panel.
    pub open spec fn panel_button(self) -> IconButtonView {
        IconButtonView { icon: "display-symbolic"@, on_press: Message::TogglePopup }
    }

    /// The time that goes into the message on the time that the battery lasts, where that
    /// message is shown.
    pub open spec fn remaining(self, less_than_minute: Seq<char>) -> Option<Seq<char>> {
        match self.battery {
            Some(battery) => remaining_text(battery, less_than_minute),
            None => None,
        }
    }

    /// The control of the Wi-Fi radio. A press asks for the opposite of what is known.
    pub open spec fn network_tile(self, labels: Labels) -> TileView {
        TileView {
            icon: "network-wireless-symbolic"@,
            title: labels.network@,
            caption: self.network.caption(labels.unavailable@, labels.disabled@),
            selected: self.network.wifi_enabled == Some(true),
            on_press: match self.network.wifi_enabled {
                Some(enabled) => Some(Message::ToggleWifi(!enabled)),
                None => None,
            },
        }
    }

    /// The control of the Bluetooth adapter. A press asks for the opposite of what is
    /// known.
    pub open spec fn bluetooth_tile(self, labels: Labels) -> TileView {
        TileView {
            icon: "bluetooth-symbolic"@,
            title: labels.bluetooth@,
            caption: match self.bluetooth {
                Some(enabled) => if enabled {
                    labels.enabled@
                } else {
                    labels.disabled@
                },
                None => labels.unavailable@,
            },
            selected: self.bluetooth == Some(true),
            on_press: match self.bluetooth {
                Some(enabled) => Some(Message::ToggleBluetooth(!enabled)),
                None => None,
            },
        }
    }

    /// The icon of the mute button: muted, or by how loud the output is.
    pub open spec fn audio_icon(self) -> Seq<char> {
        if self.audio.mute || self.audio.volume == 0 {
            "audio-volume-muted-symbolic"@
        } else if self.audio.volume < 50 {
            "audio-volume-medium-symbolic"@
        } else {
            "audio-volume-high-symbolic"@
        }
    }

    /// The audio row. It can be used where the output can be controlled.
    pub open spec fn audio_section(self, labels: Labels) -> AudioRowView {
        AudioRowView {
            icon: self.audio_icon(),
            on_press: if self.audio.is_available() {
                Some(Message::ToggleMute)
            } else {
                None
            },
            control: if self.audio.is_available() {
                ControlView::Slider(self.audio.volume)
            } else {
                ControlView::Text(labels.unavailable@)
            },
            percent: percent_text(self.audio.volume as nat),
        }
    }

    /// The brightness row, where there is a brightness to show.
    pub open spec fn brightness_section(self) -> Seq<SectionView> {
        match self.brightness.shown {
            Some(shown) => seq![
                SectionView::Brightness {
                    icon: "display-brightness-symbolic"@,
                    value: shown.value,
                    max: shown.max,
                    percent: percent_text(percent_of(shown) as nat),
                },
            ],
            None => Seq::empty(),
        }
    }

    /// The battery row, where there is a battery.
    pub open spec fn battery_section(self, labels: Labels, remaining: Seq<char>) -> Seq<
        SectionView,
    > {
        match self.battery {
            Some(battery) => seq![
                SectionView::Battery {
                    icon: icon_name(battery),
                    title: labels.battery@,
                    caption: caption(battery, labels.on_battery@, labels.charging@, remaining),
                },
            ],
            None => Seq::empty(),
        }
    }

    /// The list of the power profiles, with a divider above, where there are any.
    pub open spec fn profile_section(self, labels: Labels) -> Seq<SectionView> {
        match self.profile {
            Some(profile) => seq![
                SectionView::Divider,
                SectionView::Profile {
                    icon: "preferences-system-symbolic"@,
                    title: labels.power_profile@,
                    choices: choice_labels(profile, labels),
                    selected: first_position(profile.choices, profile.active),
                    popup: self.popup,
                },
            ],
            None => Seq::empty(),
        }
    }

    /// The popup, from top to bottom. `remaining` is the message on the time that the
    /// battery lasts.
    pub open spec fn window(self, labels: Labels, remaining: Seq<char>) -> Seq<SectionView> {
        seq![
            SectionView::Tiles(self.network_tile(labels), self.bluetooth_tile(labels)),
            SectionView::Divider,
            SectionView::Audio(self.audio_section(labels)),
        ] + self.brightness_section() + self.battery_section(labels, remaining)
            + self.profile_section(labels) + seq![
            SectionView::Divider,
            SectionView::Buttons(session_buttons(labels)),
        ]
    }
}

/// The buttons at the foot of the popup.
pub open spec fn session_buttons(labels: Labels) -> Seq<ButtonView> {
    seq![
        ButtonView {
            icon: "settings-symbolic"@,
            label: labels.settings@,
            on_press: Message::OpenSettings,
        },
        ButtonView {
            icon: "system-suspend-symbolic"@,
            label: labels.suspend@,
            on_press: Message::Power(PowerAction::Suspend),
        },
        ButtonView {
            icon: "system-log-out-symbolic"@,
            label: labels.logout@,
            on_press: Message::Power(PowerAction::Logout),
        },
        ButtonView {
            icon: "system-reboot-symbolic"@,
            label: labels.restart@,
            on_press: Message::Power(PowerAction::Restart),
        },
        ButtonView {
            icon: "system-shutdown-symbolic"@,
            label: labels.shutdown@,
            on_press: Message::Power(PowerAction::Shutdown),
        },
    ]
}

fn percent_points(n: u64) -> (r: String)
    ensures
        r@ == percent_text(n as nat),
{
    let mut r = String::new();
    push_decimal(&mut r, n);
    r.append("%");
    assert(r@ =~= percent_text(n as nat));
    r
}

fn settings_button(label: &String) -> (r: TextButton)
    ensures
        r@ == (ButtonView {
            icon: "settings-symbolic"@,
            label: label@,
            on_press: Message::OpenSettings,
        }),
{
    TextButton {
        icon: "settings-symbolic",
        label: label.clone(),
        on_press: Message::OpenSettings,
    }
}

fn action_button(icon: &'static str, label: &String, action: PowerAction) -> (r: TextButton)
    ensures
        r@ == (ButtonView { icon: icon@, label: label@, on_press: Message::Power(action) }),
{
    TextButton { icon, label: label.clone(), on_press: Message::Power(action) }
}

fn buttons(labels: &Labels) -> (r: Vec<TextButton>)
    ensures
        r@.map_values(|button: TextButton| button@) == session_buttons(*labels),
{
    let mut r: Vec<TextButton> = Vec::new();
    r.push(settings_button(&labels.settings));
    r.push(action_button("system-suspend-symbolic", &labels.suspend, PowerAction::Suspend));
    r.push(action_button("system-log-out-symbolic", &labels.logout, PowerAction::Logout));
    r.push(action_button("system-reboot-symbolic", &labels.restart, PowerAction::Restart));
    r.push(action_button("system-shutdown-symbolic", &labels.shutdown, PowerAction::Shutdown));
    assert(r@.map_values(|button: TextButton| button@) =~= session_buttons(*labels));
    r
}

fn quick_control(
    icon: &'static str,
    title: &String,
    caption: String,
    selected: bool,
    on_press: Option<Message>,
) -> (r: Tile)
    ensures
        r@ == (TileView {
            icon: icon@,
            title: title@,
            caption: caption@,
            selected,
            on_press,
        }),
{
    Tile { icon, title: title.clone(), caption, selected, on_press }
}

impl VolumeControl {
    /// The message for a slider that is moved to a volume. A text cannot be moved.
    pub fn moved(&self, volume: u32) -> (r: Option<Message>)
        ensures
            r == self@.moved(volume),
    {
        match self {
            VolumeControl::Slider(_) => Some(Message::SetVolume(volume)),
            VolumeControl::Text(_) => None,
        }
    }
}

impl BrightnessRow {
    /// The message for the slider that is moved to a value.
    pub fn moved(&self, value: i32) -> (r: Message)
        ensures
            r == Message::SetBrightness(value),
            Section::Brightness(*self)@.moved(value) == Some(r),
    {
        Message::SetBrightness(value)
    }
}

impl ProfileRow {
    /// The message for an entry that is picked from the list.
    pub fn picked(&self, index: usize) -> (r: Message)
        ensures
            r == Message::SetProfileIndex(index),
            Section::Profile(*self)@.picked(index) == Some(r),
    {
        Message::SetProfileIndex(index)
    }
}

impl AppModel {
    /// The applet's button in the panel.
    pub fn view_button(&self) -> (r: IconButton)
        ensures
            r.icon@ == "display-symbolic"@,
            r.on_press == Message::TogglePopup,
            r@ == self@.panel_button(),
    {
        IconButton { icon: "display-symbolic", on_press: Message::TogglePopup }
    }

    fn network_tile(&self, labels: &Labels) -> (r: Tile)
        ensures
            r@ == self@.network_tile(*labels),
    {
        let (selected, on_press) = match self.network.wifi_enabled {
            Some(enabled) => (enabled, Some(Message::ToggleWifi(!enabled))),
            None => (false, None),
        };
        quick_control(
            "network-wireless-symbolic",
            &labels.network,
            self.network.caption(labels),
            selected,
            on_press,
        )
    }

    fn bluetooth_tile(&self, labels: &Labels) -> (r: Tile)
        ensures
            r@ == self@.bluetooth_tile(*labels),
    {
        let (caption, selected, on_press) = match self.bluetooth {
            Some(enabled) => (
                if enabled {
                    labels.enabled.clone()
                } else {
                    labels.disabled.clone()
                },
                enabled,
                Some(Message::ToggleBluetooth(!enabled)),
            ),
            None => (labels.unavailable.clone(), false, None),
        };
        quick_control("bluetooth-symbolic", &labels.bluetooth, caption, selected, on_press)
    }

    /// The mute button, the control of the volume, and the volume as a text.
    pub fn audio_row(&self, labels: &Labels) -> (r: AudioRow)
        ensures
            r@ == self@.audio_section(*labels),
    {
        let icon: &'static str = if self.audio.mute || self.audio.volume == 0 {
            "audio-volume-muted-symbolic"
        } else if self.audio.volume < 50 {
            "audio-volume-medium-symbolic"
        } else {
            "audio-volume-high-symbolic"
        };
        let percent = percent_points(self.audio.volume as u64);
        if self.audio.available() {
            AudioRow {
                icon,
                on_press: Some(Message::ToggleMute),
                control: VolumeControl::Slider(self.audio.volume),
                percent,
            }
        } else {
            AudioRow {
                icon,
                on_press: None,
                control: VolumeControl::Text(labels.unavailable.clone()),
                percent,
            }
        }
    }

    /// The time that goes into the message on the time that the battery lasts, where
    /// that message is shown.
    pub fn battery_remaining(&self, labels: &Labels) -> (r: Option<String>)
        ensures
            optional_text(r) == match self@.battery {
                Some(battery) => remaining_text(battery, labels.less_than_minute@),
                None => None,
            },
            optional_text(r) == self@.remaining(labels.less_than_minute@),
    {
        match self.battery {
            Some(battery) => crate::battery::battery_remaining(battery, labels),
            None => None,
        }
    }

    /// The popup, from top to bottom. `remaining` is the message on the time that the
    /// battery lasts.
    pub fn view_window(&self, labels: &Labels, remaining: &str) -> (r: Vec<Section>)
        requires
            self.brightness.shown matches Some(shown) ==> has_percent(shown),
        ensures
            section_views(r@) == self@.window(*labels, remaining@),
    {
        let mut content: Vec<Section> = Vec::new();
        content.push(Section::Tiles(self.network_tile(labels), self.bluetooth_tile(labels)));
        content.push(Section::Divider);
        content.push(Section::Audio(self.audio_row(labels)));
        match self.brightness.shown {
            Some(shown) => {
                let percent: i32 = brightness_percent(shown);
                content.push(
                    Section::Brightness(
                        BrightnessRow {
                            icon: "display-brightness-symbolic",
                            value: shown.value,
                            max: shown.max,
                            percent: percent_points(percent as u64),
                        },
                    ),
                );
            },
            None => {},
        }
        match self.battery {
            Some(battery) => {
                content.push(
                    Section::Battery(
                        BatteryRow {
                            icon: battery_icon_name(battery),
                            title: labels.battery.clone(),
                            caption: battery_caption(battery, labels, remaining),
                        },
                    ),
                );
            },
            None => {},
        }
        match &self.profile {
            Some(profile) => {
                content.push(Section::Divider);
                content.push(
                    Section::Profile(
                        ProfileRow {
                            icon: "preferences-system-symbolic",
                            title: labels.power_profile.clone(),
                            choices: profile.choice_labels(labels),
                            selected: profile.selected(),
                            popup: self.popup,
                        },
                    ),
                );
            },
            None => {},
        }
        content.push(Section::Divider);
        content.push(Section::Buttons(buttons(labels)));
        assert(section_views(content@) =~= self@.window(*labels, remaining@));
        content
    }
}

} // verus!
