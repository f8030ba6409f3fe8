//! What the panel and the popup show, and what their controls lead to.

use vstd::prelude::*;

use crate::app::{Message, ModelView, Surroundings};
use crate::battery::{caption, icon_name, remaining_text, BatteryEvent};
use crate::brightness::{percent_of, BrightnessState};
use crate::labels::Labels;
use crate::power::SystemCall;
use crate::profile::{choice_labels, ProfileView};
use crate::text::{decimal, decimal_reads_back, is_digit, number};
use crate::window::{
    percent_text, section_views, session_buttons, AudioRow, ControlView, IconButton, Section,
    SectionView, TextButton, Tile, VolumeControl,
};

verus! {

/// The button in the panel toggles the popup, whatever is known.
pub proof fn panel_button_toggles(model: ModelView, surroundings: Surroundings)
    ensures
        ({
            let button = model.panel_button();
            &&& button.icon == "display-symbolic"@
            &&& button.on_press == Message::TogglePopup
            &&& model.after(button.on_press, surroundings).popup is Some <==> model.popup is None
        }),
{
}

/// The network tile has its icon and title, and the line of the network under it. It is
/// selected just where the radio is known to be on; a press asks for the opposite of what
/// is known, and there is none where nothing is.
pub proof fn network_tile_tells_the_network(model: ModelView, labels: Labels)
    ensures
        ({
            let tile = model.network_tile(labels);
            &&& tile.icon == "network-wireless-symbolic"@
            &&& tile.title == labels.network@
            &&& tile.caption == model.network.caption(labels.unavailable@, labels.disabled@)
            &&& tile.selected <==> model.network.wifi_enabled == Some(true)
            &&& tile.on_press is None <==> model.network.wifi_enabled is None
            &&& model.network.wifi_enabled == Some(true) ==> tile.on_press == Some(
                Message::ToggleWifi(false),
            )
            &&& model.network.wifi_enabled == Some(false) ==> tile.on_press == Some(
                Message::ToggleWifi(true),
            )
        }),
{
}

/// The Bluetooth tile has its icon and title, and says whether the adapter is on, off or
/// not available. It is selected just where the adapter is known to be on; a press asks for
/// the opposite of what is known, and there is none where nothing is.
pub proof fn bluetooth_tile_tells_the_power(model: ModelView, labels: Labels)
    ensures
        ({
            let tile = model.bluetooth_tile(labels);
            &&& tile.icon == "bluetooth-symbolic"@
            &&& tile.title == labels.bluetooth@
            &&& tile.selected <==> model.bluetooth == Some(true)
            &&& model.bluetooth is None ==> tile.caption == labels.unavailable@ && tile.on_press
                is None
            &&& model.bluetooth == Some(true) ==> tile.caption == labels.enabled@
                && tile.on_press == Some(Message::ToggleBluetooth(false))
            &&& model.bluetooth == Some(false) ==> tile.caption == labels.disabled@
                && tile.on_press == Some(Message::ToggleBluetooth(true))
        }),
{
}

/// The icon of the audio row is the muted one just where nothing is to be heard, and of the
/// other two the one for the lower half just under 50.
pub proof fn audio_icon_tells_the_loudness(model: ModelView)
    ensures
        ({
            let heard = !model.audio.mute && model.audio.volume > 0;
            &&& !heard ==> model.audio_icon() == "audio-volume-muted-symbolic"@
            &&& heard && model.audio.volume < 50 ==> model.audio_icon()
                == "audio-volume-medium-symbolic"@
            &&& heard && model.audio.volume >= 50 ==> model.audio_icon()
                == "audio-volume-high-symbolic"@
        }),
{
}

/// The audio row has a mute button and a slider at the volume just where the output can be
/// controlled, and says that it is not available otherwise. The volume is told in either
/// case.
pub proof fn audio_row_tells_the_volume(model: ModelView, labels: Labels)
    ensures
        ({
            let row = model.audio_section(labels);
            let usable = model.audio.client is Some && model.audio.default_sink is Some;
            &&& row.icon == model.audio_icon()
            &&& usable ==> row.on_press == Some(Message::ToggleMute) && row.control
                == ControlView::Slider(model.audio.volume)
            &&& !usable ==> row.on_press is None && row.control == ControlView::Text(
                labels.unavailable@,
            )
            &&& row.percent.last() == '%'
            &&& number(row.percent.drop_last()) == model.audio.volume
        }),
{
    percentage_text_reads_back(model.audio.volume as nat);
}

/// A number of percent points reads back as itself, with a percent sign behind it.
pub proof fn percentage_text_reads_back(n: nat)
    ensures
        percent_text(n).len() >= 2,
        percent_text(n).last() == '%',
        number(percent_text(n).drop_last()) == n,
        forall|i: int|
            0 <= i < percent_text(n).len() - 1 ==> is_digit(
                #[trigger] percent_text(n).drop_last()[i],
            ),
{
    reveal_strlit("%");
    decimal_reads_back(n);
    assert(percent_text(n).drop_last() =~= decimal(n));
}

/// The brightness row, which is there just where a brightness is shown, is a slider up to the
/// maximum at the value, and tells the share in percent.
pub proof fn brightness_row_tells_the_share(model: ModelView, shown: BrightnessState)
    ensures
        model.brightness.shown is None ==> model.brightness_section().len() == 0,
        model.brightness.shown == Some(shown) ==> {
            let row = model.brightness_section();
            &&& row.len() == 1
            &&& row[0] is Brightness
            &&& row[0]->Brightness_icon == "display-brightness-symbolic"@
            &&& row[0]->value == shown.value
            &&& row[0]->max == shown.max
            &&& row[0]->percent.last() == '%'
            &&& number(row[0]->percent.drop_last()) == percent_of(shown)
        },
{
    crate::brightness::percent_is_the_share(shown);
    percentage_text_reads_back(percent_of(shown) as nat);
}

/// The battery row, which is there just where a battery is known, has the battery's icon, the
/// title and the battery's line. The time for that line's message is told just where the
/// battery lasts a known time.
pub proof fn battery_row_tells_the_battery(
    model: ModelView,
    labels: Labels,
    remaining: Seq<char>,
)
    ensures
        model.battery is None ==> model.battery_section(labels, remaining).len() == 0
            && model.remaining(labels.less_than_minute@) is None,
        model.battery matches Some(battery) ==> {
            let row = model.battery_section(labels, remaining);
            &&& row.len() == 1
            &&& row[0] is Battery
            &&& row[0]->Battery_icon == icon_name(battery)
            &&& row[0]->Battery_title == labels.battery@
            &&& row[0]->caption == caption(
                battery,
                labels.on_battery@,
                labels.charging@,
                remaining,
            )
            &&& model.remaining(labels.less_than_minute@) == remaining_text(
                battery,
                labels.less_than_minute@,
            )
        },
{
}

/// The list of profiles, which is there with a divider above it just where profiles are known,
/// has an entry for each choice, with its label, and the profile in use is selected at its
/// first place. It opens over the popup.
pub proof fn profile_list_tells_the_choices(
    model: ModelView,
    labels: Labels,
    profile: ProfileView,
)
    ensures
        model.profile is None ==> model.profile_section(labels).len() == 0,
        model.profile == Some(profile) ==> {
            let rows = model.profile_section(labels);
            &&& rows.len() == 2
            &&& rows[0] is Divider
            &&& rows[1] is Profile
            &&& rows[1]->Profile_icon == "preferences-system-symbolic"@
            &&& rows[1]->Profile_title == labels.power_profile@
            &&& rows[1]->choices == choice_labels(profile, labels)
            &&& rows[1]->choices.len() == profile.choices.len()
            &&& rows[1]->popup == model.popup
            &&& match rows[1]->selected {
                Some(i) => {
                    &&& i < profile.choices.len()
                    &&& profile.choices[i as int] == profile.active
                    &&& forall|j: int| 0 <= j < i ==> profile.choices[j] != profile.active
                },
                None => !profile.choices.contains(profile.active),
            }
        },
{
    crate::profile::first_position_is_first(profile.choices, profile.active);
}

/// The popup holds, from top to bottom, the two tiles, a divider, the audio row, then the
/// rows for brightness, battery and profiles that there are, and at the foot a divider and
/// the buttons.
pub proof fn popup_is_in_order(model: ModelView, labels: Labels, remaining: Seq<char>)
    ensures
        ({
            let window = model.window(labels, remaining);
            let brightness = model.brightness_section();
            let battery = model.battery_section(labels, remaining);
            let profile = model.profile_section(labels);
            let to_battery = 3 + brightness.len();
            let to_profile = to_battery + battery.len();
            let to_foot = to_profile + profile.len();
            &&& window.len() == to_foot + 2
            &&& window[0] == SectionView::Tiles(
                model.network_tile(labels),
                model.bluetooth_tile(labels),
            )
            &&& window[1] is Divider
            &&& window[2] == SectionView::Audio(model.audio_section(labels))
            &&& window.subrange(3, to_battery as int) == brightness
            &&& window.subrange(to_battery as int, to_profile as int) == battery
            &&& window.subrange(to_profile as int, to_foot as int) == profile
            &&& window[to_foot as int] is Divider
            &&& window[(to_foot + 1) as int] == SectionView::Buttons(session_buttons(labels))
        }),
{
    let window = model.window(labels, remaining);
    let brightness = model.brightness_section();
    let battery = model.battery_section(labels, remaining);
    let profile = model.profile_section(labels);
    let to_battery = 3 + brightness.len();
    let to_profile = to_battery + battery.len();
    let to_foot = to_profile + profile.len();
    assert(window.subrange(3, to_battery as int) =~= brightness);
    assert(window.subrange(to_battery as int, to_profile as int) =~= battery);
    assert(window.subrange(to_profile as int, to_foot as int) =~= profile);
}

/// Each button at the foot does what its text says: the first opens the settings, and the
/// others suspend, log out, restart and shut down.
pub proof fn buttons_do_as_they_say(
    model: ModelView,
    labels: Labels,
    surroundings: Surroundings,
)
    ensures
        ({
            let buttons = session_buttons(labels);
            let call = |i: int| model.action(buttons[i].on_press, surroundings)->Power_0.call;
            &&& buttons.len() == 5
            &&& buttons[0].icon == "settings-symbolic"@
            &&& buttons[0].label == labels.settings@
            &&& buttons[0].on_press == Message::OpenSettings
            &&& buttons[1].icon == "system-suspend-symbolic"@
            &&& buttons[1].label == labels.suspend@
            &&& buttons[2].icon == "system-log-out-symbolic"@
            &&& buttons[2].label == labels.logout@
            &&& buttons[3].icon == "system-reboot-symbolic"@
            &&& buttons[3].label == labels.restart@
            &&& buttons[4].icon == "system-shutdown-symbolic"@
            &&& buttons[4].label == labels.shutdown@
            &&& forall|i: int|
                1 <= i < 5 ==> #[trigger] model.action(buttons[i].on_press, surroundings) is Power
            &&& call(1) == SystemCall::Suspend
            &&& call(2) == SystemCall::LogOut
            &&& call(3) == SystemCall::Reboot
            &&& call(4) == SystemCall::PowerOff
        }),
{
}

/// After every report on a battery the popup has a row for it, which tells the charge, the
/// status and, where it is positive, the time of that report.
pub proof fn reported_battery_has_a_row(
    model: ModelView,
    event: BatteryEvent,
    labels: Labels,
    remaining: Seq<char>,
    surroundings: Surroundings,
)
    ensures
        ({
            let after = model.after(Message::Battery(event), surroundings);
            let row = after.battery_section(labels, remaining);
            &&& row.len() == 0 <==> event is NoBattery
            &&& event is Update ==> {
                let status = if event->on_battery {
                    labels.on_battery@
                } else {
                    labels.charging@
                };
                let line = event->percent.text() + " \u{b7} "@ + status;
                &&& event->time_to_empty <= 0 ==> row[0]->caption == line
                &&& event->time_to_empty > 0 ==> row[0]->caption == line + " \u{b7} "@ + remaining
            }
        }),
{
}

/// The view of each line of the popup shows its parts as they are.
pub proof fn section_view_is_faithful(section: Section)
    ensures
        section is Divider <==> section@ is Divider,
        section matches Section::Tiles(left, right) ==> section@ == SectionView::Tiles(
            left@,
            right@,
        ),
        section matches Section::Audio(row) ==> section@ == SectionView::Audio(row@),
        section matches Section::Brightness(row) ==> {
            &&& section@ is Brightness
            &&& section@->Brightness_icon == row.icon@
            &&& section@->value == row.value
            &&& section@->max == row.max
            &&& section@->percent == row.percent@
        },
        section matches Section::Battery(row) ==> {
            &&& section@ is Battery
            &&& section@->Battery_icon == row.icon@
            &&& section@->Battery_title == row.title@
            &&& section@->caption == row.caption@
        },
        section matches Section::Profile(row) ==> {
            &&& section@ is Profile
            &&& section@->Profile_icon == row.icon@
            &&& section@->Profile_title == row.title@
            &&& section@->choices.len() == row.choices@.len()
            &&& forall|i: int|
                0 <= i < row.choices@.len() ==> #[trigger] section@->choices[i]
                    == row.choices@[i]@
            &&& row.selected is None ==> section@->selected is None
            &&& row.selected matches Some(at) ==> section@->selected == Some(at as nat)
            &&& section@->popup == row.popup
        },
        section matches Section::Buttons(buttons) ==> {
            &&& section@ is Buttons
            &&& section@->Buttons_0.len() == buttons@.len()
            &&& forall|i: int|
                0 <= i < buttons@.len() ==> #[trigger] section@->Buttons_0[i] == buttons@[i]@
        },
{
}

/// So does the view of each control, and the view of the popup that of its lines.
pub proof fn control_views_are_faithful(
    button: IconButton,
    tile: Tile,
    row: AudioRow,
    text: TextButton,
    sections: Seq<Section>,
    i: int,
)
    ensures
        button@.icon == button.icon@,
        button@.on_press == button.on_press,
        tile@.icon == tile.icon@,
        tile@.title == tile.title@,
        tile@.caption == tile.caption@,
        tile@.selected == tile.selected,
        tile@.on_press == tile.on_press,
        row@.icon == row.icon@,
        row@.on_press == row.on_press,
        row@.percent == row.percent@,
        row.control matches VolumeControl::Slider(at) ==> row@.control == ControlView::Slider(at),
        row.control matches VolumeControl::Text(shown) ==> row@.control == ControlView::Text(
            shown@,
        ),
        text@.icon == text.icon@,
        text@.label == text.label@,
        text@.on_press == text.on_press,
        section_views(sections).len() == sections.len(),
        0 <= i < sections.len() ==> section_views(sections)[i] == sections[i]@,
{
}

} // verus!
