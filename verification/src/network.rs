//! The network: what the network manager reports, and how it is shown.

use vstd::prelude::*;

use crate::labels::Labels;
use crate::text::optional_text;

verus! {

/// A connection that is up.
#[derive(Debug)]
pub enum ActiveConnection {
    Wired,
    Wifi { ssid: String },
    Vpn,
    Other,
}

/// What a report of the network manager tells. `connectivity` is the manager's
/// number for the state of the connection to the internet.
#[derive(Debug)]
pub struct NetworkSnapshot {
    pub wifi_enabled: bool,
    pub connectivity: u32,
    pub active_connections: Vec<ActiveConnection>,
}

/// What of a report is shown.
#[derive(Debug)]
pub struct NetworkUpdate {
    pub wifi_enabled: bool,
    pub connectivity: String,
    pub connection_name: Option<String>,
}

/// What is known of the network.
#[derive(Debug)]
pub struct NetworkState {
    pub wifi_enabled: Option<bool>,
    pub connectivity: Option<String>,
    pub connection_name: Option<String>,
}

/// A [`NetworkState`] with its texts as sequences.
#[verifier::ext_equal]
pub struct NetworkView {
    pub wifi_enabled: Option<bool>,
    pub connectivity: Option<Seq<char>>,
    pub connection_name: Option<Seq<char>>,
}

impl View for NetworkState {
    type V = NetworkView;

    open spec fn view(&self) -> NetworkView {
        NetworkView {
            wifi_enabled: self.wifi_enabled,
            connectivity: optional_text(self.connectivity),
            connection_name: optional_text(self.connection_name),
        }
    }
}

/// A [`NetworkUpdate`] with its texts as sequences.
#[verifier::ext_equal]
pub struct UpdateView {
    pub wifi_enabled: bool,
    pub connectivity: Seq<char>,
    pub connection_name: Option<Seq<char>>,
}

impl Clone for NetworkUpdate {
    fn clone(&self) -> (r: Self)
        ensures
            r == *self,
    {
        NetworkUpdate {
            wifi_enabled: self.wifi_enabled,
            connectivity: self.connectivity.clone(),
            connection_name: match &self.connection_name {
                Some(name) => Some(name.clone()),
                None => None,
            },
        }
    }
}

impl View for NetworkUpdate {
    type V = UpdateView;

    open spec fn view(&self) -> UpdateView {
        UpdateView {
            wifi_enabled: self.wifi_enabled,
            connectivity: self.connectivity@,
            connection_name: optional_text(self.connection_name),
        }
    }
}

/// The name of the connectivity state with the number `code`. A number that the
/// network manager does not use stands for the unknown state.
pub open spec fn connectivity_name(code: u32) -> Seq<char> {
    if code == 1 {
        "None"@
    } else if code == 2 {
        "Portal"@
    } else if code == 3 {
        "Limited"@
    } else if code == 4 {
        "Full"@
    } else {
        "Unknown"@
    }
}

/// Writes out `nmrs::ConnectivityState::from(code)` by its derived `Debug`, which
/// gives the name of the variant. The variant for each number is that of the
/// conversion from `u32`: 1 to 4 are `None`, `Portal`, `Limited` and `Full`, and 0
/// as well as every other number is `Unknown`.
#[verifier::external_body]
fn connectivity_text(code: u32) -> (text: String)
    ensures
        text@ == connectivity_name(code),
{
    format!("{:?}", nmrs::ConnectivityState::from(code))
}

/// The name of the first Wi-Fi network among the connections.
pub open spec fn wifi_name(connections: Seq<ActiveConnection>) -> Option<Seq<char>>
    decreases connections.len(),
{
    if connections.len() == 0 {
        None
    } else {
        match connections[0] {
            ActiveConnection::Wifi { ssid } => Some(ssid@),
            _ => wifi_name(connections.drop_first()),
        }
    }
}

/// What of a report is shown.
pub open spec fn update_of(snapshot: NetworkSnapshot) -> UpdateView {
    UpdateView {
        wifi_enabled: snapshot.wifi_enabled,
        connectivity: connectivity_name(snapshot.connectivity),
        connection_name: wifi_name(snapshot.active_connections@),
    }
}

fn first_wifi(connections: &Vec<ActiveConnection>) -> (r: Option<String>)
    ensures
        optional_text(r) == wifi_name(connections@),
{
    let mut i: usize = 0;
    assert(connections@.skip(0) =~= connections@);
    while i < connections.len()
        invariant
            i <= connections.len(),
            wifi_name(connections@) == wifi_name(connections@.skip(i as int)),
        decreases connections.len() - i,
    {
        match &connections[i] {
            ActiveConnection::Wifi { ssid } => {
                return Some(ssid.clone());
            },
            _ => {},
        }
        assert(connections@.skip(i as int).drop_first() =~= connections@.skip(i + 1));
        i = i + 1;
    }
    None
}

/// What of a report is shown.
pub fn network_update(snapshot: &NetworkSnapshot) -> (r: NetworkUpdate)
    ensures
        r@ == update_of(*snapshot),
{
    NetworkUpdate {
        wifi_enabled: snapshot.wifi_enabled,
        connectivity: connectivity_text(snapshot.connectivity),
        connection_name: first_wifi(&snapshot.active_connections),
    }
}

impl NetworkView {
    /// What is known before anything was reported.
    pub open spec fn initial() -> NetworkView {
        NetworkView { wifi_enabled: None, connectivity: None, connection_name: None }
    }

    /// What is known after a report.
    pub open spec fn reported(update: UpdateView) -> NetworkView {
        NetworkView {
            wifi_enabled: Some(update.wifi_enabled),
            connectivity: Some(update.connectivity),
            connection_name: update.connection_name,
        }
    }

    /// What the connection is called: by the name of its network, else by its
    /// connectivity.
    pub open spec fn description(self, unavailable: Seq<char>) -> Seq<char> {
        match self.connection_name {
            Some(name) => name,
            None => match self.connectivity {
                Some(connectivity) => connectivity,
                None => unavailable,
            },
        }
    }

    /// The line under the network's title.
    pub open spec fn caption(self, unavailable: Seq<char>, disabled: Seq<char>) -> Seq<char> {
        if self.wifi_enabled == Some(false) {
            self.description(unavailable) + " \u{b7} "@ + disabled
        } else {
            self.description(unavailable)
        }
    }
}

impl NetworkState {
    /// What is known before anything was reported.
    pub fn new() -> (r: NetworkState)
        ensures
            r@ == NetworkView::initial(),
    {
        NetworkState { wifi_enabled: None, connectivity: None, connection_name: None }
    }

    /// What is known after a report.
    pub fn reported(update: NetworkUpdate) -> (r: NetworkState)
        ensures
            r@ == NetworkView::reported(update@),
    {
        NetworkState {
            wifi_enabled: Some(update.wifi_enabled),
            connectivity: Some(update.connectivity),
            connection_name: update.connection_name,
        }
    }

    /// The line under the network's title.
    pub fn caption(&self, labels: &Labels) -> (r: String)
        ensures
            r@ == self@.caption(labels.unavailable@, labels.disabled@),
    {
        let mut r = match &self.connection_name {
            Some(name) => name.clone(),
            None => match &self.connectivity {
                Some(connectivity) => connectivity.clone(),
                None => labels.unavailable.clone(),
            },
        };
        match self.wifi_enabled {
            Some(enabled) => {
                if !enabled {
                    r.append(" \u{b7} ");
                    r.append(labels.disabled.as_str());
                }
            },
            None => {},
        }
        r
    }
}

/// The name that is shown is that of the first Wi-Fi network, and there is one wherever
/// there is a Wi-Fi network.
pub proof fn wifi_name_is_the_first(connections: Seq<ActiveConnection>)
    ensures
        match wifi_name(connections) {
            Some(name) => exists|i: int|
                0 <= i < connections.len() && (#[trigger] connections[i] matches
                    ActiveConnection::Wifi { ssid } && ssid@ == name) && forall|j: int|
                    0 <= j < i ==> #[trigger] connections[j] !is Wifi,
            None => forall|j: int|
                0 <= j < connections.len() ==> #[trigger] connections[j] !is Wifi,
        },
    decreases connections.len(),
{
    if connections.len() > 0 && connections[0] !is Wifi {
        let rest = connections.drop_first();
        wifi_name_is_the_first(rest);
        match wifi_name(rest) {
            Some(name) => {
                let i = choose|i: int|
                    0 <= i < rest.len() && (#[trigger] rest[i] matches ActiveConnection::Wifi {
                        ssid,
                    } && ssid@ == name) && forall|j: int|
                        0 <= j < i ==> #[trigger] rest[j] !is Wifi;
                assert(connections[i + 1] == rest[i]);
                assert forall|j: int| 0 <= j < i + 1 implies #[trigger] connections[j]
                    !is Wifi by {
                    if j > 0 {
                        assert(connections[j] == rest[j - 1]);
                    }
                }
            },
            None => {
                assert forall|j: int| 0 <= j < connections.len() implies #[trigger] connections[j]
                    !is Wifi by {
                    if j > 0 {
                        assert(connections[j] == rest[j - 1]);
                    }
                }
            },
        }
    }
}

/// Each number of the network manager has its own name, and every other number is that of
/// the unknown state.
pub proof fn connectivity_is_named(code: u32)
    ensures
        connectivity_name(0) == "Unknown"@,
        connectivity_name(1) == "None"@,
        connectivity_name(2) == "Portal"@,
        connectivity_name(3) == "Limited"@,
        connectivity_name(4) == "Full"@,
        code > 4 ==> connectivity_name(code) == connectivity_name(0),
{
}

/// What is shown of a report is whether the radio is on, the state by its name, and the
/// name of the Wi-Fi network.
pub proof fn report_is_summed_up(snapshot: NetworkSnapshot)
    ensures
        update_of(snapshot).wifi_enabled == snapshot.wifi_enabled,
        update_of(snapshot).connectivity == connectivity_name(snapshot.connectivity),
        update_of(snapshot).connection_name == wifi_name(snapshot.active_connections@),
{
}

/// The line under the title is the network's name where there is one, else its state, and
/// else that it is not available; that the radio is off is added just where that is known.
pub proof fn caption_tells_name_or_state(
    network: NetworkView,
    unavailable: Seq<char>,
    disabled: Seq<char>,
)
    ensures
        ({
            let off = (NetworkView { wifi_enabled: Some(false), ..network }).caption(
                unavailable,
                disabled,
            );
            let on = (NetworkView { wifi_enabled: Some(true), ..network }).caption(
                unavailable,
                disabled,
            );
            let unknown = (NetworkView { wifi_enabled: None, ..network }).caption(
                unavailable,
                disabled,
            );
            &&& off == on + " \u{b7} "@ + disabled
            &&& unknown == on
            &&& network.connection_name matches Some(name) ==> on == name
            &&& network.connection_name is None ==> (network.connectivity matches Some(state)
                ==> on == state)
            &&& network.connection_name is None && network.connectivity is None ==> on
                == unavailable
        }),
{
}

/// What is known after a report is just what was reported, whatever was known before.
pub proof fn report_is_known(update: NetworkUpdate, state: NetworkState)
    ensures
        NetworkView::reported(update@).wifi_enabled == Some(update.wifi_enabled),
        NetworkView::reported(update@).connectivity == Some(update.connectivity@),
        update.connection_name matches Some(name) ==> NetworkView::reported(
            update@,
        ).connection_name == Some(name@),
        update.connection_name is None ==> NetworkView::reported(update@).connection_name is None,
        state@.wifi_enabled == state.wifi_enabled,
        state.connectivity matches Some(text) ==> state@.connectivity == Some(text@),
        state.connectivity is None ==> state@.connectivity is None,
        state.connection_name matches Some(text) ==> state@.connection_name == Some(text@),
        state.connection_name is None ==> state@.connection_name is None,
{
}

/// The view of what is shown of a report holds its parts as they are.
pub proof fn update_view_is_faithful(update: NetworkUpdate)
    ensures
        update@.wifi_enabled == update.wifi_enabled,
        update@.connectivity == update.connectivity@,
        update.connection_name matches Some(name) ==> update@.connection_name == Some(name@),
        update.connection_name is None ==> update@.connection_name is None,
{
}

} // verus!
