//! How the services are followed: which step comes next, and what is passed on.
//!
//! Each service is followed for as long as the program runs. A step is an
//! exchange with the service. It was answered, or it failed; a wait for the next
//! report fails where there will be none. From that the next step follows.

use vstd::prelude::*;

use crate::network::{network_update, update_of, NetworkSnapshot, NetworkUpdate, UpdateView};

verus! {

/// How long a service that was not reached is left alone.
pub const RETRY_SECONDS: u64 = 3;

/// The power of the Bluetooth adapter.
#[derive(Clone, Copy, Debug, PartialEq, Eq, Structural)]
pub struct BluetoothUpdate(pub bool);

/// What the services are followed for.
#[derive(Clone, Copy, Debug, PartialEq, Eq, Structural)]
pub enum Feed {
    Network,
    Bluetooth,
    Audio,
    Battery,
    ActivationToken,
    /// The settings daemon, on the connection with this number.
    SettingsDaemon(u64),
}

/// A step of following the network manager.
#[derive(Clone, Copy, Debug, PartialEq, Eq, Structural)]
pub enum NetworkStep {
    Connect,
    /// Read the state on connecting.
    FirstSnapshot,
    OpenEvents,
    AwaitEvent,
    /// Read the state after an event.
    Snapshot,
    /// Leave the service alone for `RETRY_SECONDS`.
    Pause,
}

impl NetworkStep {
    /// The step that comes next.
    pub open spec fn following(self, answered: bool) -> NetworkStep {
        match self {
            NetworkStep::Connect => if answered {
                NetworkStep::FirstSnapshot
            } else {
                NetworkStep::Pause
            },
            NetworkStep::FirstSnapshot => NetworkStep::OpenEvents,
            NetworkStep::OpenEvents => if answered {
                NetworkStep::AwaitEvent
            } else {
                NetworkStep::Pause
            },
            NetworkStep::AwaitEvent => if answered {
                NetworkStep::Snapshot
            } else {
                NetworkStep::Connect
            },
            NetworkStep::Snapshot => NetworkStep::AwaitEvent,
            NetworkStep::Pause => NetworkStep::Connect,
        }
    }

    /// The step that comes next.
    pub fn next(self, answered: bool) -> (r: NetworkStep)
        ensures
            r == self.following(answered),
    {
        match self {
            NetworkStep::Connect => if answered {
                NetworkStep::FirstSnapshot
            } else {
                NetworkStep::Pause
            },
            NetworkStep::FirstSnapshot => NetworkStep::OpenEvents,
            NetworkStep::OpenEvents => if answered {
                NetworkStep::AwaitEvent
            } else {
                NetworkStep::Pause
            },
            NetworkStep::AwaitEvent => if answered {
                NetworkStep::Snapshot
            } else {
                NetworkStep::Connect
            },
            NetworkStep::Snapshot => NetworkStep::AwaitEvent,
            NetworkStep::Pause => NetworkStep::Connect,
        }
    }

    /// Whether the network's state is read in this step.
    pub open spec fn reads_state(self) -> bool {
        self == NetworkStep::FirstSnapshot || self == NetworkStep::Snapshot
    }

    /// What is passed on after this step, which brought `snapshot`.
    pub open spec fn passed_on(self, snapshot: Option<NetworkSnapshot>) -> Option<UpdateView> {
        match snapshot {
            Some(snapshot) => if self.reads_state() {
                Some(update_of(snapshot))
            } else {
                None
            },
            None => None,
        }
    }

    /// What is passed on after this step, which brought `snapshot`.
    pub fn report(self, snapshot: &Option<NetworkSnapshot>) -> (r: Option<NetworkUpdate>)
        ensures
            match r {
                Some(update) => {
                    &&& self.reads_state()
                    &&& snapshot matches Some(snapshot)
                    &&& update@ == update_of(*snapshot)
                },
                None => !self.reads_state() || snapshot is None,
            },
            self.passed_on(*snapshot) == match r {
                Some(update) => Some(update@),
                None => None,
            },
    {
        match self {
            NetworkStep::FirstSnapshot | NetworkStep::Snapshot => match snapshot {
                Some(snapshot) => Some(network_update(snapshot)),
                None => None,
            },
            _ => None,
        }
    }
}

/// A step of following the Bluetooth adapter.
#[derive(Clone, Copy, Debug, PartialEq, Eq, Structural)]
pub enum BluetoothStep {
    OpenSession,
    OpenAdapter,
    ReadPower,
    OpenEvents,
    AwaitChange,
    /// Leave the service alone for `RETRY_SECONDS`.
    Pause,
}

/// What a step brought of the adapter's power.
#[derive(Clone, Copy, Debug, PartialEq, Eq, Structural)]
pub enum AdapterReply {
    /// The adapter is powered, or is not.
    Powered(bool),
    /// A change of something else, or no change at all.
    Other,
}

impl BluetoothStep {
    /// The step that comes next.
    pub open spec fn following(self, answered: bool) -> BluetoothStep {
        match self {
            BluetoothStep::OpenSession => if answered {
                BluetoothStep::OpenAdapter
            } else {
                BluetoothStep::Pause
            },
            BluetoothStep::OpenAdapter => if answered {
                BluetoothStep::ReadPower
            } else {
                BluetoothStep::Pause
            },
            BluetoothStep::ReadPower => BluetoothStep::OpenEvents,
            BluetoothStep::OpenEvents => if answered {
                BluetoothStep::AwaitChange
            } else {
                BluetoothStep::Pause
            },
            BluetoothStep::AwaitChange => if answered {
                BluetoothStep::AwaitChange
            } else {
                BluetoothStep::OpenSession
            },
            BluetoothStep::Pause => BluetoothStep::OpenSession,
        }
    }

    /// The step that comes next.
    pub fn next(self, answered: bool) -> (r: BluetoothStep)
        ensures
            r == self.following(answered),
    {
        match self {
            BluetoothStep::OpenSession => if answered {
                BluetoothStep::OpenAdapter
            } else {
                BluetoothStep::Pause
            },
            BluetoothStep::OpenAdapter => if answered {
                BluetoothStep::ReadPower
            } else {
                BluetoothStep::Pause
            },
            BluetoothStep::ReadPower => BluetoothStep::OpenEvents,
            BluetoothStep::OpenEvents => if answered {
                BluetoothStep::AwaitChange
            } else {
                BluetoothStep::Pause
            },
            BluetoothStep::AwaitChange => if answered {
                BluetoothStep::AwaitChange
            } else {
                BluetoothStep::OpenSession
            },
            BluetoothStep::Pause => BluetoothStep::OpenSession,
        }
    }

    /// What is passed on after a step. An adapter that does not tell its power when
    /// it is read counts as switched off.
    pub open spec fn passed_on(self, reply: AdapterReply) -> Option<BluetoothUpdate> {
        match (self, reply) {
            (BluetoothStep::ReadPower, AdapterReply::Powered(powered)) => Some(
                BluetoothUpdate(powered),
            ),
            (BluetoothStep::ReadPower, AdapterReply::Other) => Some(BluetoothUpdate(false)),
            (BluetoothStep::AwaitChange, AdapterReply::Powered(powered)) => Some(
                BluetoothUpdate(powered),
            ),
            _ => None,
        }
    }

    /// What is passed on after a step.
    pub fn report(self, reply: AdapterReply) -> (r: Option<BluetoothUpdate>)
        ensures
            r == self.passed_on(reply),
    {
        match (self, reply) {
            (BluetoothStep::ReadPower, AdapterReply::Powered(powered)) => Some(
                BluetoothUpdate(powered),
            ),
            (BluetoothStep::ReadPower, AdapterReply::Other) => Some(BluetoothUpdate(false)),
            (BluetoothStep::AwaitChange, AdapterReply::Powered(powered)) => Some(
                BluetoothUpdate(powered),
            ),
            _ => None,
        }
    }
}

/// A step of following the audio server.
#[derive(Clone, Copy, Debug, PartialEq, Eq, Structural)]
pub enum AudioStep {
    Connect,
    OpenEvents,
    AwaitEvent,
    /// Leave the service alone for `RETRY_SECONDS`.
    Pause,
}

/// What is passed on after a step of following the audio server.
#[derive(Clone, Copy, Debug, PartialEq, Eq, Structural)]
pub enum AudioReport {
    Nothing,
    /// The client that was connected.
    Client,
    /// The event that came.
    Event,
}

impl AudioStep {
    /// The step that comes next.
    pub open spec fn following(self, answered: bool) -> AudioStep {
        match self {
            AudioStep::Connect => if answered {
                AudioStep::OpenEvents
            } else {
                AudioStep::Pause
            },
            AudioStep::OpenEvents => if answered {
                AudioStep::AwaitEvent
            } else {
                AudioStep::Pause
            },
            AudioStep::AwaitEvent => if answered {
                AudioStep::AwaitEvent
            } else {
                AudioStep::Connect
            },
            AudioStep::Pause => AudioStep::Connect,
        }
    }

    /// The step that comes next.
    pub fn next(self, answered: bool) -> (r: AudioStep)
        ensures
            r == self.following(answered),
    {
        match self {
            AudioStep::Connect => if answered {
                AudioStep::OpenEvents
            } else {
                AudioStep::Pause
            },
            AudioStep::OpenEvents => if answered {
                AudioStep::AwaitEvent
            } else {
                AudioStep::Pause
            },
            AudioStep::AwaitEvent => if answered {
                AudioStep::AwaitEvent
            } else {
                AudioStep::Connect
            },
            AudioStep::Pause => AudioStep::Connect,
        }
    }

    /// What is passed on after a step.
    pub open spec fn passed_on(self, answered: bool) -> AudioReport {
        if self == AudioStep::OpenEvents && answered {
            AudioReport::Client
        } else if self == AudioStep::AwaitEvent && answered {
            AudioReport::Event
        } else {
            AudioReport::Nothing
        }
    }

    /// What is passed on after a step.
    pub fn report(self, answered: bool) -> (r: AudioReport)
        ensures
            r == self.passed_on(answered),
    {
        match self {
            AudioStep::OpenEvents => if answered {
                AudioReport::Client
            } else {
                AudioReport::Nothing
            },
            AudioStep::AwaitEvent => if answered {
                AudioReport::Event
            } else {
                AudioReport::Nothing
            },
            _ => AudioReport::Nothing,
        }
    }
}

/// A network manager that cannot be reached, or gives no events, is left alone for a
/// while and tried again; one whose events end is tried again at once.
pub proof fn network_is_tried_again(rested: bool)
    ensures
        NetworkStep::Connect.following(false) == NetworkStep::Pause,
        NetworkStep::OpenEvents.following(false) == NetworkStep::Pause,
        NetworkStep::Pause.following(rested) == NetworkStep::Connect,
        NetworkStep::AwaitEvent.following(false) == NetworkStep::Connect,
{
}

/// The network's state is read once on connecting and once after each event, and
/// the next event is awaited whether or not it could be read.
pub proof fn network_is_read_after_each_event(step: NetworkStep, answered: bool, read: bool)
    ensures
        step.following(answered).reads_state() <==> answered && (step == NetworkStep::Connect
            || step == NetworkStep::AwaitEvent),
        NetworkStep::FirstSnapshot.following(read) == NetworkStep::OpenEvents,
        NetworkStep::AwaitEvent.following(true).following(read) == NetworkStep::AwaitEvent,
{
}

/// A Bluetooth service that lacks a session, an adapter or events is left alone for a
/// while and tried again; one whose events end is tried again at once.
pub proof fn bluetooth_is_tried_again(rested: bool)
    ensures
        BluetoothStep::OpenSession.following(false) == BluetoothStep::Pause,
        BluetoothStep::OpenAdapter.following(false) == BluetoothStep::Pause,
        BluetoothStep::OpenEvents.following(false) == BluetoothStep::Pause,
        BluetoothStep::Pause.following(rested) == BluetoothStep::OpenSession,
        BluetoothStep::AwaitChange.following(false) == BluetoothStep::OpenSession,
{
}

/// The adapter's power is passed on whenever it is read, as off where it could not be
/// read, and with every change of it; other changes are not.
pub proof fn bluetooth_power_is_passed_on(reply: AdapterReply)
    ensures
        BluetoothStep::ReadPower.passed_on(reply) == Some(
            BluetoothUpdate(reply == AdapterReply::Powered(true)),
        ),
        BluetoothStep::AwaitChange.passed_on(reply) == match reply {
            AdapterReply::Powered(powered) => Some(BluetoothUpdate(powered)),
            AdapterReply::Other => None,
        },
{
}

/// An audio server that cannot be reached, or gives no events, is left alone for a
/// while and tried again; one whose events end is tried again at once.
pub proof fn audio_is_tried_again(rested: bool)
    ensures
        AudioStep::Connect.following(false) == AudioStep::Pause,
        AudioStep::OpenEvents.following(false) == AudioStep::Pause,
        AudioStep::Pause.following(rested) == AudioStep::Connect,
        AudioStep::AwaitEvent.following(false) == AudioStep::Connect,
{
}

/// A client is announced just before its events are awaited, so that every event that
/// is passed on comes behind the client that it belongs to.
pub proof fn audio_client_comes_before_its_events(step: AudioStep, answered: bool)
    ensures
        step.passed_on(answered) == AudioReport::Client <==> step != AudioStep::AwaitEvent
            && step.following(answered) == AudioStep::AwaitEvent,
        step.passed_on(answered) == AudioReport::Event ==> step == AudioStep::AwaitEvent,
{
}

/// Where everything is answered, the network's state is read on connecting, events are
/// opened, and from then on events and readings take turns without end.
pub proof fn answered_network_is_followed()
    ensures
        ({
            let first = NetworkStep::Connect.following(true);
            let opening = first.following(true);
            let waiting = opening.following(true);
            &&& first == NetworkStep::FirstSnapshot
            &&& opening == NetworkStep::OpenEvents
            &&& waiting == NetworkStep::AwaitEvent
            &&& waiting.following(true) == NetworkStep::Snapshot
            &&& waiting.following(true).following(true) == waiting
        }),
{
}

/// A snapshot that was read is passed on, summed up, and nothing else ever is.
pub proof fn network_readings_are_passed_on(step: NetworkStep, snapshot: NetworkSnapshot)
    ensures
        NetworkStep::FirstSnapshot.passed_on(Some(snapshot)) == Some(update_of(snapshot)),
        NetworkStep::Snapshot.passed_on(Some(snapshot)) == Some(update_of(snapshot)),
        step != NetworkStep::FirstSnapshot && step != NetworkStep::Snapshot ==> step.passed_on(
            Some(snapshot),
        ) is None,
        step.passed_on(None) is None,
{
}

/// Where everything is answered, a session, its adapter, the adapter's power and its changes
/// come one after the other, and from then on one change after the other is awaited. The
/// changes are opened even where the power could not be read.
pub proof fn answered_bluetooth_is_followed(read: bool)
    ensures
        BluetoothStep::OpenSession.following(true) == BluetoothStep::OpenAdapter,
        BluetoothStep::OpenAdapter.following(true) == BluetoothStep::ReadPower,
        BluetoothStep::ReadPower.following(read) == BluetoothStep::OpenEvents,
        BluetoothStep::OpenEvents.following(true) == BluetoothStep::AwaitChange,
        BluetoothStep::AwaitChange.following(true) == BluetoothStep::AwaitChange,
{
}

/// No other step passes anything on, and a power that is passed on is the one that came.
pub proof fn bluetooth_passes_on_what_came(step: BluetoothStep, powered: bool)
    ensures
        BluetoothStep::ReadPower.passed_on(AdapterReply::Powered(powered)) == Some(
            BluetoothUpdate(powered),
        ),
        BluetoothStep::AwaitChange.passed_on(AdapterReply::Powered(powered)) == Some(
            BluetoothUpdate(powered),
        ),
        BluetoothStep::ReadPower.passed_on(AdapterReply::Other) == Some(BluetoothUpdate(false)),
        BluetoothStep::AwaitChange.passed_on(AdapterReply::Other) is None,
        step != BluetoothStep::ReadPower && step != BluetoothStep::AwaitChange ==> step.passed_on(
            AdapterReply::Powered(powered),
        ) is None && step.passed_on(AdapterReply::Other) is None,
{
}

/// Where everything is answered, a client is connected, its events are opened, the client is
/// announced, and from then on every event is passed on as it comes. What failed passes
/// nothing on.
pub proof fn answered_audio_is_followed(step: AudioStep, answered: bool)
    ensures
        AudioStep::Connect.following(true) == AudioStep::OpenEvents,
        AudioStep::OpenEvents.following(true) == AudioStep::AwaitEvent,
        AudioStep::AwaitEvent.following(true) == AudioStep::AwaitEvent,
        AudioStep::OpenEvents.passed_on(true) == AudioReport::Client,
        AudioStep::AwaitEvent.passed_on(true) == AudioReport::Event,
        AudioStep::Connect.passed_on(answered) == AudioReport::Nothing,
        AudioStep::Pause.passed_on(answered) == AudioReport::Nothing,
        step.passed_on(false) == AudioReport::Nothing,
{
}

} // verus!
