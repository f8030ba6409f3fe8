//! Audio: the volume and the mute switch of the default output.

use std::collections::HashMap;

use vstd::prelude::*;

verus! {

broadcast use vstd::std_specs::hash::group_hash_axioms;

/// How long a volume waits before it is sent, so that of the volumes that a moving
/// slider passes over only the last one is.
pub const VOLUME_DELAY_MILLIS: u64 = 128;

/// Where sending a volume stands.
#[derive(Clone, Copy, Debug, PartialEq, Eq, Structural)]
pub enum VolumeStep {
    /// Wait for `VOLUME_DELAY_MILLIS`.
    Wait,
    /// Send this volume.
    Send(u32),
    /// Return the client.
    Return,
}

impl VolumeStep {
    /// The step that comes next, where `pending` is the volume that was asked for last.
    pub open spec fn following(self, pending: u32) -> VolumeStep {
        match self {
            VolumeStep::Wait => VolumeStep::Send(pending),
            VolumeStep::Send(_) | VolumeStep::Return => VolumeStep::Return,
        }
    }

    /// The step that comes next, where `pending` is the volume that was asked for last.
    /// The client is returned whether or not the volume was taken.
    pub fn next(self, pending: u32) -> (r: VolumeStep)
        ensures
            r == self.following(pending),
    {
        match self {
            VolumeStep::Wait => VolumeStep::Send(pending),
            VolumeStep::Send(_) | VolumeStep::Return => VolumeStep::Return,
        }
    }
}

/// A report of the audio server. `Other` stands for the reports that change
/// nothing here.
#[derive(Clone, Copy, Debug, PartialEq, Eq, Structural)]
pub enum AudioEvent {
    NodeVolume(u32, u32),
    NodeMute(u32, bool),
    DefaultSink(u32),
    Other,
}

/// What is known of the audio server. The client, by which the server is told what
/// to do, is held by a number; it is away while it is in use.
#[derive(Debug)]
pub struct AudioState {
    pub client: Option<u64>,
    pub default_sink: Option<u32>,
    pub volume: u32,
    pub mute: bool,
    /// Volume and mute switch of each node that was reported on.
    pub nodes: HashMap<u32, (u32, bool)>,
    /// The volume that was asked for last.
    pub pending_volume: u32,
}

/// An [`AudioState`] with its nodes as a map.
#[verifier::ext_equal]
pub struct AudioView {
    pub client: Option<u64>,
    pub default_sink: Option<u32>,
    pub volume: u32,
    pub mute: bool,
    pub nodes: Map<u32, (u32, bool)>,
    pub pending_volume: u32,
}

impl View for AudioState {
    type V = AudioView;

    open spec fn view(&self) -> AudioView {
        AudioView {
            client: self.client,
            default_sink: self.default_sink,
            volume: self.volume,
            mute: self.mute,
            nodes: self.nodes@,
            pending_volume: self.pending_volume,
        }
    }
}

/// A volume as it is shown: at most 100.
pub open spec fn shown(volume: u32) -> u32 {
    if volume > 100 {
        100
    } else {
        volume
    }
}

impl AudioView {
    /// What is known before anything was reported.
    pub open spec fn initial() -> AudioView {
        AudioView {
            client: None,
            default_sink: None,
            volume: 0,
            mute: false,
            nodes: Map::empty(),
            pending_volume: 0,
        }
    }

    /// What was reported on a node; silent and not muted where nothing was.
    pub open spec fn node(self, id: u32) -> (u32, bool) {
        if self.nodes.contains_key(id) {
            self.nodes[id]
        } else {
            (0, false)
        }
    }

    /// What is known after a report.
    pub open spec fn after(self, event: AudioEvent) -> AudioView {
        match event {
            AudioEvent::NodeVolume(id, volume) => AudioView {
                nodes: self.nodes.insert(id, (volume, self.node(id).1)),
                volume: if self.default_sink == Some(id) {
                    shown(volume)
                } else {
                    self.volume
                },
                ..self
            },
            AudioEvent::NodeMute(id, mute) => AudioView {
                nodes: self.nodes.insert(id, (self.node(id).0, mute)),
                mute: if self.default_sink == Some(id) {
                    mute
                } else {
                    self.mute
                },
                ..self
            },
            AudioEvent::DefaultSink(id) => if self.nodes.contains_key(id) {
                AudioView {
                    default_sink: Some(id),
                    volume: shown(self.nodes[id].0),
                    mute: self.nodes[id].1,
                    ..self
                }
            } else {
                AudioView { default_sink: Some(id), ..self }
            },
            AudioEvent::Other => self,
        }
    }

    /// Whether the output can be controlled.
    pub open spec fn is_available(self) -> bool {
        self.client is Some && self.default_sink is Some
    }
}

fn at_most_100(volume: u32) -> (r: u32)
    ensures
        r == shown(volume),
{
    if volume > 100 {
        100
    } else {
        volume
    }
}

impl AudioState {
    /// What is known before anything was reported.
    pub fn new() -> (r: AudioState)
        ensures
            r@ == AudioView::initial(),
    {
        AudioState {
            client: None,
            default_sink: None,
            volume: 0,
            mute: false,
            nodes: HashMap::new(),
            pending_volume: 0,
        }
    }

    fn node(&self, id: u32) -> (r: (u32, bool))
        ensures
            r == self@.node(id),
    {
        match self.nodes.get(&id) {
            Some(node) => *node,
            None => (0, false),
        }
    }

    fn is_default(&self, id: u32) -> (r: bool)
        ensures
            r == (self.default_sink == Some(id)),
    {
        match self.default_sink {
            Some(sink) => sink == id,
            None => false,
        }
    }

    /// Takes in a report.
    pub fn apply(&mut self, event: AudioEvent)
        ensures
            final(self)@ == old(self)@.after(event),
    {
        match event {
            AudioEvent::NodeVolume(id, volume) => {
                let node: (u32, bool) = self.node(id);
                self.nodes.insert(id, (volume, node.1));
                if self.is_default(id) {
                    self.volume = at_most_100(volume);
                }
            },
            AudioEvent::NodeMute(id, mute) => {
                let node: (u32, bool) = self.node(id);
                self.nodes.insert(id, (node.0, mute));
                if self.is_default(id) {
                    self.mute = mute;
                }
            },
            AudioEvent::DefaultSink(id) => {
                self.default_sink = Some(id);
                match self.nodes.get(&id) {
                    Some(node) => {
                        let (volume, mute) = *node;
                        self.volume = at_most_100(volume);
                        self.mute = mute;
                    },
                    None => {},
                }
            },
            AudioEvent::Other => {},
        }
    }

    /// Whether the output can be controlled.
    pub fn available(&self) -> (r: bool)
        ensures
            r == self@.is_available(),
    {
        self.client.is_some() && self.default_sink.is_some()
    }
}

/// No report lets the volume that is shown grow past 100.
pub proof fn reports_keep_volume_in_range(state: AudioView, event: AudioEvent)
    requires
        state.volume <= 100,
    ensures
        state.after(event).volume <= 100,
{
}

/// Once volume and mute switch of a node were reported, in whichever order, making
/// it the default output shows both.
pub proof fn default_sink_shows_what_was_reported(
    state: AudioView,
    id: u32,
    volume: u32,
    mute: bool,
)
    ensures
        ({
            let volume_first = state.after(AudioEvent::NodeVolume(id, volume)).after(
                AudioEvent::NodeMute(id, mute),
            );
            let mute_first = state.after(AudioEvent::NodeMute(id, mute)).after(
                AudioEvent::NodeVolume(id, volume),
            );
            let switched = volume_first.after(AudioEvent::DefaultSink(id));
            &&& volume_first == mute_first
            &&& switched.default_sink == Some(id)
            &&& switched.volume == shown(volume)
            &&& switched.mute == mute
        }),
{
    assert(state.after(AudioEvent::NodeVolume(id, volume)).after(
        AudioEvent::NodeMute(id, mute),
    ).nodes =~= state.after(AudioEvent::NodeMute(id, mute)).after(
        AudioEvent::NodeVolume(id, volume),
    ).nodes);
}

/// A report on a node that is not the default output changes nothing that is shown.
pub proof fn other_nodes_are_not_shown(state: AudioView, id: u32, volume: u32, mute: bool)
    requires
        state.default_sink != Some(id),
    ensures
        state.after(AudioEvent::NodeVolume(id, volume)) == (AudioView {
            nodes: state.after(AudioEvent::NodeVolume(id, volume)).nodes,
            ..state
        }),
        state.after(AudioEvent::NodeMute(id, mute)) == (AudioView {
            nodes: state.after(AudioEvent::NodeMute(id, mute)).nodes,
            ..state
        }),
{
}

/// No report takes the client away, brings one, or changes the volume that was
/// asked for.
pub proof fn reports_keep_client_and_request(state: AudioView, event: AudioEvent)
    ensures
        state.after(event).client == state.client,
        state.after(event).pending_volume == state.pending_volume,
{
}

/// A volume is shown as it is up to 100, and every greater one as 100.
pub proof fn volume_is_capped(volume: u32)
    ensures
        shown(volume) <= volume,
        volume <= 100 ==> shown(volume) == volume,
        volume >= 100 ==> shown(volume) == 100,
{
}

/// A report on a node is kept with that node and leaves every other node as it was.
pub proof fn reports_touch_one_node(
    state: AudioView,
    id: u32,
    volume: u32,
    mute: bool,
    other: u32,
)
    ensures
        ({
            let louder = state.after(AudioEvent::NodeVolume(id, volume)).nodes;
            let muted = state.after(AudioEvent::NodeMute(id, mute)).nodes;
            let known = state.nodes.contains_key(id);
            &&& louder.contains_key(id)
            &&& louder[id].0 == volume
            &&& louder[id].1 == (known && state.nodes[id].1)
            &&& muted.contains_key(id)
            &&& muted[id].1 == mute
            &&& known ==> muted[id].0 == state.nodes[id].0
            &&& !known ==> muted[id].0 == 0
            &&& other != id ==> {
                &&& louder.contains_key(other) <==> state.nodes.contains_key(other)
                &&& muted.contains_key(other) <==> state.nodes.contains_key(other)
                &&& state.nodes.contains_key(other) ==> louder[other] == state.nodes[other]
                    && muted[other] == state.nodes[other]
            }
        }),
{
}

/// What is reported on the default output is shown at once, each of volume and mute switch
/// without the other.
pub proof fn default_sink_is_followed(state: AudioView, id: u32, volume: u32, mute: bool)
    requires
        state.default_sink == Some(id),
    ensures
        ({
            let louder = state.after(AudioEvent::NodeVolume(id, volume));
            let muted = state.after(AudioEvent::NodeMute(id, mute));
            &&& volume <= 100 ==> louder.volume == volume
            &&& volume > 100 ==> louder.volume == 100
            &&& louder.mute == state.mute
            &&& muted.mute == mute
            &&& muted.volume == state.volume
            &&& louder.default_sink == Some(id)
            &&& muted.default_sink == Some(id)
        }),
{
}

/// A new default output changes nothing that is known of the nodes. One that nothing was
/// reported on leaves what is shown; other reports change nothing at all.
pub proof fn new_default_keeps_the_nodes(state: AudioView, id: u32)
    ensures
        ({
            let switched = state.after(AudioEvent::DefaultSink(id));
            &&& switched.default_sink == Some(id)
            &&& switched.nodes == state.nodes
            &&& !state.nodes.contains_key(id) ==> switched.volume == state.volume
                && switched.mute == state.mute
        }),
        state.after(AudioEvent::Other) == state,
{
}

/// What is known after the reports, in their order.
pub open spec fn after_all(state: AudioView, events: Seq<AudioEvent>) -> AudioView
    decreases events.len(),
{
    if events.len() == 0 {
        state
    } else {
        after_all(state, events.drop_last()).after(events.last())
    }
}

/// Whether a report is on the node.
pub open spec fn is_about(event: AudioEvent, id: u32) -> bool {
    match event {
        AudioEvent::NodeVolume(node, _) => node == id,
        AudioEvent::NodeMute(node, _) => node == id,
        _ => false,
    }
}

/// Whether any of the reports is on the node.
pub open spec fn heard_of(events: Seq<AudioEvent>, id: u32) -> bool {
    exists|i: int| 0 <= i < events.len() && is_about(#[trigger] events[i], id)
}

/// The volume that was reported last on the node, or 0.
pub open spec fn last_volume_of(events: Seq<AudioEvent>, id: u32) -> u32
    decreases events.len(),
{
    if events.len() == 0 {
        0
    } else {
        match events.last() {
            AudioEvent::NodeVolume(node, volume) if node == id => volume,
            _ => last_volume_of(events.drop_last(), id),
        }
    }
}

/// The mute switch that was reported last on the node, or off.
pub open spec fn last_mute_of(events: Seq<AudioEvent>, id: u32) -> bool
    decreases events.len(),
{
    if events.len() == 0 {
        false
    } else {
        match events.last() {
            AudioEvent::NodeMute(node, mute) if node == id => mute,
            _ => last_mute_of(events.drop_last(), id),
        }
    }
}

/// After any reports, making a node the default output shows what was reported on it last,
/// whatever was reported on other nodes in between; a node that was not reported on
/// leaves what is shown.
pub proof fn default_sink_shows_the_last_report(events: Seq<AudioEvent>, id: u32)
    ensures
        ({
            let before = after_all(AudioView::initial(), events);
            let switched = before.after(AudioEvent::DefaultSink(id));
            let volume = last_volume_of(events, id);
            &&& switched.default_sink == Some(id)
            &&& heard_of(events, id) ==> switched.mute == last_mute_of(events, id)
            &&& heard_of(events, id) && volume <= 100 ==> switched.volume == volume
            &&& heard_of(events, id) && volume > 100 ==> switched.volume == 100
            &&& !heard_of(events, id) ==> switched.volume == before.volume && switched.mute
                == before.mute
        }),
{
    lemma_nodes_hold_the_last(events, id);
}

proof fn lemma_nodes_hold_the_last(events: Seq<AudioEvent>, id: u32)
    ensures
        ({
            let nodes = after_all(AudioView::initial(), events).nodes;
            &&& nodes.contains_key(id) <==> heard_of(events, id)
            &&& nodes.contains_key(id) ==> nodes[id] == (
                last_volume_of(events, id),
                last_mute_of(events, id),
            )
            &&& !nodes.contains_key(id) ==> last_volume_of(events, id) == 0 && !last_mute_of(
                events,
                id,
            )
        }),
    decreases events.len(),
{
    if events.len() > 0 {
        let before = events.drop_last();
        let last = events.last();
        lemma_nodes_hold_the_last(before, id);
        assert(heard_of(events, id) <==> heard_of(before, id) || is_about(last, id)) by {
            if heard_of(before, id) {
                let i = choose|i: int| 0 <= i < before.len() && is_about(
                    #[trigger] before[i],
                    id,
                );
                assert(is_about(events[i], id));
            }
            if is_about(last, id) {
                assert(is_about(events[events.len() - 1], id));
            }
            if heard_of(events, id) && !is_about(last, id) {
                let i = choose|i: int| 0 <= i < events.len() && is_about(
                    #[trigger] events[i],
                    id,
                );
                assert(is_about(before[i], id));
            }
        }
    }
}

/// The output can be controlled just where there is a client and a default output.
pub proof fn control_needs_client_and_sink(state: AudioView, client: u64, id: u32)
    ensures
        (AudioView { client: None, ..state }).is_available() == false,
        (AudioView { default_sink: None, ..state }).is_available() == false,
        (AudioView {
            client: Some(client),
            default_sink: Some(id),
            ..state
        }).is_available(),
{
}

/// A volume waits, is sent as the one that is asked for by then, and then the client is
/// returned for good.
pub proof fn volume_is_sent_once(pending: u32, later: u32)
    ensures
        VolumeStep::Wait.following(pending) == VolumeStep::Send(pending),
        VolumeStep::Send(pending).following(later) == VolumeStep::Return,
        VolumeStep::Return.following(later) == VolumeStep::Return,
{
}

} // verus!
