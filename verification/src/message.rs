//! The messages that the control panel and the monitor exchange, and the state
//! of the monitored decks that the monitor publishes.
use vstd::prelude::*;
use crate::id_map::IdMap;

verus! {

/// A request that a control panel sends to the monitor.
#[derive(Debug)]
pub enum ClientRequest {
    AddHyperdeck(AddHyperdeckRequest),
    RemoveHyperdeck(RemoveHyperdeckRequest),
    StartRecording(StartRecordingRequest),
    StopRecording(StopRecordingRequest),
}

/// Start monitoring the deck reachable at `ip`:`port`, shown as `name`.
#[derive(Debug)]
pub struct AddHyperdeckRequest {
    pub name: String,
    pub ip: String,
    pub port: u16,
}

/// Stop monitoring the deck with id `id`.
#[derive(Debug)]
pub struct RemoveHyperdeckRequest {
    pub id: String,
}

/// Start recording on the deck with id `id`.
#[derive(Debug)]
pub struct StartRecordingRequest {
    pub id: String,
}

/// Stop recording on the deck with id `id`.
#[derive(Debug)]
pub struct StopRecordingRequest {
    pub id: String,
}

/// An event that the monitor pushes to every control panel.
#[derive(Debug)]
pub enum ServerEvent {
    HyperdeckMonitorState(HyperdeckMonitorState),
}

/// Every monitored deck, by id.
#[derive(Debug)]
pub struct HyperdeckMonitorState {
    pub hyperdecks: IdMap<HyperdeckState>,
}

/// What the monitor knows of one deck.
#[derive(Debug)]
pub struct HyperdeckState {
    pub name: String,
    pub ip: String,
    pub port: u16,
    pub connection_state: HyperdeckConnectionState,
    pub recording_status: RecordingState,
    /// The record bays that reported, by slot id; bays that did not report are absent.
    pub slots: IdMap<HyperdeckRecordBay>,
}

/// Whether the monitor holds a connection to a deck.
#[derive(Debug, Clone, Copy, PartialEq, Eq, Structural)]
pub enum HyperdeckConnectionState {
    Connected,
    Disconnected,
}

/// Whether a deck is recording.
#[derive(Debug, Clone, Copy, PartialEq, Eq, Structural)]
pub enum RecordingState {
    Recording,
    NotRecording,
}

/// One record bay of a deck.
#[derive(Debug, Clone, Copy, PartialEq, Eq, Structural)]
pub struct HyperdeckRecordBay {
    /// Recording time available in seconds.
    pub recording_time_remaining: u64,
}

/// The mathematical value of a `HyperdeckState`.
#[verifier::ext_equal]
pub struct HyperdeckStateView {
    pub name: Seq<char>,
    pub ip: Seq<char>,
    pub port: u16,
    pub connection_state: HyperdeckConnectionState,
    pub recording_status: RecordingState,
    pub slots: Map<Seq<char>, HyperdeckRecordBay>,
}

impl View for HyperdeckRecordBay {
    type V = HyperdeckRecordBay;

    open spec fn view(&self) -> HyperdeckRecordBay {
        *self
    }
}

impl View for HyperdeckState {
    type V = HyperdeckStateView;

    open spec fn view(&self) -> HyperdeckStateView {
        HyperdeckStateView {
            name: self.name@,
            ip: self.ip@,
            port: self.port,
            connection_state: self.connection_state,
            recording_status: self.recording_status,
            slots: self.slots@,
        }
    }
}

impl View for HyperdeckMonitorState {
    type V = Map<Seq<char>, HyperdeckStateView>;

    open spec fn view(&self) -> Map<Seq<char>, HyperdeckStateView> {
        self.hyperdecks@
    }
}

impl Default for HyperdeckMonitorState {
    /// The state in which no deck is monitored.
    fn default() -> (s: Self)
        ensures
            s@ == Map::<Seq<char>, HyperdeckStateView>::empty(),
    {
        HyperdeckMonitorState { hyperdecks: IdMap::new() }
    }
}

} // verus!
