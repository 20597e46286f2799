//! The monitor's state machine: how the state of the monitored decks follows
//! the events that the deck driver reports and the requests of control panels,
//! and which command each request hands to the deck driver.
use vstd::prelude::*;
use crate::message::{
    AddHyperdeckRequest, ClientRequest, HyperdeckConnectionState, HyperdeckMonitorState,
    HyperdeckState, HyperdeckStateView, RecordingState, RemoveHyperdeckRequest,
    StartRecordingRequest, StopRecordingRequest,
};
use crate::id_map::IdMap;

verus! {

/// A command for the deck driver process.
#[derive(Debug)]
pub enum NodeWsCommand {
    AddHyperdeck(AddHyperdeckCommand),
    RemoveHyperdeck(RemoveHyperdeckCommand),
}

/// Connect to the deck at `ip`:`port` and report on it under `id`.
#[derive(Debug)]
pub struct AddHyperdeckCommand {
    pub id: String,
    pub ip: String,
    pub port: u16,
}

/// Disconnect from the deck reported under `id`.
#[derive(Debug)]
pub struct RemoveHyperdeckCommand {
    pub id: String,
}

/// An event that the deck driver process reports.
#[derive(Debug)]
pub enum NodeWsMessageReceived {
    Log { message: String },
    HyperdeckConnected { id: String },
    HypderdeckDisconnected { id: String },
}

/// `h` with its connection state set to `c`, all else kept.
pub open spec fn with_connection(h: HyperdeckStateView, c: HyperdeckConnectionState) -> HyperdeckStateView {
    HyperdeckStateView { connection_state: c, ..h }
}

/// The decks `hs` with the connection state of deck `id` set to `c`; unchanged
/// where no deck has that id.
pub open spec fn set_connection(
    hs: Map<Seq<char>, HyperdeckStateView>,
    id: Seq<char>,
    c: HyperdeckConnectionState,
) -> Map<Seq<char>, HyperdeckStateView> {
    if hs.contains_key(id) {
        hs.insert(id, with_connection(hs[id], c))
    } else {
        hs
    }
}

/// The decks after the driver reported `msg`.
pub open spec fn after_node_message(
    hs: Map<Seq<char>, HyperdeckStateView>,
    msg: NodeWsMessageReceived,
) -> Map<Seq<char>, HyperdeckStateView> {
    match msg {
        NodeWsMessageReceived::Log { .. } => hs,
        NodeWsMessageReceived::HyperdeckConnected { id } => set_connection(
            hs,
            id@,
            HyperdeckConnectionState::Connected,
        ),
        NodeWsMessageReceived::HypderdeckDisconnected { id } => set_connection(
            hs,
            id@,
            HyperdeckConnectionState::Disconnected,
        ),
    }
}

/// Whether a driver report is one that the control panels are told about.
pub open spec fn node_message_publishes(msg: NodeWsMessageReceived) -> bool {
    !(msg is Log)
}

/// The deck that an add request creates: not yet connected, not recording, no bays.
pub open spec fn new_hyperdeck(req: AddHyperdeckRequest) -> HyperdeckStateView {
    HyperdeckStateView {
        name: req.name@,
        ip: req.ip@,
        port: req.port,
        connection_state: HyperdeckConnectionState::Disconnected,
        recording_status: RecordingState::NotRecording,
        slots: Map::empty(),
    }
}

/// The decks after the request `req`, where an added deck gets the id `new_id`.
pub open spec fn after_client_request(
    hs: Map<Seq<char>, HyperdeckStateView>,
    req: ClientRequest,
    new_id: Seq<char>,
) -> Map<Seq<char>, HyperdeckStateView> {
    match req {
        ClientRequest::AddHyperdeck(r) => hs.insert(new_id, new_hyperdeck(r)),
        ClientRequest::RemoveHyperdeck(r) => hs.remove(r.id@),
        _ => hs,
    }
}

/// Whether a request is one that the control panels are told about.
pub open spec fn client_request_publishes(req: ClientRequest) -> bool {
    req is AddHyperdeck || req is RemoveHyperdeck
}

/// `cmd` is the command that the request `req` hands to the driver, where an
/// added deck gets the id `new_id`.
pub open spec fn command_for_request(
    req: ClientRequest,
    new_id: Seq<char>,
    cmd: Option<NodeWsCommand>,
) -> bool {
    match req {
        ClientRequest::AddHyperdeck(r) => cmd matches Some(NodeWsCommand::AddHyperdeck(c)) && c.id@
            == new_id && c.ip@ == r.ip@ && c.port == r.port,
        ClientRequest::RemoveHyperdeck(r) => cmd matches Some(NodeWsCommand::RemoveHyperdeck(c))
            && c.id@ == r.id@,
        _ => cmd is None,
    }
}

/// The request `req` took the decks from `before` to `after` and handed `cmd`
/// to the driver, the added deck (if any) getting the id `new_id`.
pub open spec fn client_request_outcome(
    before: Map<Seq<char>, HyperdeckStateView>,
    req: ClientRequest,
    new_id: Seq<char>,
    after: Map<Seq<char>, HyperdeckStateView>,
    cmd: Option<NodeWsCommand>,
) -> bool {
    &&& after == after_client_request(before, req, new_id)
    &&& command_for_request(req, new_id, cmd)
}

/// A lower-case hexadecimal digit.
pub open spec fn is_lower_hex_digit(c: char) -> bool {
    ('0' <= c && c <= '9') || ('a' <= c && c <= 'f')
}

/// The hyphenated lower-case text of a random (version 4, RFC 4122 variant) UUID.
pub open spec fn is_random_uuid_text(s: Seq<char>) -> bool {
    &&& s.len() == 36
    &&& forall|i: int|
        0 <= i < 36 ==> (if i == 8 || i == 13 || i == 18 || i == 23 {
            #[trigger] s[i] == '-'
        } else {
            is_lower_hex_digit(s[i])
        })
    &&& s[14] == '4'
    &&& (s[19] == '8' || s[19] == '9' || s[19] == 'a' || s[19] == 'b')
}

/// A fresh id for a deck: calls `uuid::Uuid::new_v4` and formats the UUID with
/// its `Display` impl. Claimed: the text is that of a random UUID (36
/// characters, hyphens at 8, 13, 18 and 23, lower-case hex digits elsewhere,
/// version digit `4`, variant digit one of `8`, `9`, `a`, `b`). The value
/// itself comes from the operating system's random source and is not stated;
/// `new_v4` panics where that source fails.
#[verifier::external_body]
fn new_hyperdeck_id() -> (id: String)
    ensures
        is_random_uuid_text(id@),
{
    uuid::Uuid::new_v4().to_string()
}

/// Sets the connection state of deck `id` to `c`, if there is such a deck.
fn set_connection_state(state: &mut HyperdeckMonitorState, id: &String, c: HyperdeckConnectionState)
    ensures
        final(state)@ == set_connection(old(state)@, id@, c),
{
    match state.hyperdecks.remove(id) {
        Some(h) => {
            let HyperdeckState { name, ip, port, connection_state: _, recording_status, slots } = h;
            let updated = HyperdeckState { name, ip, port, connection_state: c, recording_status, slots };
            state.hyperdecks.insert(id.clone(), updated);
            proof {
                assert(updated@ == with_connection(old(state)@[id@], c));
                assert(old(state)@.remove(id@).insert(id@, updated@) =~= old(state)@.insert(
                    id@,
                    with_connection(old(state)@[id@], c),
                ));
            }
        },
        None => {
            assert(old(state)@.remove(id@) =~= old(state)@);
        },
    }
}

/// Applies a report of the deck driver to the state; returns whether the
/// control panels are to be sent the new state.
pub fn handle_message_from_node(msg: NodeWsMessageReceived, state: &mut HyperdeckMonitorState) -> (publish: bool)
    ensures
        final(state)@ == after_node_message(old(state)@, msg),
        publish == node_message_publishes(msg),
        publish == !(msg is Log),
{
    match msg {
        NodeWsMessageReceived::Log { message: _ } => false,
        NodeWsMessageReceived::HyperdeckConnected { id } => {
            set_connection_state(state, &id, HyperdeckConnectionState::Connected);
            true
        },
        NodeWsMessageReceived::HypderdeckDisconnected { id } => {
            set_connection_state(state, &id, HyperdeckConnectionState::Disconnected);
            true
        },
    }
}

/// Applies a control panel's request to the state, giving an added deck the id
/// `new_id`. Returns whether the control panels are to be sent the new state,
/// and the command for the deck driver, if any.
pub fn apply_client_request(
    req: ClientRequest,
    new_id: String,
    state: &mut HyperdeckMonitorState,
) -> (r: (bool, Option<NodeWsCommand>))
    ensures
        final(state)@ == after_client_request(old(state)@, req, new_id@),
        r.0 == client_request_publishes(req),
        r.0 == (req is AddHyperdeck || req is RemoveHyperdeck),
        command_for_request(req, new_id@, r.1),
{
    match req {
        ClientRequest::AddHyperdeck(AddHyperdeckRequest { name, ip, port }) => {
            let deck = HyperdeckState {
                name,
                ip: ip.clone(),
                port,
                connection_state: HyperdeckConnectionState::Disconnected,
                recording_status: RecordingState::NotRecording,
                slots: IdMap::new(),
            };
            proof {
                assert(deck@ =~= new_hyperdeck(AddHyperdeckRequest { name, ip, port }));
            }
            state.hyperdecks.insert(new_id.clone(), deck);
            let cmd = NodeWsCommand::AddHyperdeck(AddHyperdeckCommand { id: new_id, ip, port });
            (true, Some(cmd))
        },
        ClientRequest::RemoveHyperdeck(RemoveHyperdeckRequest { id }) => {
            let _ = state.hyperdecks.remove(&id);
            let cmd = NodeWsCommand::RemoveHyperdeck(RemoveHyperdeckCommand { id });
            (true, Some(cmd))
        },
        ClientRequest::StartRecording(_) => (false, None),
        ClientRequest::StopRecording(_) => (false, None),
    }
}

/// Applies a control panel's request to the state; an added deck gets a fresh
/// random id. Returns whether the control panels are to be sent the new state,
/// and the command for the deck driver, if any.
pub fn handle_message_from_client(req: ClientRequest, state: &mut HyperdeckMonitorState) -> (r: (
    bool,
    Option<NodeWsCommand>,
))
    ensures
        r.0 == client_request_publishes(req),
        r.0 == (req is AddHyperdeck || req is RemoveHyperdeck),
        exists|new_id: Seq<char>|
            #[trigger] client_request_outcome(old(state)@, req, new_id, final(state)@, r.1) && (
            req is AddHyperdeck ==> is_random_uuid_text(new_id)),
{
    match req {
        ClientRequest::AddHyperdeck(add) => {
            let new_id = new_hyperdeck_id();
            let ghost id_view = new_id@;
            let ghost req_copy = ClientRequest::AddHyperdeck(add);
            let r = apply_client_request(ClientRequest::AddHyperdeck(add), new_id, state);
            assert(client_request_outcome(old(state)@, req_copy, id_view, state@, r.1));
            r
        },
        other => {
            let ghost req_copy = other;
            let r = apply_client_request(other, String::new(), state);
            assert(client_request_outcome(old(state)@, req_copy, Seq::<char>::empty(), state@, r.1));
            r
        },
    }
}

// Laws of the state machine.

/// Removing a deck right after adding it under a fresh id gives back the
/// decks from before the add.
pub proof fn lemma_remove_undoes_add(
    hs: Map<Seq<char>, HyperdeckStateView>,
    add: AddHyperdeckRequest,
    new_id: Seq<char>,
    remove: RemoveHyperdeckRequest,
    unused_id: Seq<char>,
)
    requires
        !hs.contains_key(new_id),
        remove.id@ == new_id,
    ensures
        after_client_request(
            after_client_request(hs, ClientRequest::AddHyperdeck(add), new_id),
            ClientRequest::RemoveHyperdeck(remove),
            unused_id,
        ) == hs,
{
    assert(hs.insert(new_id, new_hyperdeck(add)).remove(new_id) =~= hs);
}

/// An added deck reads back with the name, address and port of the request,
/// not connected, not recording and with no record bays.
pub proof fn lemma_added_deck_reads_back(
    hs: Map<Seq<char>, HyperdeckStateView>,
    add: AddHyperdeckRequest,
    new_id: Seq<char>,
)
    ensures
        ({
            let after = after_client_request(hs, ClientRequest::AddHyperdeck(add), new_id);
            &&& after.contains_key(new_id)
            &&& after[new_id].name == add.name@
            &&& after[new_id].ip == add.ip@
            &&& after[new_id].port == add.port
            &&& after[new_id].connection_state == HyperdeckConnectionState::Disconnected
            &&& after[new_id].recording_status == RecordingState::NotRecording
            &&& after[new_id].slots == Map::<Seq<char>, crate::message::HyperdeckRecordBay>::empty()
        }),
{
}

/// Two adds of the same request under two fresh, different ids give two
/// decks, each with the request's name, address and port; nothing is merged
/// by name or address.
pub proof fn lemma_two_adds_give_two_decks(
    hs: Map<Seq<char>, HyperdeckStateView>,
    add: AddHyperdeckRequest,
    first_id: Seq<char>,
    second_id: Seq<char>,
)
    requires
        hs.dom().finite(),
        !hs.contains_key(first_id),
        !hs.contains_key(second_id),
        first_id != second_id,
    ensures
        ({
            let once = after_client_request(hs, ClientRequest::AddHyperdeck(add), first_id);
            let twice = after_client_request(once, ClientRequest::AddHyperdeck(add), second_id);
            &&& twice.len() == hs.len() + 2
            &&& twice[first_id] == new_hyperdeck(add)
            &&& twice[second_id] == new_hyperdeck(add)
        }),
{
    let once = hs.insert(first_id, new_hyperdeck(add));
    assert(once.len() == hs.len() + 1);
    assert(!once.contains_key(second_id));
    assert(once.insert(second_id, new_hyperdeck(add)).len() == once.len() + 1);
}

/// Removing an id that no deck has leaves the decks as they were.
pub proof fn lemma_remove_unknown_id_keeps_decks(
    hs: Map<Seq<char>, HyperdeckStateView>,
    remove: RemoveHyperdeckRequest,
    unused_id: Seq<char>,
)
    requires
        !hs.contains_key(remove.id@),
    ensures
        after_client_request(hs, ClientRequest::RemoveHyperdeck(remove), unused_id) == hs,
{
    assert(hs.remove(remove.id@) =~= hs);
}

/// Reports of the deck driver never add or remove a deck.
pub proof fn lemma_node_messages_keep_ids(
    hs: Map<Seq<char>, HyperdeckStateView>,
    msg: NodeWsMessageReceived,
)
    ensures
        after_node_message(hs, msg).dom() == hs.dom(),
{
    match msg {
        NodeWsMessageReceived::Log { .. } => {},
        NodeWsMessageReceived::HyperdeckConnected { id } => {
            if hs.contains_key(id@) {
                assert(hs.insert(id@, with_connection(hs[id@], HyperdeckConnectionState::Connected)).dom()
                    =~= hs.dom());
            }
        },
        NodeWsMessageReceived::HypderdeckDisconnected { id } => {
            if hs.contains_key(id@) {
                assert(hs.insert(id@, with_connection(hs[id@], HyperdeckConnectionState::Disconnected)).dom()
                    =~= hs.dom());
            }
        },
    }
}

/// A report of the deck driver changes at most the connection state of the
/// deck it names: every other deck, and every other field, stays as it was.
pub proof fn lemma_node_message_touches_only_connection(
    hs: Map<Seq<char>, HyperdeckStateView>,
    msg: NodeWsMessageReceived,
    k: Seq<char>,
)
    requires
        hs.contains_key(k),
    ensures
        after_node_message(hs, msg).contains_key(k),
        after_node_message(hs, msg)[k] == with_connection(hs[k], after_node_message(hs, msg)[k].connection_state),
        (match msg {
            NodeWsMessageReceived::Log { .. } => true,
            NodeWsMessageReceived::HyperdeckConnected { id } => id@ != k,
            NodeWsMessageReceived::HypderdeckDisconnected { id } => id@ != k,
        }) ==> after_node_message(hs, msg)[k] == hs[k],
{
    assert(with_connection(hs[k], hs[k].connection_state) =~= hs[k]);
}

/// `msg` reports that deck `id` connected or disconnected.
pub open spec fn is_connection_report_for(msg: NodeWsMessageReceived, id: Seq<char>) -> bool {
    match msg {
        NodeWsMessageReceived::Log { .. } => false,
        NodeWsMessageReceived::HyperdeckConnected { id: a } => a@ == id,
        NodeWsMessageReceived::HypderdeckDisconnected { id: a } => a@ == id,
    }
}

/// Of two connection reports about the same deck, the later one decides: the
/// decks after both are the decks after the later one alone.
pub proof fn lemma_last_connection_report_wins(
    hs: Map<Seq<char>, HyperdeckStateView>,
    first: NodeWsMessageReceived,
    second: NodeWsMessageReceived,
    id: Seq<char>,
)
    requires
        is_connection_report_for(first, id),
        is_connection_report_for(second, id),
    ensures
        after_node_message(after_node_message(hs, first), second) == after_node_message(hs, second),
{
    if hs.contains_key(id) {
        let once = after_node_message(hs, first);
        assert(once.contains_key(id));
        let c2 = after_node_message(hs, second)[id].connection_state;
        assert(with_connection(once[id], c2) =~= with_connection(hs[id], c2));
        assert(once.insert(id, with_connection(once[id], c2)) =~= hs.insert(id, with_connection(hs[id], c2)));
    }
}

/// Which events reach the panels: every add and every remove request, and
/// every connection report, whatever their fields; recording requests and log
/// reports do not.
pub proof fn lemma_what_is_published(req: ClientRequest, msg: NodeWsMessageReceived)
    ensures
        client_request_publishes(req) == (req is AddHyperdeck || req is RemoveHyperdeck),
        node_message_publishes(msg) == (msg is HyperdeckConnected || msg is HypderdeckDisconnected),
        node_message_publishes(msg) == !(msg is Log),
{
}

/// A report that deck `id` connected marks exactly that deck connected and
/// keeps everything else of it, and every other deck, as it was; a report
/// about an id that no deck has changes nothing.
pub proof fn lemma_connected_report_effect(
    hs: Map<Seq<char>, HyperdeckStateView>,
    id: String,
    k: Seq<char>,
)
    ensures
        ({
            let after = after_node_message(hs, NodeWsMessageReceived::HyperdeckConnected { id });
            &&& after.dom() == hs.dom()
            &&& (hs.contains_key(id@) ==> after[id@] == HyperdeckStateView {
                name: hs[id@].name,
                ip: hs[id@].ip,
                port: hs[id@].port,
                connection_state: HyperdeckConnectionState::Connected,
                recording_status: hs[id@].recording_status,
                slots: hs[id@].slots,
            })
            &&& (hs.contains_key(k) && k != id@ ==> after[k] == hs[k])
            &&& (!hs.contains_key(id@) ==> after == hs)
        }),
{
    lemma_node_messages_keep_ids(hs, NodeWsMessageReceived::HyperdeckConnected { id });
}

/// A report that deck `id` disconnected marks exactly that deck disconnected
/// and keeps everything else of it, and every other deck, as it was; a report
/// about an id that no deck has changes nothing.
pub proof fn lemma_disconnected_report_effect(
    hs: Map<Seq<char>, HyperdeckStateView>,
    id: String,
    k: Seq<char>,
)
    ensures
        ({
            let after = after_node_message(hs, NodeWsMessageReceived::HypderdeckDisconnected { id });
            &&& after.dom() == hs.dom()
            &&& (hs.contains_key(id@) ==> after[id@] == HyperdeckStateView {
                name: hs[id@].name,
                ip: hs[id@].ip,
                port: hs[id@].port,
                connection_state: HyperdeckConnectionState::Disconnected,
                recording_status: hs[id@].recording_status,
                slots: hs[id@].slots,
            })
            &&& (hs.contains_key(k) && k != id@ ==> after[k] == hs[k])
            &&& (!hs.contains_key(id@) ==> after == hs)
        }),
{
    lemma_node_messages_keep_ids(hs, NodeWsMessageReceived::HypderdeckDisconnected { id });
}

/// A log report leaves the decks as they were.
pub proof fn lemma_log_report_changes_nothing(hs: Map<Seq<char>, HyperdeckStateView>, message: String)
    ensures
        after_node_message(hs, NodeWsMessageReceived::Log { message }) == hs,
{
}

/// A remove request takes out exactly the deck it names (if any) and keeps
/// every other deck as it was.
pub proof fn lemma_remove_effect(
    hs: Map<Seq<char>, HyperdeckStateView>,
    remove: RemoveHyperdeckRequest,
    unused_id: Seq<char>,
    k: Seq<char>,
)
    ensures
        ({
            let after = after_client_request(hs, ClientRequest::RemoveHyperdeck(remove), unused_id);
            &&& !after.contains_key(remove.id@)
            &&& (k != remove.id@ ==> (after.contains_key(k) <==> hs.contains_key(k)))
            &&& (k != remove.id@ && hs.contains_key(k) ==> after[k] == hs[k])
        }),
{
}

/// An add request puts the new deck under the new id and keeps every other
/// deck as it was.
pub proof fn lemma_add_keeps_other_decks(
    hs: Map<Seq<char>, HyperdeckStateView>,
    add: AddHyperdeckRequest,
    new_id: Seq<char>,
    k: Seq<char>,
)
    ensures
        ({
            let after = after_client_request(hs, ClientRequest::AddHyperdeck(add), new_id);
            &&& after.contains_key(new_id)
            &&& (k != new_id ==> (after.contains_key(k) <==> hs.contains_key(k)))
            &&& (k != new_id && hs.contains_key(k) ==> after[k] == hs[k])
        }),
{
}

/// Recording requests change no deck and hand no command to the driver.
pub proof fn lemma_recording_requests_inert(
    hs: Map<Seq<char>, HyperdeckStateView>,
    start: StartRecordingRequest,
    stop: StopRecordingRequest,
    new_id: Seq<char>,
    cmd: Option<NodeWsCommand>,
)
    ensures
        after_client_request(hs, ClientRequest::StartRecording(start), new_id) == hs,
        after_client_request(hs, ClientRequest::StopRecording(stop), new_id) == hs,
        command_for_request(ClientRequest::StartRecording(start), new_id, cmd) <==> cmd is None,
        command_for_request(ClientRequest::StopRecording(stop), new_id, cmd) <==> cmd is None,
{
}

/// The command that an add request hands to the driver carries the new id
/// and the request's address and port; the one that a remove request hands
/// to it carries the request's id.
pub proof fn lemma_commands_carry_request_fields(
    add: AddHyperdeckRequest,
    remove: RemoveHyperdeckRequest,
    new_id: Seq<char>,
    cmd: Option<NodeWsCommand>,
)
    ensures
        command_for_request(ClientRequest::AddHyperdeck(add), new_id, cmd) <==> (cmd matches Some(
            NodeWsCommand::AddHyperdeck(c),
        ) && c.id@ == new_id && c.ip@ == add.ip@ && c.port == add.port),
        command_for_request(ClientRequest::RemoveHyperdeck(remove), new_id, cmd) <==> (cmd matches Some(
            NodeWsCommand::RemoveHyperdeck(c),
        ) && c.id@ == remove.id@),
{
}

} // verus!
