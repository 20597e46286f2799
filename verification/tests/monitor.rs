use hyperdeck_monitor::message::{
    AddHyperdeckRequest, ClientRequest, HyperdeckConnectionState, HyperdeckMonitorState,
    RecordingState, RemoveHyperdeckRequest, StartRecordingRequest, StopRecordingRequest,
};
use hyperdeck_monitor::monitor::{
    apply_client_request, handle_message_from_client, handle_message_from_node, NodeWsCommand,
    NodeWsMessageReceived,
};

fn add_request(name: &str, ip: &str, port: u16) -> ClientRequest {
    ClientRequest::AddHyperdeck(AddHyperdeckRequest {
        name: name.to_string(),
        ip: ip.to_string(),
        port,
    })
}

fn is_random_uuid_text(s: &str) -> bool {
    let c: Vec<char> = s.chars().collect();
    if c.len() != 36 {
        return false;
    }
    for (i, ch) in c.iter().enumerate() {
        if i == 8 || i == 13 || i == 18 || i == 23 {
            if *ch != '-' {
                return false;
            }
        } else if !(ch.is_ascii_digit() || ('a'..='f').contains(ch)) {
            return false;
        }
    }
    c[14] == '4' && matches!(c[19], '8' | '9' | 'a' | 'b')
}

#[test]
fn add_request_creates_disconnected_deck_and_command() {
    let mut state = HyperdeckMonitorState::default();
    let (publish, cmd) =
        apply_client_request(add_request("Stage A", "10.0.0.5", 9993), "deck-1".to_string(), &mut state);
    assert!(publish);
    let deck = state.hyperdecks.get(&"deck-1".to_string()).unwrap();
    assert_eq!(deck.name, "Stage A");
    assert_eq!(deck.ip, "10.0.0.5");
    assert_eq!(deck.port, 9993);
    assert_eq!(deck.connection_state, HyperdeckConnectionState::Disconnected);
    assert_eq!(deck.recording_status, RecordingState::NotRecording);
    assert_eq!(deck.slots.len(), 0);
    match cmd {
        Some(NodeWsCommand::AddHyperdeck(c)) => {
            assert_eq!(c.id, "deck-1");
            assert_eq!(c.ip, "10.0.0.5");
            assert_eq!(c.port, 9993);
        }
        other => panic!("unexpected command {:?}", other),
    }
}

#[test]
fn handle_message_from_client_assigns_random_uuid() {
    let mut state = HyperdeckMonitorState::default();
    let (publish, cmd) = handle_message_from_client(add_request("B", "10.0.0.6", 1234), &mut state);
    assert!(publish);
    let id = match cmd {
        Some(NodeWsCommand::AddHyperdeck(c)) => c.id,
        other => panic!("unexpected command {:?}", other),
    };
    assert!(is_random_uuid_text(&id), "not a random uuid: {}", id);
    assert!(state.hyperdecks.contains_key(&id));
    assert_eq!(state.hyperdecks.len(), 1);

    let (_, cmd2) = handle_message_from_client(add_request("C", "10.0.0.7", 1), &mut state);
    let id2 = match cmd2 {
        Some(NodeWsCommand::AddHyperdeck(c)) => c.id,
        other => panic!("unexpected command {:?}", other),
    };
    assert_ne!(id, id2);
    assert_eq!(state.hyperdecks.len(), 2);
}

#[test]
fn remove_request_removes_deck_and_forwards_id() {
    let mut state = HyperdeckMonitorState::default();
    apply_client_request(add_request("A", "10.0.0.5", 9993), "d1".to_string(), &mut state);
    let (publish, cmd) = handle_message_from_client(
        ClientRequest::RemoveHyperdeck(RemoveHyperdeckRequest { id: "d1".to_string() }),
        &mut state,
    );
    assert!(publish);
    assert_eq!(state.hyperdecks.len(), 0);
    match cmd {
        Some(NodeWsCommand::RemoveHyperdeck(c)) => assert_eq!(c.id, "d1"),
        other => panic!("unexpected command {:?}", other),
    }
}

#[test]
fn remove_of_unknown_id_keeps_state_but_is_forwarded() {
    let mut state = HyperdeckMonitorState::default();
    apply_client_request(add_request("A", "10.0.0.5", 9993), "d1".to_string(), &mut state);
    let (publish, cmd) = apply_client_request(
        ClientRequest::RemoveHyperdeck(RemoveHyperdeckRequest { id: "nope".to_string() }),
        String::new(),
        &mut state,
    );
    assert!(publish);
    assert_eq!(state.hyperdecks.len(), 1);
    assert!(matches!(cmd, Some(NodeWsCommand::RemoveHyperdeck(_))));
}

#[test]
fn recording_requests_change_nothing() {
    let mut state = HyperdeckMonitorState::default();
    apply_client_request(add_request("A", "10.0.0.5", 9993), "d1".to_string(), &mut state);
    let (p1, c1) = handle_message_from_client(
        ClientRequest::StartRecording(StartRecordingRequest { id: "d1".to_string() }),
        &mut state,
    );
    let (p2, c2) = handle_message_from_client(
        ClientRequest::StopRecording(StopRecordingRequest { id: "d1".to_string() }),
        &mut state,
    );
    assert!(!p1 && !p2);
    assert!(c1.is_none() && c2.is_none());
    assert_eq!(state.hyperdecks.len(), 1);
}

#[test]
fn remove_undoes_add_on_concrete_state() {
    let mut state = HyperdeckMonitorState::default();
    apply_client_request(add_request("A", "10.0.0.5", 9993), "d1".to_string(), &mut state);
    apply_client_request(add_request("B", "10.0.0.6", 9993), "d2".to_string(), &mut state);
    apply_client_request(
        ClientRequest::RemoveHyperdeck(RemoveHyperdeckRequest { id: "d2".to_string() }),
        String::new(),
        &mut state,
    );
    assert_eq!(state.hyperdecks.len(), 1);
    assert_eq!(state.hyperdecks.get(&"d1".to_string()).unwrap().name, "A");
    assert!(!state.hyperdecks.contains_key(&"d2".to_string()));
}

#[test]
fn connection_reports_update_only_the_named_deck() {
    let mut state = HyperdeckMonitorState::default();
    apply_client_request(add_request("A", "10.0.0.5", 9993), "d1".to_string(), &mut state);
    apply_client_request(add_request("B", "10.0.0.6", 9994), "d2".to_string(), &mut state);
    let publish = handle_message_from_node(
        NodeWsMessageReceived::HyperdeckConnected { id: "d1".to_string() },
        &mut state,
    );
    assert!(publish);
    let d1 = state.hyperdecks.get(&"d1".to_string()).unwrap();
    assert_eq!(d1.connection_state, HyperdeckConnectionState::Connected);
    assert_eq!(d1.name, "A");
    assert_eq!(d1.port, 9993);
    let d2 = state.hyperdecks.get(&"d2".to_string()).unwrap();
    assert_eq!(d2.connection_state, HyperdeckConnectionState::Disconnected);
}

#[test]
fn last_connection_report_wins() {
    let mut state = HyperdeckMonitorState::default();
    apply_client_request(add_request("A", "10.0.0.5", 9993), "d1".to_string(), &mut state);
    handle_message_from_node(NodeWsMessageReceived::HyperdeckConnected { id: "d1".to_string() }, &mut state);
    handle_message_from_node(
        NodeWsMessageReceived::HypderdeckDisconnected { id: "d1".to_string() },
        &mut state,
    );
    let d1 = state.hyperdecks.get(&"d1".to_string()).unwrap();
    assert_eq!(d1.connection_state, HyperdeckConnectionState::Disconnected);
}

#[test]
fn report_about_unknown_deck_changes_nothing_but_publishes() {
    let mut state = HyperdeckMonitorState::default();
    apply_client_request(add_request("A", "10.0.0.5", 9993), "d1".to_string(), &mut state);
    let publish = handle_message_from_node(
        NodeWsMessageReceived::HyperdeckConnected { id: "ghost".to_string() },
        &mut state,
    );
    assert!(publish);
    assert_eq!(state.hyperdecks.len(), 1);
    assert!(!state.hyperdecks.contains_key(&"ghost".to_string()));
    assert_eq!(
        state.hyperdecks.get(&"d1".to_string()).unwrap().connection_state,
        HyperdeckConnectionState::Disconnected
    );
}

#[test]
fn log_reports_do_not_publish() {
    let mut state = HyperdeckMonitorState::default();
    let publish = handle_message_from_node(
        NodeWsMessageReceived::Log { message: "hello".to_string() },
        &mut state,
    );
    assert!(!publish);
    assert_eq!(state.hyperdecks.len(), 0);
}
