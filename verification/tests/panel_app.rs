use hyperdeck_monitor::id_map::IdMap;
use hyperdeck_monitor::message::{
    ClientRequest, HyperdeckConnectionState, HyperdeckMonitorState, HyperdeckState, RecordingState,
    ServerEvent,
};
use hyperdeck_monitor::panel::{HyperdeckMonitorApp, HyperdeckStatus};

fn published(ip: &str) -> ServerEvent {
    let mut s = HyperdeckMonitorState::default();
    s.hyperdecks.insert(
        "live".to_string(),
        HyperdeckState {
            name: "Live".to_string(),
            ip: ip.to_string(),
            port: 9993,
            connection_state: HyperdeckConnectionState::Connected,
            recording_status: RecordingState::NotRecording,
            slots: IdMap::new(),
        },
    );
    ServerEvent::HyperdeckMonitorState(s)
}

#[test]
fn app_starts_with_demo_decks_and_empty_queue() {
    let app = HyperdeckMonitorApp::default();
    assert!(!app.blink);
    assert_eq!(app.hyperdecks.len(), 4);
    assert_eq!(app.hyperdecks[1].id, "test-2");
    assert_eq!(app.form.port, "9993");
    assert!(app.websocket_message_queue.is_empty());
}

#[test]
fn app_queues_requests_in_order() {
    let mut app = HyperdeckMonitorApp::default();
    app.form.name = "Cam".to_string();
    app.form.ip = "10.0.0.9".to_string();
    app.form.port = "9993".to_string();
    app.submit_new_hyperdeck();
    app.request_removal(0);
    assert_eq!(app.websocket_message_queue.len(), 2);
    match app.take_outgoing() {
        Some(ClientRequest::AddHyperdeck(r)) => {
            assert_eq!(r.name, "Cam");
            assert_eq!(r.port, 9993);
        }
        other => panic!("unexpected {:?}", other),
    }
    match app.take_outgoing() {
        Some(ClientRequest::RemoveHyperdeck(r)) => assert_eq!(r.id, "test-1"),
        other => panic!("unexpected {:?}", other),
    }
    assert!(app.take_outgoing().is_none());
    assert_eq!(app.form.name, "");
}

#[test]
fn app_ignores_invalid_form() {
    let mut app = HyperdeckMonitorApp::default();
    app.form.name = "Cam".to_string();
    app.form.ip = "10.0.0".to_string();
    app.submit_new_hyperdeck();
    assert!(app.websocket_message_queue.is_empty());
    assert_eq!(app.form.ip, "10.0.0");
}

#[test]
fn app_replaces_list_on_valid_event_only() {
    let mut app = HyperdeckMonitorApp::default();
    assert!(!app.try_on_server_event(published("nonsense")));
    assert_eq!(app.hyperdecks.len(), 4);
    assert!(app.try_on_server_event(published("10.0.0.1")));
    assert_eq!(app.hyperdecks.len(), 1);
    assert_eq!(app.hyperdecks[0].id, "live");
    assert_eq!(app.hyperdecks[0].status, HyperdeckStatus::Connected);
}

#[test]
fn app_tick_blinks_each_second() {
    let mut app = HyperdeckMonitorApp::default();
    assert!(!app.tick(0));
    assert!(!app.blink);
    assert!(app.tick(1));
    assert!(app.blink);
    assert!(app.tick(2));
    assert!(!app.blink);
}

#[test]
fn app_takes_in_valid_event_directly() {
    let mut app = HyperdeckMonitorApp::default();
    app.on_server_event(published("::1"));
    assert_eq!(app.hyperdecks.len(), 1);
    assert_eq!(app.hyperdecks[0].ip.to_string(), "::1");
}
