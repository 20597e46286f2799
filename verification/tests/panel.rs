use hyperdeck_monitor::id_map::IdMap;
use hyperdeck_monitor::message::{
    ClientRequest, HyperdeckConnectionState, HyperdeckMonitorState, HyperdeckRecordBay,
    HyperdeckState, RecordingState, ServerEvent,
};
use hyperdeck_monitor::panel::{
    blink_step, demo_hyperdecks, hyperdecks_from_state, receive_server_event,
    server_event_addresses_valid,
    remove_hyperdeck_request, shows_recording_details, slot_number, slot_time_warning, HyperdeckStatus,
    NewHyperdeckForm,
};

fn deck(name: &str, ip: &str, c: HyperdeckConnectionState) -> HyperdeckState {
    let mut slots = IdMap::new();
    slots.insert("1".to_string(), HyperdeckRecordBay { recording_time_remaining: 42 });
    HyperdeckState {
        name: name.to_string(),
        ip: ip.to_string(),
        port: 9993,
        connection_state: c,
        recording_status: RecordingState::Recording,
        slots,
    }
}

fn state_with(decks: Vec<(&str, HyperdeckState)>) -> HyperdeckMonitorState {
    let mut s = HyperdeckMonitorState::default();
    for (id, d) in decks {
        s.hyperdecks.insert(id.to_string(), d);
    }
    s
}

#[test]
fn status_follows_connection_state() {
    assert_eq!(HyperdeckStatus::from(HyperdeckConnectionState::Connected), HyperdeckStatus::Connected);
    assert_eq!(
        HyperdeckStatus::from(HyperdeckConnectionState::Disconnected),
        HyperdeckStatus::Disconnected
    );
}

#[test]
fn form_defaults() {
    let f = NewHyperdeckForm::default();
    assert_eq!(f.name, "");
    assert_eq!(f.ip, "");
    assert_eq!(f.port, "9993");
    assert!(!f.inputs_valid());
}

#[test]
fn form_takes_valid_request_and_resets() {
    let mut f = NewHyperdeckForm {
        name: "Stage".to_string(),
        ip: "192.168.1.20".to_string(),
        port: "+9994".to_string(),
    };
    assert!(f.inputs_valid());
    match f.take_add_request() {
        Some(ClientRequest::AddHyperdeck(r)) => {
            assert_eq!(r.name, "Stage");
            assert_eq!(r.ip, "192.168.1.20");
            assert_eq!(r.port, 9994);
        }
        other => panic!("unexpected {:?}", other),
    }
    assert_eq!(f.name, "");
    assert_eq!(f.ip, "");
    assert_eq!(f.port, "9993");
}

#[test]
fn form_accepts_ipv6_address() {
    let mut f = NewHyperdeckForm { name: "x".to_string(), ip: "::1".to_string(), port: "1".to_string() };
    assert!(f.inputs_valid());
    assert!(f.take_add_request().is_some());
}

#[test]
fn form_refuses_invalid_inputs_and_keeps_them() {
    let cases = [
        ("", "10.0.0.1", "9993"),
        ("a", "300.0.0.1", "9993"),
        ("a", "host.local", "9993"),
        ("a", "10.0.0.1", "65536"),
        ("a", "10.0.0.1", "-1"),
        ("a", "10.0.0.1", "+"),
        ("a", "10.0.0.1", ""),
        ("a", "10.0.0.1", " 80"),
    ];
    for (name, ip, port) in cases {
        let mut f = NewHyperdeckForm { name: name.to_string(), ip: ip.to_string(), port: port.to_string() };
        assert!(!f.inputs_valid(), "{:?}", (name, ip, port));
        assert!(f.take_add_request().is_none());
        assert_eq!(f.name, name);
        assert_eq!(f.ip, ip);
        assert_eq!(f.port, port);
    }
}

#[test]
fn form_port_edge_values() {
    for (port, value) in [("0", 0u16), ("65535", 65535), ("007", 7), ("+0", 0)] {
        let mut f = NewHyperdeckForm { name: "a".to_string(), ip: "10.0.0.1".to_string(), port: port.to_string() };
        match f.take_add_request() {
            Some(ClientRequest::AddHyperdeck(r)) => assert_eq!(r.port, value),
            other => panic!("unexpected {:?}", other),
        }
    }
}

#[test]
fn remove_request_carries_deck_id() {
    let list = demo_hyperdecks();
    match remove_hyperdeck_request(&list[2]) {
        ClientRequest::RemoveHyperdeck(r) => assert_eq!(r.id, "test-3"),
        other => panic!("unexpected {:?}", other),
    }
}

#[test]
fn recording_details_only_for_connected_decks() {
    let list = demo_hyperdecks();
    assert!(shows_recording_details(&list[0]));
    assert!(!shows_recording_details(&list[3]));
}

#[test]
fn slot_warning_threshold_and_blink() {
    assert!(slot_time_warning(0, true));
    assert!(slot_time_warning(900, true));
    assert!(!slot_time_warning(901, true));
    assert!(!slot_time_warning(60, false));
}

#[test]
fn blink_toggles_after_a_second() {
    assert_eq!(blink_step(false, 0), (false, false));
    assert_eq!(blink_step(false, 1), (true, true));
    assert_eq!(blink_step(true, 5), (false, true));
}

#[test]
fn demo_decks_match_defaults() {
    let list = demo_hyperdecks();
    assert_eq!(list.len(), 4);
    assert_eq!(list[0].id, "test-1");
    assert_eq!(list[0].ip.to_string(), "192.168.10.1");
    assert_eq!(list[3].ip.to_string(), "192.168.10.4");
    assert_eq!(list[1].recording_status, RecordingState::Recording);
    assert_eq!(list[2].slots.get(&"0".to_string()).unwrap().recording_time_remaining, 1800);
    assert_eq!(list[3].status, HyperdeckStatus::Disconnected);
    assert_eq!(list[3].slots.get(&"0".to_string()).unwrap().recording_time_remaining, 18000);
    assert_eq!(list[3].name, "Description: Disconnected Hyperdeck");
}

#[test]
fn panel_lists_every_published_deck() {
    let s = state_with(vec![
        ("a", deck("A", "10.0.0.1", HyperdeckConnectionState::Connected)),
        ("b", deck("B", "fe80::1", HyperdeckConnectionState::Disconnected)),
    ]);
    let list = hyperdecks_from_state(s);
    assert_eq!(list.len(), 2);
    let a = list.iter().find(|d| d.id == "a").unwrap();
    assert_eq!(a.name, "A");
    assert_eq!(a.status, HyperdeckStatus::Connected);
    assert_eq!(a.recording_status, RecordingState::Recording);
    assert_eq!(a.slots.get(&"1".to_string()).unwrap().recording_time_remaining, 42);
    let b = list.iter().find(|d| d.id == "b").unwrap();
    assert_eq!(b.ip.to_string(), "fe80::1");
    assert_eq!(b.status, HyperdeckStatus::Disconnected);
}

#[test]
fn server_event_with_invalid_address_is_refused() {
    let s = state_with(vec![
        ("a", deck("A", "10.0.0.1", HyperdeckConnectionState::Connected)),
        ("b", deck("B", "not-an-ip", HyperdeckConnectionState::Disconnected)),
    ]);
    assert!(!server_event_addresses_valid(&ServerEvent::HyperdeckMonitorState(s)));
}

#[test]
fn server_event_with_valid_addresses_gives_list() {
    let s = state_with(vec![("a", deck("A", "10.0.0.1", HyperdeckConnectionState::Connected))]);
    let event = ServerEvent::HyperdeckMonitorState(s);
    assert!(server_event_addresses_valid(&event));
    let list = receive_server_event(event);
    assert_eq!(list.len(), 1);
    assert_eq!(list[0].id, "a");
    let empty = receive_server_event(ServerEvent::HyperdeckMonitorState(HyperdeckMonitorState::default()));
    assert!(empty.is_empty());
}

#[test]
fn panel_shows_addresses_in_std_canonical_form() {
    let s = state_with(vec![("v6", deck("V6", "2001:DB8:0:0::1", HyperdeckConnectionState::Connected))]);
    let list = receive_server_event(ServerEvent::HyperdeckMonitorState(s));
    assert_eq!(list[0].ip.to_string(), "2001:db8::1");
    let expected: core::net::IpAddr = "2001:db8::1".parse().unwrap();
    assert_eq!(list[0].ip, expected);
}

#[test]
fn slot_numbers_count_from_one() {
    assert_eq!(slot_number("0"), Some(1));
    assert_eq!(slot_number("41"), Some(42));
    assert_eq!(slot_number("+2"), Some(3));
    assert_eq!(slot_number("a"), None);
    assert_eq!(slot_number(""), None);
    assert_eq!(slot_number("-1"), None);
    assert_eq!(slot_number(&usize::MAX.to_string()), None);
    assert_eq!(slot_number(&(usize::MAX - 1).to_string()), Some(usize::MAX));
}

#[test]
fn decimal_reading_agrees_with_std() {
    for text in ["0", "+7", "0000000000000000000000000000009", "99999999999999999999999", "1_0", "٣", "+", "++1", "12a", " 3"] {
        assert_eq!(slot_number(text), text.parse::<usize>().ok().and_then(|v| v.checked_add(1)), "{:?}", text);
        let mut f = NewHyperdeckForm { name: "a".to_string(), ip: "10.0.0.1".to_string(), port: text.to_string() };
        let expected = text.parse::<u16>().ok();
        match f.take_add_request() {
            Some(ClientRequest::AddHyperdeck(r)) => assert_eq!(Some(r.port), expected, "{:?}", text),
            None => assert_eq!(expected, None, "{:?}", text),
            other => panic!("unexpected {:?}", other),
        }
    }
}
