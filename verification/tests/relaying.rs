use input_capture::{
    relayed_signal, CompositorCall, DecodedSignal, EisOutcome, Emission, InputCapture, MethodError,
    PortalResponse, PortalSignal, RelayAction, SessionData, SessionMap, SessionState, StreamEvent,
};
use zbus::zvariant::{OwnedValue, Value};
use zbus::Message;

const PATH: &str = "/org/cosmic/InputCapture";
const INTERFACE: &str = "org.cosmic.InputCapture";

fn call(method: &str) -> Message {
    Message::method_call(PATH, method).unwrap().build(&()).unwrap()
}

fn sessions() -> SessionMap {
    let mut map = SessionMap::new();
    map.insert("comp-1".to_string(), "/portal/one".to_string());
    map.insert("comp-2".to_string(), "/portal/two".to_string());
    map
}

fn cursor() -> OwnedValue {
    Value::from((12.5f64, -3.0f64)).try_to_owned().unwrap()
}

fn activation(session_id: &str, barrier_id: u32) -> DecodedSignal {
    DecodedSignal::Activated {
        session_id: session_id.to_string(),
        barrier_id,
        activation_id: 77,
        cursor_position: cursor(),
    }
}

fn emitted(action: RelayAction) -> Option<Emission> {
    match action {
        RelayAction::Emit(emission) => Some(emission),
        _ => None,
    }
}

#[test]
fn new_backend_is_empty() {
    let backend = InputCapture::new();
    assert_eq!(backend.sessions().get("comp-1"), None);
    assert_eq!(backend.supported_capabilities(), 3);
    assert_eq!(backend.version(), 2);
}

#[test]
fn relay_is_claimed_once() {
    let mut backend = InputCapture::new();
    assert!(backend.claim_relay());
    assert!(!backend.claim_relay());
    backend.create_session_with_id("/portal/one", Some("c".to_string()));
    assert!(!backend.claim_relay());
}

#[test]
fn created_session_is_found_again() {
    let mut backend = InputCapture::new();
    match InputCapture::create_session_call() {
        CompositorCall::CreateSession { capabilities } => assert_eq!(capabilities, 3),
        _ => panic!("another call"),
    }
    let request = call("CreateSession");
    let reply = Message::method_return(&request.header()).unwrap().build(&"comp-9").unwrap();
    let data = backend.create_session("/portal/nine", Some(&reply));
    assert_eq!(data.state, Some(SessionState::Created));
    assert_eq!(data.compositor_session_id.as_deref(), Some("comp-9"));
    assert_eq!(backend.sessions().get("comp-9").as_deref(), Some("/portal/nine"));
    backend.create_session("/portal/ten", Some(&reply));
    assert_eq!(backend.sessions().get("comp-9").as_deref(), Some("/portal/ten"));
    match InputCapture::create_session_reply("/portal/nine") {
        PortalResponse::Success(result) => {
            assert_eq!(result.session_id, "/portal/nine");
            assert_eq!(result.capabilities, 3);
        }
        PortalResponse::Other => panic!("no session"),
    }
}

#[test]
fn session_is_created_without_the_compositor() {
    let mut backend = InputCapture::new();
    let request = call("CreateSession");
    let unreadable = Message::method_return(&request.header()).unwrap().build(&5u32).unwrap();
    for reply in [None, Some(&unreadable)] {
        let data = backend.create_session("/portal/one", reply);
        assert_eq!(data.state, Some(SessionState::Created));
        assert_eq!(data.compositor_session_id, None);
        assert_eq!(backend.sessions().get(""), None);
    }
}

#[test]
fn zones_come_from_the_reply() {
    let mut data = SessionData::created(Some("comp".to_string()));
    match InputCapture::get_zones_call(Some(&data)) {
        Some(CompositorCall::GetZones { session_id }) => assert_eq!(session_id, "comp"),
        _ => panic!("no call"),
    }
    let request = call("GetZones");
    let zones = vec![(1920u32, 1080u32, 0i32, 0i32), (800, 600, -800, 20)];
    let reply =
        Message::method_return(&request.header()).unwrap().build(&(6u32, zones.clone())).unwrap();
    match InputCapture::get_zones(Some(&mut data), Some(&reply)) {
        PortalResponse::Success(result) => {
            assert_eq!(result.zone_set, 6);
            assert_eq!(result.zones, zones);
        }
        PortalResponse::Other => panic!("no zones"),
    }
    assert_eq!(data.zone_set, 6);
    let unreadable = Message::method_return(&request.header()).unwrap().build(&"zones").unwrap();
    for reply in [None, Some(&unreadable)] {
        assert!(matches!(InputCapture::get_zones(Some(&mut data), reply), PortalResponse::Other));
        assert_eq!(data.zone_set, 6);
    }
    assert!(matches!(InputCapture::get_zones(None, Some(&reply)), PortalResponse::Other));
}

#[test]
fn other_sessions_keep_their_signals() {
    let mut backend = InputCapture::new();
    backend.create_session_with_id("/portal/one", Some("comp-1".to_string()));
    backend.create_session_with_id("/portal/two", Some("comp-2".to_string()));
    backend.create_session_with_id("/portal/three", None);
    backend.claim_relay();
    let signal = DecodedSignal::Disabled { session_id: "comp-1".to_string() };
    let emission = emitted(backend.sessions().relay_decoded(Some(signal))).unwrap();
    assert_eq!(emission.session_handle, "/portal/one");
}

#[test]
fn an_activation_can_be_released() {
    let emission = emitted(sessions().relay_decoded(Some(activation("comp-1", 3)))).unwrap();
    let mut data = SessionData::created(Some("comp-1".to_string()));
    match InputCapture::release(Some(&mut data), &emission.options, None) {
        Ok(CompositorCall::Release { activation_id, .. }) => assert_eq!(activation_id, 77),
        _ => panic!("not released"),
    }
}

#[test]
fn activation_is_passed_on() {
    let emission = emitted(sessions().relay_decoded(Some(activation("comp-2", 5)))).unwrap();
    assert_eq!(emission.session_handle, "/portal/two");
    assert_eq!(emission.signal, PortalSignal::Activated);
    assert_eq!(emission.options.u32_at("activation_id"), Some(77));
    assert_eq!(emission.options.u32_at("barrier_id"), Some(5));
    assert_eq!(emission.options.get("cursor_position"), Some(&cursor()));
    assert_eq!(emission.options.into_entries().len(), 3);
}

#[test]
fn activation_without_barrier_names_none() {
    let emission = emitted(sessions().relay_decoded(Some(activation("comp-1", 0)))).unwrap();
    assert_eq!(emission.session_handle, "/portal/one");
    assert!(emission.options.get("barrier_id").is_none());
    assert_eq!(emission.options.into_entries().len(), 2);
}

#[test]
fn unknown_sessions_are_skipped() {
    let map = sessions();
    for signal in [
        None,
        Some(activation("comp-3", 5)),
        Some(DecodedSignal::Deactivated { session_id: "".to_string(), activation_id: 1 }),
        Some(DecodedSignal::Disabled { session_id: "/portal/one".to_string() }),
    ] {
        assert!(matches!(map.relay_decoded(signal), RelayAction::Skip));
    }
}

#[test]
fn deactivation_message_is_passed_on() {
    let map = sessions();
    let message = Message::signal(PATH, INTERFACE, "Deactivated")
        .unwrap()
        .build(&("comp-1", 12u32))
        .unwrap();
    let emission = emitted(map.relay_step(StreamEvent::Message(&message))).unwrap();
    assert_eq!(emission.session_handle, "/portal/one");
    assert_eq!(emission.signal, PortalSignal::Deactivated);
    assert_eq!(emission.options.u32_at("activation_id"), Some(12));
    assert_eq!(emission.options.into_entries().len(), 1);
    let unreadable =
        Message::signal(PATH, INTERFACE, "Deactivated").unwrap().build(&("comp-1",)).unwrap();
    assert!(matches!(map.relay_step(StreamEvent::Message(&unreadable)), RelayAction::Skip));
}

#[test]
fn disabling_message_is_passed_on() {
    let map = sessions();
    let message =
        Message::signal(PATH, INTERFACE, "DisabledSignal").unwrap().build(&("comp-2",)).unwrap();
    let emission = emitted(map.relay_step(StreamEvent::Message(&message))).unwrap();
    assert_eq!(emission.session_handle, "/portal/two");
    assert_eq!(emission.signal, PortalSignal::Disabled);
    assert!(emission.options.into_entries().is_empty());
    let plain =
        Message::signal(PATH, INTERFACE, "DisabledSignal").unwrap().build(&"comp-2").unwrap();
    assert!(emitted(map.relay_step(StreamEvent::Message(&plain))).is_some());
    let unreadable =
        Message::signal(PATH, INTERFACE, "DisabledSignal").unwrap().build(&1u32).unwrap();
    assert!(matches!(map.relay_step(StreamEvent::Message(&unreadable)), RelayAction::Skip));
}

#[test]
fn other_messages_are_skipped() {
    let map = sessions();
    for member in ["Disabled", "ZonesChanged", "activated"] {
        let message = Message::signal(PATH, INTERFACE, member).unwrap().build(&("comp-1",)).unwrap();
        assert!(matches!(map.relay_step(StreamEvent::Message(&message)), RelayAction::Skip));
    }
    let request = call("Ping");
    let reply = Message::method_return(&request.header()).unwrap().build(&()).unwrap();
    assert!(matches!(map.relay_step(StreamEvent::Message(&reply)), RelayAction::Skip));
    assert!(matches!(map.relay_step(StreamEvent::Failed), RelayAction::Skip));
    assert!(matches!(map.relay_step(StreamEvent::Ended), RelayAction::Stop));
}

#[test]
fn a_course_of_events_keeps_its_order() {
    let map = sessions();
    let signal = |member: &'static str| Message::signal(PATH, INTERFACE, member).unwrap();
    let messages = [
        signal("Deactivated").build(&("comp-2", 1u32)).unwrap(),
        signal("Deactivated").build(&("comp-9", 2u32)).unwrap(),
        signal("Other").build(&("comp-1", 3u32)).unwrap(),
        signal("Activated").build(&("comp-1", 0u32, 77u32, (0.5f64, 0.25f64))).unwrap(),
        signal("DisabledSignal").build(&("comp-2",)).unwrap(),
    ];
    let mut events: Vec<StreamEvent<'_>> = messages.iter().map(StreamEvent::Message).collect();
    events.insert(2, StreamEvent::Failed);
    events.push(StreamEvent::Ended);
    events.push(StreamEvent::Message(&messages[0]));
    let mut seen = Vec::new();
    let mut turns = 0;
    for event in events {
        turns += 1;
        let mut action = map.relay_step(event);
        if matches!(action, RelayAction::ReadActivation) {
            action = map.relay_decoded(Some(activation("comp-1", 0)));
        }
        match action {
            RelayAction::Emit(emission) => seen.push((emission.session_handle, emission.signal)),
            RelayAction::Stop => break,
            _ => {}
        }
    }
    assert_eq!(turns, 7);
    assert_eq!(
        seen,
        vec![
            ("/portal/two".to_string(), PortalSignal::Deactivated),
            ("/portal/one".to_string(), PortalSignal::Activated),
            ("/portal/two".to_string(), PortalSignal::Disabled),
        ]
    );
}

#[test]
fn activation_message_is_to_be_read() {
    let message = Message::signal(PATH, INTERFACE, "Activated")
        .unwrap()
        .build(&("comp-1", 1u32, 2u32, (0.5f64, 0.25f64)))
        .unwrap();
    let action = sessions().relay_step(StreamEvent::Message(&message));
    assert!(matches!(action, RelayAction::ReadActivation));
}

#[test]
fn signal_names() {
    for signal in [PortalSignal::Activated, PortalSignal::Deactivated, PortalSignal::Disabled] {
        assert_eq!(PortalSignal::from_name(signal.name()), Some(signal));
    }
    assert_eq!(PortalSignal::Disabled.name(), "Disabled");
    assert_eq!(PortalSignal::from_name("ZonesChanged"), None);
    assert_eq!(PortalSignal::from_name("DisabledSignal"), None);
    assert_eq!(
        relayed_signal(&Some("DisabledSignal".to_string())),
        Some(PortalSignal::Disabled)
    );
    assert_eq!(relayed_signal(&Some("Disabled".to_string())), None);
    assert_eq!(relayed_signal(&None), None);
}

#[test]
fn event_connection_outcomes() {
    let data = SessionData::created(Some("comp".to_string()));
    let request = InputCapture::connect_to_eis_call(Some(&data)).unwrap();
    assert_eq!(request.method(), "ConnectToEIS");
    match request {
        CompositorCall::ConnectToEis { session_id } => assert_eq!(session_id, "comp"),
        _ => panic!("another call"),
    }
    assert_eq!(InputCapture::connect_to_eis(EisOutcome::Descriptor(5u8)).unwrap(), 5);
    let error = InputCapture::connect_to_eis::<u8>(EisOutcome::NoConnection).unwrap_err();
    assert!(matches!(error, MethodError::NoCompositor));
    assert_eq!(error.message(), "No compositor connection");
    let refused = EisOutcome::<u8>::CallFailed("busy".to_string());
    let error = InputCapture::connect_to_eis(refused).unwrap_err();
    assert_eq!(error.message(), "Compositor ConnectToEIS: busy");
    let unreadable = EisOutcome::<u8>::BadReply("no fd".to_string());
    let error = InputCapture::connect_to_eis(unreadable).unwrap_err();
    assert_eq!(error.message(), "fd deserialize: no fd");
}

#[test]
fn call_names() {
    let id = || "c".to_string();
    for (request, name) in [
        (CompositorCall::CreateSession { capabilities: 3 }, "CreateSession"),
        (CompositorCall::GetZones { session_id: id() }, "GetZones"),
        (
            CompositorCall::SetBarriers { session_id: id(), zone_set: 0, barriers: vec![] },
            "SetBarriers",
        ),
        (CompositorCall::Enable { session_id: id() }, "Enable"),
        (CompositorCall::Disable { session_id: id() }, "Disable"),
    ] {
        assert_eq!(request.method(), name);
    }
}
