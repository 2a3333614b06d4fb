use input_capture::{
    grant, supported, BarrierRequest, CompositorCall, CursorPosition, InputCapture, MethodError,
    OptionDict, PortalResponse, SessionData, SessionState, StartOptions, CAPABILITY_KEYBOARD,
    CAPABILITY_POINTER, CAPABILITY_TOUCHSCREEN,
};
use zbus::zvariant::{OwnedValue, Value};

fn session(state: Option<SessionState>) -> SessionData {
    let mut data = SessionData::created(Some("comp-1".to_string()));
    data.state = state;
    data
}

fn options(capabilities: Option<u32>) -> StartOptions {
    StartOptions { capabilities, persist_mode: None }
}

fn started(reply: PortalResponse<input_capture::StartResult>) -> Option<u32> {
    match reply {
        PortalResponse::Success(result) => Some(result.capabilities),
        PortalResponse::Other => None,
    }
}

#[test]
fn default_session_is_blank() {
    let data = SessionData::default();
    assert_eq!(data.state, None);
    assert_eq!(data.capabilities, 0);
    assert!(data.barriers.is_empty());
    assert_eq!(data.zone_set, 0);
    assert!(!data.closed);
    assert_eq!(data.compositor_session_id, None);
}

#[test]
fn close_marks_the_session() {
    let mut data = session(Some(SessionState::Enabled));
    data.close();
    assert!(data.closed);
    assert_eq!(data.state, Some(SessionState::Enabled));
    data.close();
    assert!(data.closed);
}

#[test]
fn created_session_starts_once() {
    let mut data = SessionData::created(None);
    assert_eq!(data.state, Some(SessionState::Created));
    assert_eq!(started(InputCapture::start(Some(&mut data), &options(Some(5)))), Some(1));
    assert_eq!(data.state, Some(SessionState::Started));
    assert_eq!(data.capabilities, 1);
    assert_eq!(started(InputCapture::start(Some(&mut data), &options(Some(2)))), None);
    assert_eq!(data.capabilities, 1);
    assert_eq!(data.state, Some(SessionState::Started));
}

#[test]
fn start_is_refused_outside_created() {
    for state in [
        None,
        Some(SessionState::Started),
        Some(SessionState::Enabled),
        Some(SessionState::Disabled),
        Some(SessionState::Activated),
    ] {
        let mut data = session(state);
        assert_eq!(started(InputCapture::start(Some(&mut data), &options(None))), None);
        assert_eq!(data.state, state);
        assert_eq!(data.capabilities, 0);
    }
    assert_eq!(started(InputCapture::start(None, &options(None))), None);
}

#[test]
fn grants_are_masked() {
    assert_eq!(supported(), CAPABILITY_KEYBOARD | CAPABILITY_POINTER);
    assert_eq!(grant(None), 3);
    assert_eq!(grant(Some(0)), 0);
    assert_eq!(grant(Some(CAPABILITY_TOUCHSCREEN)), 0);
    assert_eq!(grant(Some(7)), 3);
    assert_eq!(grant(Some(u32::MAX)), 3);
    assert_eq!(grant(Some(6)), 2);
    assert_eq!(grant(Some(grant(Some(6)))), 2);
}

#[test]
fn enable_and_disable_alternate() {
    let mut data = session(Some(SessionState::Disabled));
    match InputCapture::enable(Some(&mut data)) {
        Ok(CompositorCall::Enable { session_id }) => assert_eq!(session_id, "comp-1"),
        _ => panic!("not enabled"),
    }
    assert_eq!(data.state, Some(SessionState::Enabled));
    let error = InputCapture::enable(Some(&mut data)).unwrap_err();
    assert!(matches!(error, MethodError::InvalidState));
    assert_eq!(error.message(), "Invalid session state");
    assert_eq!(data.state, Some(SessionState::Enabled));
    match InputCapture::disable(Some(&mut data)) {
        Ok(CompositorCall::Disable { session_id }) => assert_eq!(session_id, "comp-1"),
        _ => panic!("not disabled"),
    }
    assert_eq!(data.state, Some(SessionState::Disabled));
    assert!(matches!(InputCapture::disable(Some(&mut data)), Err(MethodError::InvalidState)));
    assert_eq!(data.state, Some(SessionState::Disabled));
}

#[test]
fn enable_by_state() {
    for (state, allowed) in [
        (None, false),
        (Some(SessionState::Created), true),
        (Some(SessionState::Started), true),
        (Some(SessionState::Enabled), false),
        (Some(SessionState::Disabled), true),
        (Some(SessionState::Activated), false),
    ] {
        let mut data = session(state);
        assert_eq!(InputCapture::enable(Some(&mut data)).is_ok(), allowed);
        assert_eq!(data.state, if allowed { Some(SessionState::Enabled) } else { state });
    }
}

#[test]
fn disable_by_state() {
    for (state, allowed) in [
        (None, false),
        (Some(SessionState::Created), false),
        (Some(SessionState::Started), false),
        (Some(SessionState::Enabled), true),
        (Some(SessionState::Disabled), false),
        (Some(SessionState::Activated), false),
    ] {
        let mut data = session(state);
        assert_eq!(InputCapture::disable(Some(&mut data)).is_ok(), allowed);
        assert_eq!(data.state, if allowed { Some(SessionState::Disabled) } else { state });
    }
}

#[test]
fn missing_session_is_reported() {
    let dict = OptionDict::new();
    for error in [
        InputCapture::enable(None).unwrap_err(),
        InputCapture::disable(None).unwrap_err(),
        InputCapture::release(None, &dict, None).unwrap_err(),
        InputCapture::connect_to_eis_call(None).unwrap_err(),
    ] {
        assert!(matches!(error, MethodError::SessionNotFound));
        assert_eq!(error.message(), "Session not found");
    }
    assert!(InputCapture::get_zones_call(None).is_none());
}

#[test]
fn release_disarms_every_state() {
    for state in [
        None,
        Some(SessionState::Created),
        Some(SessionState::Started),
        Some(SessionState::Enabled),
        Some(SessionState::Disabled),
        Some(SessionState::Activated),
    ] {
        let mut data = session(state);
        let call = InputCapture::release(Some(&mut data), &OptionDict::new(), None).unwrap();
        assert_eq!(call.method(), "Release");
        assert_eq!(data.state, Some(SessionState::Disabled));
        assert!(InputCapture::enable(Some(&mut data)).is_ok());
    }
}

#[test]
fn release_reads_the_activation() {
    let mut dict = OptionDict::new();
    dict.insert("activation_id".to_string(), OwnedValue::from(41u32));
    let cursor = CursorPosition { x_bits: 1.5f64.to_bits(), y_bits: (-2.0f64).to_bits() };
    let mut data = session(Some(SessionState::Activated));
    match InputCapture::release(Some(&mut data), &dict, Some(cursor)) {
        Ok(CompositorCall::Release { session_id, activation_id, cursor_position }) => {
            assert_eq!(session_id, "comp-1");
            assert_eq!(activation_id, 41);
            assert_eq!(cursor_position, cursor);
        }
        _ => panic!("not released"),
    }
}

#[test]
fn release_defaults_to_zero() {
    let mut dict = OptionDict::new();
    dict.insert("activation_id".to_string(), OwnedValue::from(41i32));
    let mut data = SessionData::created(None);
    match InputCapture::release(Some(&mut data), &dict, None) {
        Ok(CompositorCall::Release { session_id, activation_id, cursor_position }) => {
            assert_eq!(session_id, "");
            assert_eq!(activation_id, 0);
            assert_eq!(f64::from_bits(cursor_position.x_bits), 0.0);
            assert_eq!(f64::from_bits(cursor_position.y_bits), 0.0);
            assert_eq!(cursor_position.x_bits, 0.0f64.to_bits());
        }
        _ => panic!("not released"),
    }
}

#[test]
fn a_long_course_keeps_the_session_sound() {
    let mut data = SessionData::created(Some("c".to_string()));
    let requests = vec![
        BarrierRequest { id: 1, position: Some((0, 0, 0, 10)) },
        BarrierRequest { id: 2, position: Some((0, 0, 5, 10)) },
    ];
    data.start(&options(Some(u32::MAX)));
    data.apply_zones(Some((9, vec![(1920, 1080, 0, 0)])));
    data.set_barriers(&requests, 9);
    data.enable().unwrap();
    data.disable().unwrap();
    data.release(None, None);
    data.close();
    assert_eq!(data.state, Some(SessionState::Disabled));
    assert_eq!(data.capabilities, 3);
    assert_eq!(data.barriers.len(), 1);
    assert_eq!(data.barriers[0].id, 1);
    assert_eq!(data.zone_set, 9);
    assert!(data.closed);
    assert_eq!(data.compositor_session_id.as_deref(), Some("c"));
}

#[test]
fn option_dict_keeps_each_key_once() {
    let mut dict = OptionDict::new();
    assert_eq!(dict.u32_at("a"), None);
    dict.insert("a".to_string(), OwnedValue::from(1u32));
    dict.insert("b".to_string(), OwnedValue::from(2u32));
    dict.insert("a".to_string(), OwnedValue::from(3u32));
    assert_eq!(dict.u32_at("a"), Some(3));
    assert_eq!(dict.u32_at("b"), Some(2));
    assert_eq!(dict.u32_at("c"), None);
    assert!(dict.get("b").is_some());
    let entries = dict.into_entries();
    assert_eq!(entries.len(), 2);
    assert_eq!(entries[0].0, "a");
    assert_eq!(entries[0].1, OwnedValue::from(3u32));
    assert_eq!(entries[1].0, "b");
}

#[test]
fn integers_are_read_by_exact_type() {
    let mut dict = OptionDict::new();
    dict.insert("u16".to_string(), OwnedValue::from(7u16));
    dict.insert("u64".to_string(), OwnedValue::from(7u64));
    dict.insert("i32".to_string(), OwnedValue::from(7i32));
    dict.insert("variant".to_string(), Value::Value(Box::new(Value::U32(7))).try_to_owned().unwrap());
    dict.insert("u32".to_string(), OwnedValue::from(7u32));
    for key in ["u16", "u64", "i32", "variant"] {
        assert_eq!(dict.u32_at(key), None);
    }
    assert_eq!(dict.u32_at("u32"), Some(7));
}
