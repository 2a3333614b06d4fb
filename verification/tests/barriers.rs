use input_capture::{
    check_requests, classify, read_requests, BarrierOutcome, BarrierRequest, CompositorCall,
    InputCapture, OptionDict, PortalResponse, SessionData,
};
use zbus::zvariant::{OwnedValue, Value};

fn request(id: u32, position: (i32, i32, i32, i32)) -> BarrierRequest {
    BarrierRequest { id, position: Some(position) }
}

fn position(value: Value<'_>) -> OwnedValue {
    value.try_to_owned().unwrap()
}

fn dict(id: Option<OwnedValue>, place: Option<OwnedValue>) -> OptionDict {
    let mut res = OptionDict::new();
    if let Some(id) = id {
        res.insert("barrier_id".to_string(), id);
    }
    if let Some(place) = place {
        res.insert("position".to_string(), place);
    }
    res
}

fn failures(outcome: &BarrierOutcome) -> Option<Vec<u32>> {
    match &outcome.reply {
        PortalResponse::Success(result) => Some(result.failed_barriers.clone()),
        PortalResponse::Other => None,
    }
}

#[test]
fn segments_are_accepted_in_order() {
    let (barriers, failed) = classify(&vec![
        request(3, (10, 0, 10, 1080)),
        request(1, (0, 5, 1920, 5)),
        request(3, (7, 7, 7, -7)),
    ]);
    assert!(failed.is_empty());
    assert_eq!(barriers.iter().map(|b| b.id).collect::<Vec<_>>(), vec![3, 1, 3]);
    assert_eq!((barriers[0].x1, barriers[0].y1, barriers[0].x2, barriers[0].y2), (10, 0, 10, 1080));
    assert_eq!((barriers[2].x1, barriers[2].y1, barriers[2].x2, barriers[2].y2), (7, 7, 7, -7));
}

#[test]
fn slanted_lines_points_and_missing_positions_fail() {
    let (barriers, failed) = classify(&vec![
        request(1, (0, 0, 1, 1)),
        request(2, (4, 4, 4, 4)),
        BarrierRequest { id: 3, position: None },
        request(4, (i32::MIN, 0, i32::MAX, 0)),
    ]);
    assert_eq!(failed, vec![1, 2, 3]);
    assert_eq!(barriers.len(), 1);
    assert_eq!(barriers[0].id, 4);
}

#[test]
fn requests_without_identifier_are_dropped() {
    let requests = vec![
        request(0, (0, 0, 0, 1)),
        BarrierRequest { id: 0, position: None },
        request(0, (0, 0, 1, 1)),
        request(9, (0, 0, 0, 1)),
        request(8, (0, 0, 0, 0)),
    ];
    let (barriers, failed) = classify(&requests);
    assert_eq!(barriers.len() + failed.len(), 2);
    assert_eq!(failed, vec![8]);
}

#[test]
fn barriers_need_the_last_zone_set() {
    let mut data = SessionData::created(Some("comp".to_string()));
    data.apply_zones(Some((4, vec![])));
    let refused = data.set_barriers(&vec![request(1, (0, 0, 0, 1))], 3);
    assert_eq!(failures(&refused), None);
    assert!(refused.call.is_none());
    assert!(data.barriers.is_empty());
    let outcome = data.set_barriers(&vec![request(1, (0, 0, 0, 1)), request(2, (0, 0, 2, 2))], 4);
    assert_eq!(failures(&outcome), Some(vec![2]));
    match outcome.call {
        Some(CompositorCall::SetBarriers { session_id, zone_set, barriers }) => {
            assert_eq!(session_id, "comp");
            assert_eq!(zone_set, 4);
            assert_eq!(barriers, vec![(1, (0, 0, 0, 1))]);
        }
        _ => panic!("nothing sent"),
    }
    data.set_barriers(&vec![request(5, (1, 1, 2, 1))], 4);
    assert_eq!(data.barriers.iter().map(|b| b.id).collect::<Vec<_>>(), vec![5]);
    data.apply_zones(Some((6, vec![])));
    assert_eq!(data.barriers.len(), 1);
    data.apply_zones(None);
    assert_eq!(data.zone_set, 6);
}

#[test]
fn requests_are_read_off_dictionaries() {
    let dicts = vec![
        dict(Some(OwnedValue::from(7u32)), Some(position(Value::from((1i32, 2i32, 1i32, 9i32))))),
        dict(Some(OwnedValue::from(7i32)), Some(position(Value::from((1i32, 2i32, 1i32, 9i32))))),
        dict(None, None),
        dict(Some(OwnedValue::from(8u32)), Some(OwnedValue::from(3u32))),
        dict(Some(OwnedValue::from(9u32)), Some(position(Value::from((1u32, 2u32, 1u32, 9u32))))),
        dict(
            Some(OwnedValue::from(10u32)),
            Some(position(Value::from((1i32, 2i32, 1i32, 9i32, "more")))),
        ),
        dict(Some(OwnedValue::from(11u32)), Some(position(Value::from((1i32, "two"))))),
    ];
    assert!(check_requests(&dicts));
    let requests = read_requests(&dicts);
    let four = Some((1, 2, 1, 9));
    assert_eq!(
        requests,
        vec![
            BarrierRequest { id: 7, position: four },
            BarrierRequest { id: 0, position: four },
            BarrierRequest { id: 0, position: None },
            BarrierRequest { id: 8, position: None },
            BarrierRequest { id: 9, position: None },
            BarrierRequest { id: 10, position: four },
            BarrierRequest { id: 11, position: None },
        ]
    );
}

#[test]
fn dictionaries_become_barriers() {
    let mut data = SessionData::created(None);
    let dicts = vec![
        dict(Some(OwnedValue::from(1u32)), Some(position(Value::from((0i32, 0i32, 0i32, 5i32))))),
        dict(Some(OwnedValue::from(2u32)), None),
        dict(None, Some(position(Value::from((0i32, 0i32, 0i32, 5i32))))),
    ];
    let outcome = InputCapture::set_pointer_barriers(Some(&mut data), &dicts, 0).unwrap();
    assert_eq!(failures(&outcome), Some(vec![2]));
    assert_eq!(data.barriers.len(), 1);
    assert_eq!(data.barriers[0].y2, 5);
    let refused = InputCapture::set_pointer_barriers(Some(&mut data), &dicts, 1).unwrap();
    assert_eq!(failures(&refused), None);
    assert_eq!(data.barriers.len(), 1);
    let missing = InputCapture::set_pointer_barriers(None, &dicts, 0).unwrap();
    assert_eq!(failures(&missing), None);
    assert!(missing.call.is_none());
}

#[test]
fn short_positions_are_turned_away() {
    let mut data = SessionData::created(None);
    let dicts = vec![dict(
        Some(OwnedValue::from(1u32)),
        Some(position(Value::from((0i32, 0i32, 0i32)))),
    )];
    assert!(!check_requests(&dicts));
    assert!(dicts[0].runs_out_at("position"));
    assert!(InputCapture::set_pointer_barriers(Some(&mut data), &dicts, 0).is_none());
    assert!(data.barriers.is_empty());
    // Neither a foreign zone set nor a missing session gets as far as the positions.
    assert!(InputCapture::set_pointer_barriers(Some(&mut data), &dicts, 5).is_some());
    assert!(InputCapture::set_pointer_barriers(None, &dicts, 0).is_some());
}
