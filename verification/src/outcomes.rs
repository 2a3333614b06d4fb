//! What each request comes to: what goes in, what comes out, and what is left behind.
use vstd::prelude::*;
use zbus::zvariant::OwnedValue;
use crate::barrier::{
    accepted, barriers_keep_the_order_of_requests, dictionaries_are_read_by_their_entries, failed,
    failures_keep_the_order_of_requests, requests_of, BarrierRequest,
};
use crate::capability::{
    grants_are_the_supported_part, CAPABILITY_KEYBOARD, CAPABILITY_POINTER,
    CAPABILITY_TOUCHSCREEN, SUPPORTED_CAPABILITIES,
};
use crate::compositor::{
    CompositorCall, CompositorCallView, CursorPosition, COMPOSITOR_INTERFACE, COMPOSITOR_PATH,
    COMPOSITOR_SERVICE,
};
use crate::portal::{
    creation_answer, released_activation, replied_session_id, replied_zones, EisOutcome,
    InputCaptureView,
};
use crate::relay::{relayed, DecodedSignal, PortalSignal, RelayAction, StreamEvent};
use crate::reply::{CreateSessionResult, GetZonesResult, MethodError, PortalResponse, StartResult};
use crate::session::{BarrierOutcome, SessionData, SessionEvent, SessionState, SessionView};
use crate::value::{held_fields, held_u32, OptionDict};
use crate::wire::{
    message_member, string_and_u32_body, string_body, string_structure_body, zones_body,
};

verus! {

/// A session that was just created is started by any request, whether or not it names
/// capabilities: it is then `Started`, can be armed and cannot be disarmed, and holds the
/// keyboard and the pointer as far as the request named them, or both where it named none.
/// A session in any other state is not started. Nothing else of a session changes.
pub proof fn starting_readies_a_session(
    session: SessionView,
    requested: Option<u32>,
    after: SessionView,
    res: PortalResponse<StartResult>,
)
    requires
        session.starts_to(requested, after, res),
    ensures
        res is Success <==> session.state == Some(SessionState::Created),
        res matches PortalResponse::Success(result) ==> {
            &&& after.state == Some(SessionState::Started)
            &&& after.may_enable()
            &&& !after.may_disable()
            &&& !after.may_start()
            &&& result.capabilities == after.capabilities
            &&& requested matches Some(capabilities) ==> result.capabilities == capabilities % 4
            &&& requested is None ==> result.capabilities == 3
        },
        res is Other ==> after.state == session.state && after.capabilities
            == session.capabilities,
        after.barriers == session.barriers,
        after.zone_set == session.zone_set,
        after.closed == session.closed,
        after.compositor_session_id == session.compositor_session_id,
{
    grants_are_the_supported_part(requested);
}

/// A request to arm capture is accepted on a session that was created, started or disarmed,
/// and on no other. It leaves the session armed and tells the compositor's session, by its
/// identifier, or by the empty one where the compositor gave none. A refused request leaves
/// the session as it was.
pub proof fn arming_takes_a_session_that_is_not_armed(
    session: SessionView,
    after: SessionView,
    res: Result<CompositorCall, MethodError>,
)
    requires
        session.enables_to(after, res),
    ensures
        res is Ok <==> (session.state == Some(SessionState::Created) || session.state == Some(
            SessionState::Started,
        ) || session.state == Some(SessionState::Disabled)),
        res matches Ok(call) ==> after.state == Some(SessionState::Enabled) && (
        call matches CompositorCall::Enable { session_id } && (match session.compositor_session_id {
            Some(id) => session_id@ == id,
            None => session_id@.len() == 0,
        })),
        res matches Err(error) ==> after.state == session.state && error is InvalidState,
        after.capabilities == session.capabilities,
        after.barriers == session.barriers,
        after.zone_set == session.zone_set,
        after.closed == session.closed,
        after.compositor_session_id == session.compositor_session_id,
{
}

/// A request to disarm capture is accepted on an armed session and on no other. It leaves
/// the session disarmed and tells the compositor's session. A refused request leaves the
/// session as it was.
pub proof fn disarming_takes_an_armed_session(
    session: SessionView,
    after: SessionView,
    res: Result<CompositorCall, MethodError>,
)
    requires
        session.disables_to(after, res),
    ensures
        res is Ok <==> session.state == Some(SessionState::Enabled),
        res matches Ok(call) ==> after.state == Some(SessionState::Disabled) && (
        call matches CompositorCall::Disable { session_id } && (match session.compositor_session_id {
            Some(id) => session_id@ == id,
            None => session_id@.len() == 0,
        })),
        res matches Err(error) ==> after.state == session.state && error is InvalidState,
        after.capabilities == session.capabilities,
        after.barriers == session.barriers,
        after.zone_set == session.zone_set,
        after.closed == session.closed,
        after.compositor_session_id == session.compositor_session_id,
{
}

/// A release names to the compositor the activation that its options hold as an unsigned
/// integer, whatever else they hold or lack, and 0 where they hold none. It names the cursor
/// position that was given, or the origin, and leaves the session disarmed, whatever its
/// state was. Nothing else of the session changes.
pub proof fn releases_name_their_activation(
    session: SessionView,
    options: Map<Seq<char>, OwnedValue>,
    cursor: Option<CursorPosition>,
    after: SessionView,
    call: CompositorCall,
)
    requires
        session.releases_to(Some(released_activation(options)), cursor, after, call),
    ensures
        call matches CompositorCall::Release { session_id, activation_id, cursor_position } && {
            &&& options.contains_key("activation_id"@) && held_u32(
                options["activation_id"@],
            ) is Some ==> held_u32(options["activation_id"@]) == Some(activation_id)
            &&& !options.contains_key("activation_id"@) || held_u32(
                options["activation_id"@],
            ) is None ==> activation_id == 0
            &&& cursor matches Some(position) ==> cursor_position == position
            &&& cursor is None ==> cursor_position.x_bits == 0 && cursor_position.y_bits == 0
            &&& match session.compositor_session_id {
                Some(id) => session_id@ == id,
                None => session_id@.len() == 0,
            }
        },
        after.state == Some(SessionState::Disabled),
        after.capabilities == session.capabilities,
        after.barriers == session.barriers,
        after.zone_set == session.zone_set,
        after.closed == session.closed,
        after.compositor_session_id == session.compositor_session_id,
{
}

/// Two releases whose options agree on `activation_id` name the same activation.
pub proof fn other_options_do_not_touch_the_activation(
    options: Map<Seq<char>, OwnedValue>,
    key: Seq<char>,
    value: OwnedValue,
)
    requires
        key != "activation_id"@,
    ensures
        released_activation(options.insert(key, value)) == released_activation(options),
        released_activation(options.remove(key)) == released_activation(options),
{
}

/// A release that is not told an activation names 0, and one that is told an activation
/// names it.
pub proof fn a_release_is_told_its_activation(
    session: SessionView,
    told: Option<u32>,
    cursor: Option<CursorPosition>,
    after: SessionView,
    call: CompositorCall,
)
    requires
        session.releases_to(told, cursor, after, call),
    ensures
        call matches CompositorCall::Release { activation_id, .. } && {
            &&& told matches Some(id) ==> activation_id == id
            &&& told is None ==> activation_id == 0
        },
{
}

/// The zones that the compositor's reply holds are answered in full, with their zone set, and
/// the session takes over the zone set, however many zones there are. Where there is no reply
/// or it cannot be read, the request fails and the zone set stays. Nothing else of the
/// session changes.
pub proof fn zones_are_answered_in_full(
    session: SessionView,
    reply: Option<&zbus::Message>,
    after: SessionView,
    res: PortalResponse<GetZonesResult>,
)
    requires
        session.zones_to(replied_zones(reply), after, res),
    ensures
        res is Success <==> (reply matches Some(message) && zones_body(*message) is Some),
        res matches PortalResponse::Success(result) ==> {
            &&& reply matches Some(message) && zones_body(*message) == Some(
                (result.zone_set, result.zones@),
            )
            &&& after.zone_set == result.zone_set
        },
        res is Other ==> after.zone_set == session.zone_set,
        after.state == session.state,
        after.capabilities == session.capabilities,
        after.barriers == session.barriers,
        after.closed == session.closed,
        after.compositor_session_id == session.compositor_session_id,
{
}

/// A request for barriers that refers to the session's zone set sends to the compositor the
/// requests with an identifier that ask for an axis-aligned segment of positive length, each
/// with the very identifier and end points asked for, in the order of the requests, and no
/// other; the session keeps the same ones. The indices of these requests are returned.
pub proof fn sent_barriers_are_those_requested(
    session: SessionView,
    requests: Seq<BarrierRequest>,
    zone_set: u32,
    after: SessionView,
    outcome: BarrierOutcome,
) -> (origin: Seq<int>)
    requires
        zone_set == session.zone_set,
        session.barriers_to(requests, zone_set, after, outcome),
    ensures
        outcome.call matches Some(call) && (call matches CompositorCall::SetBarriers {
            session_id,
            zone_set: sent_zone_set,
            barriers,
        } && {
            &&& match session.compositor_session_id {
                Some(id) => session_id@ == id,
                None => session_id@.len() == 0,
            }
            &&& sent_zone_set == zone_set
            &&& barriers@.len() == origin.len()
            &&& forall|k: int|
                0 <= k < origin.len() ==> {
                    &&& barriers@[k].0 == requests[#[trigger] origin[k]].id
                    &&& Some(barriers@[k].1) == requests[origin[k]].position
                    &&& barriers@[k].0 != 0
                    &&& (barriers@[k].1.0 == barriers@[k].1.2) != (barriers@[k].1.1
                        == barriers@[k].1.3)
                    &&& after.barriers[k].id == barriers@[k].0
                    &&& after.barriers[k].x1 == barriers@[k].1.0
                    &&& after.barriers[k].y1 == barriers@[k].1.1
                    &&& after.barriers[k].x2 == barriers@[k].1.2
                    &&& after.barriers[k].y2 == barriers@[k].1.3
                }
        }),
        after.barriers.len() == origin.len(),
        forall|k: int| 0 <= k < origin.len() ==> 0 <= #[trigger] origin[k] < requests.len(),
        forall|k: int, l: int| 0 <= k < l < origin.len() ==> #[trigger] origin[k] < #[trigger] origin[l],
        forall|i: int|
            0 <= i < requests.len() && (#[trigger] requests[i]).id != 0 && (
            requests[i].position matches Some((x1, y1, x2, y2)) && (x1 == x2) != (y1 == y2))
                ==> origin.contains(i),
{
    let origin = barriers_keep_the_order_of_requests(requests);
    assert(after.barriers == accepted(requests));
    origin
}

/// A request for barriers that refers to the session's zone set is answered with the
/// identifiers of the requests that ask for no position, a slanted line or a single point, in
/// the order of the requests; requests without an identifier are passed over. The indices of
/// the requests that failed are returned.
pub proof fn failed_barriers_are_reported(
    session: SessionView,
    requests: Seq<BarrierRequest>,
    zone_set: u32,
    after: SessionView,
    outcome: BarrierOutcome,
) -> (origin: Seq<int>)
    requires
        zone_set == session.zone_set,
        session.barriers_to(requests, zone_set, after, outcome),
    ensures
        outcome.reply matches PortalResponse::Success(result) && {
            &&& result.failed_barriers@.len() == origin.len()
            &&& forall|k: int|
                0 <= k < origin.len() ==> {
                    &&& result.failed_barriers@[k] == requests[#[trigger] origin[k]].id
                    &&& result.failed_barriers@[k] != 0
                    &&& requests[origin[k]].position matches Some((x1, y1, x2, y2)) ==> (x1 == x2)
                        == (y1 == y2)
                }
        },
        forall|k: int| 0 <= k < origin.len() ==> 0 <= #[trigger] origin[k] < requests.len(),
        forall|k: int, l: int| 0 <= k < l < origin.len() ==> #[trigger] origin[k] < #[trigger] origin[l],
        forall|i: int|
            0 <= i < requests.len() && (#[trigger] requests[i]).id != 0 && (
            requests[i].position matches Some((x1, y1, x2, y2)) ==> (x1 == x2) == (y1 == y2))
                ==> origin.contains(i),
{
    let origin = failures_keep_the_order_of_requests(requests);
    assert(outcome.reply->Success_0.failed_barriers@ == failed(requests));
    origin
}

/// A request for barriers succeeds and is sent on exactly if it refers to the session's zone
/// set; else the session keeps its barriers. Whether or not, nothing else of the session
/// changes.
pub proof fn barriers_need_the_zone_set(
    session: SessionView,
    requests: Seq<BarrierRequest>,
    zone_set: u32,
    after: SessionView,
    outcome: BarrierOutcome,
)
    requires
        session.barriers_to(requests, zone_set, after, outcome),
    ensures
        outcome.reply is Success <==> zone_set == session.zone_set,
        outcome.call is Some <==> zone_set == session.zone_set,
        zone_set != session.zone_set ==> after.barriers == session.barriers,
        after.state == session.state,
        after.capabilities == session.capabilities,
        after.zone_set == session.zone_set,
        after.closed == session.closed,
        after.compositor_session_id == session.compositor_session_id,
{
}

/// A dictionary that holds an identifier other than 0 and a position that begins with the end
/// points of an axis-aligned segment of positive length becomes a barrier: the compositor is
/// sent that identifier with these end points.
pub proof fn dictionaries_become_barriers(
    session: SessionView,
    dicts: Seq<OptionDict>,
    after: SessionView,
    outcome: BarrierOutcome,
    i: int,
    barrier: (u32, (i32, i32, i32, i32)),
    fields: Seq<Option<i32>>,
)
    requires
        session.barriers_to(requests_of(dicts), session.zone_set, after, outcome),
        0 <= i < dicts.len(),
        dicts[i]@.contains_key("barrier_id"@),
        held_u32(dicts[i]@["barrier_id"@]) == Some(barrier.0),
        barrier.0 != 0,
        dicts[i]@.contains_key("position"@),
        held_fields(dicts[i]@["position"@]) == Some(fields),
        fields.len() >= 4,
        fields.take(4) == seq![
            Some(barrier.1.0),
            Some(barrier.1.1),
            Some(barrier.1.2),
            Some(barrier.1.3),
        ],
        (barrier.1.0 == barrier.1.2) != (barrier.1.1 == barrier.1.3),
    ensures
        outcome.call matches Some(call) && (call matches CompositorCall::SetBarriers {
            barriers,
            ..
        } && barriers@.contains(barrier)),
{
    let requests = requests_of(dicts);
    dictionaries_are_read_by_their_entries(dicts, i);
    let (x1, y1, x2, y2) = barrier.1;
    assert(requests[i].position == Some((x1, y1, x2, y2)));
    let origin = sent_barriers_are_those_requested(
        session,
        requests,
        session.zone_set,
        after,
        outcome,
    );
    assert(origin.contains(i));
    let k = choose|k: int| 0 <= k < origin.len() && origin[k] == i;
    assert(outcome.call->0->SetBarriers_barriers@[k] == barrier);
}

/// Closing a session marks it as closed and changes nothing else.
pub proof fn closing_only_marks(session: SessionView)
    ensures
        session.after(SessionEvent::Close).closed,
        session.after(SessionEvent::Close).state == session.state,
        session.after(SessionEvent::Close).capabilities == session.capabilities,
        session.after(SessionEvent::Close).barriers == session.barriers,
        session.after(SessionEvent::Close).zone_set == session.zone_set,
        session.after(SessionEvent::Close).compositor_session_id == session.compositor_session_id,
{
}

/// A session is armed after a course of events exactly if a request to arm it was accepted on
/// the way and neither a request to disarm it nor a release came after that one. No other
/// event arms a session, a start least of all.
pub proof fn only_arming_arms(session: SessionView, events: Seq<SessionEvent>)
    requires
        session.state != Some(SessionState::Enabled),
    ensures
        session.after_all(events).state == Some(SessionState::Enabled) <==> exists|i: int|
            0 <= i < events.len() && (#[trigger] events[i]) is Enable && session.after_all(
                events.take(i),
            ).may_enable() && forall|j: int|
                i < j < events.len() ==> !((#[trigger] events[j]) is Disable)
                    && !(events[j] is Release),
    decreases events.len(),
{
    if events.len() > 0 {
        let before = events.drop_last();
        let n = events.len() - 1;
        only_arming_arms(session, before);
        assert(events.take(n) =~= before);
        assert forall|i: int| 0 <= i < n implies #[trigger] before[i] == events[i] && before.take(i)
            == events.take(i) by {
            assert(before.take(i) =~= events.take(i));
        }
        if session.after_all(events).state == Some(SessionState::Enabled) {
            if session.after_all(before).state == Some(SessionState::Enabled) {
                let i = choose|i: int|
                    0 <= i < before.len() && (#[trigger] before[i]) is Enable && session.after_all(
                        before.take(i),
                    ).may_enable() && forall|j: int|
                        i < j < before.len() ==> !((#[trigger] before[j]) is Disable)
                            && !(before[j] is Release);
                assert(events[i] is Enable);
                assert forall|j: int| i < j < events.len() implies !((
                #[trigger] events[j]) is Disable) && !(events[j] is Release) by {
                    if j < n {
                        assert(before[j] == events[j]);
                    }
                }
            } else {
                assert(events[n] is Enable);
            }
        }
        if exists|i: int|
            0 <= i < events.len() && (#[trigger] events[i]) is Enable && session.after_all(
                events.take(i),
            ).may_enable() && forall|j: int|
                i < j < events.len() ==> !((#[trigger] events[j]) is Disable)
                    && !(events[j] is Release) {
            let i = choose|i: int|
                0 <= i < events.len() && (#[trigger] events[i]) is Enable && session.after_all(
                    events.take(i),
                ).may_enable() && forall|j: int|
                    i < j < events.len() ==> !((#[trigger] events[j]) is Disable)
                        && !(events[j] is Release);
            if i < n {
                assert(before[i] is Enable);
                assert forall|j: int| i < j < before.len() implies !((
                #[trigger] before[j]) is Disable) && !(before[j] is Release) by {
                    assert(before[j] == events[j]);
                }
                assert(events[n] == events.last());
            }
        }
    }
}

/// A session is created in any case, with nothing set, under the identifier that the
/// compositor's reply holds. The backend then finds it under that identifier and finds every
/// other session where it was; a reply that is missing or cannot be read leaves the backend
/// as it was.
pub proof fn created_sessions_are_found(
    backend: InputCaptureView,
    handle: Seq<char>,
    reply: Option<&zbus::Message>,
    after: InputCaptureView,
    session: SessionView,
)
    requires
        backend.creates(handle, replied_session_id(reply), after, session),
    ensures
        session.state == Some(SessionState::Created),
        session.capabilities == 0,
        session.barriers.len() == 0,
        session.zone_set == 0,
        !session.closed,
        reply matches Some(message) ==> session.compositor_session_id == string_body(*message),
        reply is None ==> session.compositor_session_id is None,
        session.compositor_session_id matches Some(id) ==> after.sessions.contains_key(id)
            && after.sessions[id] == handle,
        forall|id: Seq<char>|
            session.compositor_session_id != Some(id) ==> (
            #[trigger] after.sessions.contains_key(id) <==> backend.sessions.contains_key(id)),
        forall|id: Seq<char>|
            session.compositor_session_id != Some(id) && backend.sessions.contains_key(id) ==> (
            #[trigger] after.sessions[id]) == backend.sessions[id],
        after.relay_started == backend.relay_started,
{
}

/// The relay is to be started when it is asked for and was not before; asking for it again
/// starts nothing. Neither touches a session.
pub proof fn claims_are_remembered(
    backend: InputCaptureView,
    once: InputCaptureView,
    first: bool,
    twice: InputCaptureView,
    second: bool,
)
    requires
        backend.claims(once, first),
        once.claims(twice, second),
    ensures
        first <==> !backend.relay_started,
        !second,
        once.relay_started,
        twice.relay_started,
        once.sessions == backend.sessions,
        twice.sessions == backend.sessions,
{
}

/// The answer to the creation of a session names the session, and the keyboard and the pointer
/// as what it can capture.
pub proof fn creations_name_their_session(
    handle: Seq<char>,
    res: PortalResponse<CreateSessionResult>,
)
    requires
        creation_answer(handle, res),
    ensures
        res matches PortalResponse::Success(result) && result.session_id@ == handle
            && result.capabilities == 3,
{
}

/// The compositor is asked for zones and for an event connection by its own identifier of the
/// session, or by the empty one where it gave none.
pub proof fn the_compositor_is_asked_by_its_identifier(session: SessionView, call: CompositorCall)
    ensures
        session.asks_for_zones(call) ==> (call matches CompositorCall::GetZones { session_id }
            && match session.compositor_session_id {
            Some(id) => session_id@ == id,
            None => session_id@.len() == 0,
        }),
        session.asks_for_events(call) ==> (call matches CompositorCall::ConnectToEis { session_id }
            && match session.compositor_session_id {
            Some(id) => session_id@ == id,
            None => session_id@.len() == 0,
        }),
{
}

/// A request for an event connection is answered with a descriptor exactly if the compositor
/// gave that one. A reason that the compositor gave for refusing stands in full at the end of
/// the text that the caller gets to see.
pub proof fn descriptors_are_handed_on<F>(outcome: EisOutcome<F>, res: Result<F, MethodError>)
    requires
        outcome.settles(res),
    ensures
        forall|descriptor: F|
            res == Ok::<F, MethodError>(descriptor) <==> outcome == EisOutcome::Descriptor(
                descriptor,
            ),
        outcome is NoConnection ==> (res matches Err(error) && error.text()
            == "No compositor connection"@),
        outcome matches EisOutcome::CallFailed(reason) ==> (res matches Err(error)
            && error.text().skip("Compositor ConnectToEIS: "@.len() as int) == reason@),
        outcome matches EisOutcome::BadReply(reason) ==> (res matches Err(error)
            && error.text().skip("fd deserialize: "@.len() as int) == reason@),
{
    if let Err(error) = res {
        reasons_are_passed_on_in_full(error);
    }
}

/// A message that a capture ended, whose body is the identifier of a compositor session and
/// an activation, is passed on to the portal session of that session with that activation,
/// whatever it is, and with nothing else. It is skipped where the session is not known or
/// the body cannot be read.
pub proof fn deactivations_are_passed_on(
    sessions: Map<Seq<char>, Seq<char>>,
    message: zbus::Message,
    action: RelayAction,
)
    requires
        action.decides(sessions, StreamEvent::Message(&message)),
        message_member(message) == Some("Deactivated"@),
    ensures
        string_and_u32_body(message) is None ==> action is Skip,
        string_and_u32_body(message) matches Some((session_id, activation_id)) ==> {
            &&& !sessions.contains_key(session_id) ==> action is Skip
            &&& sessions.contains_key(session_id) ==> (action matches RelayAction::Emit(emission)
                && {
                &&& emission.signal == PortalSignal::Deactivated
                &&& emission.session_handle@ == sessions[session_id]
                &&& held_u32(emission.options@["activation_id"@]) == Some(activation_id)
                &&& forall|key: Seq<char>| #[trigger]
                    emission.options@.contains_key(key) <==> key == "activation_id"@
            })
        },
{
    lemma_members_differ();
}

/// A message that capture was disarmed, whose body is the identifier of a compositor session,
/// is passed on to the portal session of that session without options. It is skipped where
/// the session is not known or the body cannot be read.
pub proof fn disablings_are_passed_on(
    sessions: Map<Seq<char>, Seq<char>>,
    message: zbus::Message,
    action: RelayAction,
)
    requires
        action.decides(sessions, StreamEvent::Message(&message)),
        message_member(message) == Some("DisabledSignal"@),
    ensures
        string_structure_body(message) is None ==> action is Skip,
        string_structure_body(message) matches Some(session_id) ==> {
            &&& !sessions.contains_key(session_id) ==> action is Skip
            &&& sessions.contains_key(session_id) ==> (action matches RelayAction::Emit(emission)
                && {
                &&& emission.signal == PortalSignal::Disabled
                &&& emission.session_handle@ == sessions[session_id]
                &&& forall|key: Seq<char>| !#[trigger] emission.options@.contains_key(key)
            })
        },
{
    lemma_members_differ();
}

/// A message that a capture began is to be read; every other message than the three is
/// skipped, and so is an error; the end of the stream stops the relay.
pub proof fn other_messages_are_skipped(
    sessions: Map<Seq<char>, Seq<char>>,
    event: StreamEvent<'_>,
    action: RelayAction,
)
    requires
        action.decides(sessions, event),
    ensures
        action is Stop <==> event is Ended,
        action is ReadActivation <==> (event matches StreamEvent::Message(message)
            && message_member(*message) == Some("Activated"@)),
        event is Failed ==> action is Skip,
        event matches StreamEvent::Message(message) ==> (message_member(*message) != Some(
            "Activated"@,
        ) && message_member(*message) != Some("Deactivated"@) && message_member(*message) != Some(
            "DisabledSignal"@,
        ) ==> action is Skip),
{
    lemma_members_differ();
}

/// A capture that began on a compositor session is passed on to the portal session of that
/// session, with the activation and the cursor position that were read, and with the barrier
/// where one was hit. It is skipped where the session is not known.
pub proof fn activations_are_passed_on(
    sessions: Map<Seq<char>, Seq<char>>,
    session_id: String,
    barrier_id: u32,
    activation_id: u32,
    cursor_position: OwnedValue,
    action: RelayAction,
)
    requires
        action.answers(
            sessions,
            Some(
                (DecodedSignal::Activated {
                    session_id,
                    barrier_id,
                    activation_id,
                    cursor_position,
                })@,
            ),
        ),
    ensures
        !sessions.contains_key(session_id@) ==> action is Skip,
        sessions.contains_key(session_id@) ==> (action matches RelayAction::Emit(emission) && {
            &&& emission.signal == PortalSignal::Activated
            &&& emission.session_handle@ == sessions[session_id@]
            &&& held_u32(emission.options@["activation_id"@]) == Some(activation_id)
            &&& emission.options@["cursor_position"@] == cursor_position
            &&& barrier_id != 0 ==> held_u32(emission.options@["barrier_id"@]) == Some(barrier_id)
            &&& forall|key: Seq<char>| #[trigger]
                emission.options@.contains_key(key) <==> key == "activation_id"@ || key
                    == "cursor_position"@ || (key == "barrier_id"@ && barrier_id != 0)
        }),
{
}

/// The end of a capture and the end of its readiness are passed on by what was read, as an
/// activation is; a signal that could not be read is skipped.
pub proof fn read_signals_are_passed_on(
    sessions: Map<Seq<char>, Seq<char>>,
    session_id: String,
    activation_id: u32,
    action: RelayAction,
)
    ensures
        action.answers(sessions, None) ==> action is Skip,
        action.answers(
            sessions,
            Some((DecodedSignal::Deactivated { session_id, activation_id })@),
        ) ==> {
            &&& !sessions.contains_key(session_id@) ==> action is Skip
            &&& sessions.contains_key(session_id@) ==> (action matches RelayAction::Emit(emission)
                && {
                &&& emission.signal == PortalSignal::Deactivated
                &&& emission.session_handle@ == sessions[session_id@]
                &&& held_u32(emission.options@["activation_id"@]) == Some(activation_id)
                &&& forall|key: Seq<char>| #[trigger]
                    emission.options@.contains_key(key) <==> key == "activation_id"@
            })
        },
        action.answers(sessions, Some((DecodedSignal::Disabled { session_id })@)) ==> {
            &&& !sessions.contains_key(session_id@) ==> action is Skip
            &&& sessions.contains_key(session_id@) ==> (action matches RelayAction::Emit(emission)
                && {
                &&& emission.signal == PortalSignal::Disabled
                &&& emission.session_handle@ == sessions[session_id@]
                &&& forall|key: Seq<char>| !#[trigger] emission.options@.contains_key(key)
            })
        },
{
}

/// The members that the compositor's signals name differ.
proof fn lemma_members_differ()
    ensures
        "Activated"@ != "Deactivated"@,
        "Activated"@ != "DisabledSignal"@,
        "Deactivated"@ != "DisabledSignal"@,
{
    reveal_strlit("Activated");
    reveal_strlit("Deactivated");
    reveal_strlit("DisabledSignal");
    assert("Activated"@.len() == 9 && "Deactivated"@.len() == 11 && "DisabledSignal"@.len() == 14);
}

/// Three members of the compositor stand for a signal of the portal, and no other does; three
/// names are those of the portal's signals, and no other is.
pub proof fn three_signals_are_known(name: Seq<char>)
    ensures
        relayed(Some(name)) == Some(PortalSignal::Activated) <==> name == "Activated"@,
        relayed(Some(name)) == Some(PortalSignal::Deactivated) <==> name == "Deactivated"@,
        relayed(Some(name)) == Some(PortalSignal::Disabled) <==> name == "DisabledSignal"@,
        relayed(None) is None,
        PortalSignal::titled(name) == Some(PortalSignal::Activated) <==> name == "Activated"@,
        PortalSignal::titled(name) == Some(PortalSignal::Deactivated) <==> name == "Deactivated"@,
        PortalSignal::titled(name) == Some(PortalSignal::Disabled) <==> name == "Disabled"@,
        PortalSignal::titled(name) matches Some(signal) ==> signal.title() == name,
{
    lemma_members_differ();
    reveal_strlit("Activated");
    reveal_strlit("Deactivated");
    reveal_strlit("Disabled");
    assert("Activated"@.len() == 9 && "Deactivated"@.len() == 11 && "Disabled"@.len() == 8);
}

/// The view of a session shows what its fields hold.
pub proof fn a_session_is_seen_as_it_is(data: SessionData)
    ensures
        data@.state == data.state,
        data@.capabilities == data.capabilities,
        data@.barriers == data.barriers@,
        data@.zone_set == data.zone_set,
        data@.closed == data.closed,
        data@.compositor_session_id is Some <==> data.compositor_session_id is Some,
        data.compositor_session_id matches Some(id) ==> data@.compositor_session_id == Some(id@),
        data@.target() == (match data.compositor_session_id {
            Some(id) => id@,
            None => Seq::<char>::empty(),
        }),
{
}

/// The view of a call shows the method, the session and the arguments that the call holds.
pub proof fn a_call_is_seen_as_it_is(call: CompositorCall)
    ensures
        match call {
            CompositorCall::CreateSession { capabilities } => {
                &&& call@ matches CompositorCallView::CreateSession { capabilities: seen } && seen
                    == capabilities
                &&& call@.method() == "CreateSession"@
                &&& call@.session() is None
            },
            CompositorCall::GetZones { session_id } => {
                &&& call@ matches CompositorCallView::GetZones { session_id: seen } && seen
                    == session_id@
                &&& call@.method() == "GetZones"@
                &&& call@.session() == Some(session_id@)
            },
            CompositorCall::SetBarriers { session_id, zone_set, barriers } => {
                &&& call@ matches CompositorCallView::SetBarriers {
                    session_id: seen,
                    zone_set: seen_zone_set,
                    barriers: seen_barriers,
                } && seen == session_id@ && seen_zone_set == zone_set && seen_barriers == barriers@
                &&& call@.method() == "SetBarriers"@
                &&& call@.session() == Some(session_id@)
            },
            CompositorCall::Enable { session_id } => {
                &&& call@ matches CompositorCallView::Enable { session_id: seen } && seen
                    == session_id@
                &&& call@.method() == "Enable"@
                &&& call@.session() == Some(session_id@)
            },
            CompositorCall::Disable { session_id } => {
                &&& call@ matches CompositorCallView::Disable { session_id: seen } && seen
                    == session_id@
                &&& call@.method() == "Disable"@
                &&& call@.session() == Some(session_id@)
            },
            CompositorCall::Release { session_id, activation_id, cursor_position } => {
                &&& call@ matches CompositorCallView::Release {
                    session_id: seen,
                    activation_id: seen_activation,
                    cursor_position: seen_position,
                } && seen == session_id@ && seen_activation == activation_id && seen_position
                    == cursor_position
                &&& call@.method() == "Release"@
                &&& call@.session() == Some(session_id@)
            },
            CompositorCall::ConnectToEis { session_id } => {
                &&& call@ matches CompositorCallView::ConnectToEis { session_id: seen } && seen
                    == session_id@
                &&& call@.method() == "ConnectToEIS"@
                &&& call@.session() == Some(session_id@)
            },
        },
{
}

/// The reason that the compositor gave stands in full at the end of the text, behind what
/// went wrong; the other errors have a fixed text.
pub proof fn reasons_are_passed_on_in_full(error: MethodError)
    ensures
        error is SessionNotFound ==> error.text() == "Session not found"@,
        error is InvalidState ==> error.text() == "Invalid session state"@,
        error is NoCompositor ==> error.text() == "No compositor connection"@,
        error matches MethodError::ConnectRefused(reason) ==> {
            let lead = "Compositor ConnectToEIS: "@;
            &&& error.text().len() == lead.len() + reason@.len()
            &&& error.text().take(lead.len() as int) == lead
            &&& error.text().skip(lead.len() as int) == reason@
        },
        error matches MethodError::NoDescriptor(reason) ==> {
            let lead = "fd deserialize: "@;
            &&& error.text().len() == lead.len() + reason@.len()
            &&& error.text().take(lead.len() as int) == lead
            &&& error.text().skip(lead.len() as int) == reason@
        },
{
    if let MethodError::ConnectRefused(reason) = error {
        let lead = "Compositor ConnectToEIS: "@;
        assert(error.text().take(lead.len() as int) =~= lead);
        assert(error.text().skip(lead.len() as int) =~= reason@);
    }
    if let MethodError::NoDescriptor(reason) = error {
        let lead = "fd deserialize: "@;
        assert(error.text().take(lead.len() as int) =~= lead);
        assert(error.text().skip(lead.len() as int) =~= reason@);
    }
}

/// The bits of the capabilities and the address of the compositor are those of the
/// interfaces.
pub proof fn the_interfaces_fix_the_numbers_and_names()
    ensures
        CAPABILITY_KEYBOARD == 1,
        CAPABILITY_POINTER == 2,
        CAPABILITY_TOUCHSCREEN == 4,
        SUPPORTED_CAPABILITIES == 3,
        COMPOSITOR_SERVICE@ == "org.cosmic.InputCapture"@,
        COMPOSITOR_PATH@ == "/org/cosmic/InputCapture"@,
        COMPOSITOR_INTERFACE@ == "org.cosmic.InputCapture"@,
{
}

} // verus!
