//! What holds of the backend as a whole, over any course of events.
use vstd::prelude::*;
use zbus::zvariant::OwnedValue;
use crate::barrier::{accepted, accepted_barriers_are_valid, failed, BarrierRequest};
use crate::capability::{grants_are_the_supported_part, SUPPORTED_CAPABILITIES};
use crate::portal::{released_activation, InputCaptureView};
use crate::relay::{
    deactivation, disabling, relayed, Emission, PortalSignal, RelayAction, SignalView, StreamEvent,
};
use crate::reply::PortalResponse;
use crate::session::{BarrierOutcome, SessionEvent, SessionState, SessionView};
use crate::value::dict_u32;
use crate::wire::message_member;

verus! {

impl SessionView {
    /// The session after a course of events.
    pub open spec fn after_all(self, events: Seq<SessionEvent>) -> SessionView
        decreases events.len(),
    {
        if events.len() == 0 {
            self
        } else {
            self.after_all(events.drop_last()).after(events.last())
        }
    }

    /// What a session keeps to: its barriers are segments with an identifier, it holds no
    /// capability that is not supported, and it is created, started, armed or disarmed.
    pub open spec fn sound(self) -> bool {
        &&& forall|i: int| 0 <= i < self.barriers.len() ==> (#[trigger] self.barriers[i]).valid()
        &&& self.capabilities & SUPPORTED_CAPABILITIES == self.capabilities
        &&& self.state == Some(SessionState::Created) || self.state == Some(SessionState::Started)
            || self.state == Some(SessionState::Enabled) || self.state == Some(
            SessionState::Disabled,
        )
    }
}

/// No event takes a session out of what it keeps to.
pub proof fn every_event_keeps_a_session_sound(session: SessionView, event: SessionEvent)
    requires
        session.sound(),
    ensures
        session.after(event).sound(),
{
    match event {
        SessionEvent::Start { requested } => {
            grants_are_the_supported_part(requested);
        },
        SessionEvent::SetBarriers { requests, .. } => {
            accepted_barriers_are_valid(requests);
        },
        _ => {},
    }
}

/// Whatever happens to a session after it was created, it keeps to what a session keeps to,
/// and the compositor is addressed about it by the identifier that it was created under.
pub proof fn sessions_stay_sound(id: Option<Seq<char>>, events: Seq<SessionEvent>)
    ensures
        SessionView::created(id).after_all(events).sound(),
        SessionView::created(id).after_all(events).compositor_session_id == id,
        SessionView::created(id).after_all(events).target() == SessionView::created(id).target(),
    decreases events.len(),
{
    if events.len() == 0 {
        assert(0u32 & 3u32 == 0u32) by (bit_vector);
    } else {
        sessions_stay_sound(id, events.drop_last());
        every_event_keeps_a_session_sound(
            SessionView::created(id).after_all(events.drop_last()),
            events.last(),
        );
    }
}

/// A session that is not, or no longer, just created cannot be started any more, whatever
/// happens: it is started at most once.
pub proof fn a_session_is_started_at_most_once(session: SessionView, events: Seq<SessionEvent>)
    requires
        !session.may_start(),
    ensures
        !session.after_all(events).may_start(),
    decreases events.len(),
{
    if events.len() > 0 {
        a_session_is_started_at_most_once(session, events.drop_last());
    }
}

/// Starting, arming and releasing a session each take it out of the state in which it can
/// be started.
pub proof fn starting_closes_the_way_to_start(session: SessionView, requested: Option<u32>)
    ensures
        !session.after(SessionEvent::Start { requested }).may_start(),
        !session.after(SessionEvent::Enable).may_start(),
        !session.after(SessionEvent::Release).may_start(),
{
}

/// A closed session stays closed.
pub proof fn a_closed_session_stays_closed(session: SessionView, events: Seq<SessionEvent>)
    requires
        session.closed,
    ensures
        session.after_all(events).closed,
    decreases events.len(),
{
    if events.len() > 0 {
        a_closed_session_stays_closed(session, events.drop_last());
    }
}

/// The capabilities of a session change only when it is started, and its zone set only when
/// the compositor answers about zones.
pub proof fn capabilities_come_with_the_start(session: SessionView, event: SessionEvent)
    ensures
        !(event is Start) ==> session.after(event).capabilities == session.capabilities,
        !(event is Zones) ==> session.after(event).zone_set == session.zone_set,
        !(event is SetBarriers) ==> session.after(event).barriers == session.barriers,
        !(event is Close) ==> session.after(event).closed == session.closed,
{
}

/// A request that is refused leaves the session as it was.
pub proof fn refused_requests_change_nothing(
    session: SessionView,
    requested: Option<u32>,
    requests: Seq<BarrierRequest>,
    zone_set: u32,
)
    ensures
        !session.may_start() ==> session.after(SessionEvent::Start { requested }) == session,
        !session.may_enable() ==> session.after(SessionEvent::Enable) == session,
        !session.may_disable() ==> session.after(SessionEvent::Disable) == session,
        zone_set != session.zone_set ==> session.after(
            SessionEvent::SetBarriers { requests, zone_set },
        ) == session,
        session.after(SessionEvent::Zones { answered: None }) == session,
{
}

/// Capture that was armed can be disarmed and not armed again; capture that was disarmed
/// can be armed and not disarmed again. Disarming undoes arming.
pub proof fn disarming_undoes_arming(session: SessionView)
    requires
        session.may_enable(),
    ensures
        session.after(SessionEvent::Enable).may_disable(),
        !session.after(SessionEvent::Enable).may_enable(),
        session.after(SessionEvent::Enable).after(SessionEvent::Disable) == session.in_state(
            SessionState::Disabled,
        ),
        session.after(SessionEvent::Enable).after(SessionEvent::Disable).may_enable(),
        !session.after(SessionEvent::Enable).after(SessionEvent::Disable).may_disable(),
        session.state == Some(SessionState::Disabled) ==> session.after(SessionEvent::Enable).after(
            SessionEvent::Disable,
        ) == session,
{
}

/// A release disarms capture whatever the state, can be followed by arming it, and changes
/// nothing a second time.
pub proof fn a_release_disarms(session: SessionView)
    ensures
        session.after(SessionEvent::Release).may_enable(),
        !session.after(SessionEvent::Release).may_disable(),
        session.after(SessionEvent::Release).after(SessionEvent::Release) == session.after(
            SessionEvent::Release,
        ),
        session.may_disable() ==> session.after(SessionEvent::Release) == session.after(
            SessionEvent::Disable,
        ),
{
}

/// A session in the state `Started` accepts and refuses what one in the state `Disabled`
/// does.
pub proof fn started_is_like_disabled(session: SessionView)
    ensures
        session.in_state(SessionState::Started).may_start() == session.in_state(
            SessionState::Disabled,
        ).may_start(),
        session.in_state(SessionState::Started).may_enable() == session.in_state(
            SessionState::Disabled,
        ).may_enable(),
        session.in_state(SessionState::Started).may_disable() == session.in_state(
            SessionState::Disabled,
        ).may_disable(),
{
}

/// Barriers can be set for the zone set that the compositor answered last, and for no
/// other; they take the place of those set before, and later answers about zones leave
/// them in place.
pub proof fn barriers_belong_to_the_last_zone_set(
    session: SessionView,
    answered: u32,
    requests: Seq<BarrierRequest>,
    zone_set: u32,
    outcome: BarrierOutcome,
    later: Option<u32>,
)
    requires
        outcome.answers(
            session.after(SessionEvent::Zones { answered: Some(answered) }),
            requests,
            zone_set,
        ),
    ensures
        outcome.reply is Success <==> zone_set == answered,
        outcome.call is Some <==> zone_set == answered,
        outcome.reply matches PortalResponse::Success(result) ==> {
            let set = session.after(SessionEvent::Zones { answered: Some(answered) }).after(
                SessionEvent::SetBarriers { requests, zone_set },
            );
            &&& set.barriers == accepted(requests)
            &&& result.failed_barriers@ == failed(requests)
            &&& set.after(SessionEvent::Zones { answered: later }).barriers == set.barriers
        },
{
}

/// Setting barriers twice is setting the second ones.
pub proof fn barriers_are_replaced(
    session: SessionView,
    first: Seq<BarrierRequest>,
    second: Seq<BarrierRequest>,
    zone_set: u32,
)
    ensures
        session.after(SessionEvent::SetBarriers { requests: first, zone_set }).after(
            SessionEvent::SetBarriers { requests: second, zone_set },
        ) == session.after(SessionEvent::SetBarriers { requests: second, zone_set }),
{
}

/// A signal of the compositor about a session reaches the portal session that was created
/// under the session's identifier last.
pub proof fn signals_reach_their_session(
    backend: InputCaptureView,
    handle: Seq<char>,
    signal: SignalView,
    action: RelayAction,
)
    requires
        action.answers(
            backend.with_session(handle, Some(signal.session())).sessions,
            Some(signal),
        ),
    ensures
        action matches RelayAction::Emit(emission) && emission.passes_on(signal, handle),
{
}

/// The creation of another session leaves a signal on its way: to the portal session that
/// it had before, or to none. So does a creation to which the compositor gave no identifier.
pub proof fn other_sessions_do_not_interfere(
    backend: InputCaptureView,
    handle: Seq<char>,
    id: Option<Seq<char>>,
    signal: SignalView,
    action: RelayAction,
)
    requires
        id != Some(signal.session()),
    ensures
        action.answers(backend.with_session(handle, id).sessions, Some(signal))
            == action.answers(backend.sessions, Some(signal)),
        backend.with_relay().sessions == backend.sessions,
{
    if let Some(id) = id {
        assert(id != signal.session());
    }
}

/// No session is forgotten: a signal that is passed on is still passed on after other
/// sessions were created.
pub proof fn sessions_are_not_forgotten(
    backend: InputCaptureView,
    handle: Seq<char>,
    id: Option<Seq<char>>,
    known: Seq<char>,
)
    requires
        backend.sessions.contains_key(known),
    ensures
        backend.with_session(handle, id).sessions.contains_key(known),
        backend.with_relay().sessions.contains_key(known),
{
}

/// What can happen to the backend apart from its sessions.
pub enum BackendEvent {
    /// A session is created.
    Session { handle: Seq<char>, id: Option<Seq<char>> },
    /// The relay is asked for.
    Claim,
}

impl InputCaptureView {
    /// The backend after an event.
    pub open spec fn after(self, event: BackendEvent) -> InputCaptureView {
        match event {
            BackendEvent::Session { handle, id } => self.with_session(handle, id),
            BackendEvent::Claim => self.with_relay(),
        }
    }

    /// The backend after a course of events.
    pub open spec fn after_all(self, events: Seq<BackendEvent>) -> InputCaptureView
        decreases events.len(),
    {
        if events.len() == 0 {
            self
        } else {
            self.after_all(events.drop_last()).after(events.last())
        }
    }

    /// How often the relay is to be started over a course of events.
    pub open spec fn relay_starts(self, events: Seq<BackendEvent>) -> nat
        decreases events.len(),
    {
        if events.len() == 0 {
            0
        } else {
            self.relay_starts(events.drop_last()) + if events.last() is Claim && !self.after_all(
                events.drop_last(),
            ).relay_started {
                1nat
            } else {
                0nat
            }
        }
    }
}

/// Over any course of events the relay is started at most once: once if it was asked for at
/// all and had not been before, else never.
pub proof fn the_relay_is_started_once(backend: InputCaptureView, events: Seq<BackendEvent>)
    ensures
        backend.relay_starts(events) <= 1,
        backend.relay_starts(events) == 1 <==> !backend.relay_started && backend.after_all(
            events,
        ).relay_started,
        backend.after_all(events).relay_started <==> backend.relay_started || exists|i: int|
            0 <= i < events.len() && (#[trigger] events[i]) is Claim,
    decreases events.len(),
{
    if events.len() > 0 {
        let before = events.drop_last();
        the_relay_is_started_once(backend, before);
        assert forall|i: int| 0 <= i < before.len() implies #[trigger] before[i] == events[i] by {}
        if events.last() is Claim {
            assert(events[events.len() - 1] is Claim);
        }
        if exists|i: int| 0 <= i < before.len() && (#[trigger] before[i]) is Claim {
            let i = choose|i: int| 0 <= i < before.len() && (#[trigger] before[i]) is Claim;
            assert(events[i] is Claim);
        }
        if exists|i: int| 0 <= i < events.len() && (#[trigger] events[i]) is Claim {
            let i = choose|i: int| 0 <= i < events.len() && (#[trigger] events[i]) is Claim;
            assert(i < before.len() ==> before[i] is Claim);
        }
    }
}

/// One turn of the relay: an event of the stream, the sessions that are known when it is
/// decided about, and the arguments that are read off it if it is an activation.
pub struct RelayTurn<'a> {
    pub event: StreamEvent<'a>,
    pub sessions: Map<Seq<char>, Seq<char>>,
    pub activation: Option<SignalView>,
}

impl<'a> RelayTurn<'a> {
    /// The signal that the event brings, with its arguments; `None` where it brings none or
    /// its arguments cannot be read.
    pub open spec fn signal(self) -> Option<SignalView> {
        match self.event {
            StreamEvent::Message(message) => match relayed(message_member(*message)) {
                Some(PortalSignal::Activated) => self.activation,
                Some(PortalSignal::Deactivated) => deactivation(*message),
                Some(PortalSignal::Disabled) => disabling(*message),
                None => None,
            },
            StreamEvent::Failed => None,
            StreamEvent::Ended => None,
        }
    }

    /// The signal and the portal session that it goes to, where that is known.
    pub open spec fn delivery(self) -> Option<(SignalView, Seq<char>)> {
        match self.signal() {
            Some(signal) => if self.sessions.contains_key(signal.session()) {
                Some((signal, self.sessions[signal.session()]))
            } else {
                None
            },
            None => None,
        }
    }

    /// Whether `action` is what the turn comes to.
    pub open spec fn comes_to(self, action: RelayAction) -> bool {
        if self.event is Ended {
            action is Stop
        } else {
            action.answers(self.sessions, self.signal())
        }
    }
}

/// What is delivered over a course of turns, in order, up to the end of the stream.
pub open spec fn deliveries(turns: Seq<RelayTurn<'_>>) -> Seq<(SignalView, Seq<char>)>
    decreases turns.len(),
{
    if turns.len() == 0 || turns.first().event is Ended {
        Seq::empty()
    } else {
        let rest = deliveries(turns.drop_first());
        match turns.first().delivery() {
            Some(delivery) => seq![delivery] + rest,
            None => rest,
        }
    }
}

/// What is emitted over a course of actions, in order, up to the one that stops the relay.
pub open spec fn emissions(actions: Seq<RelayAction>) -> Seq<Emission>
    decreases actions.len(),
{
    if actions.len() == 0 {
        Seq::empty()
    } else {
        match actions.first() {
            RelayAction::Emit(emission) => seq![emission] + emissions(actions.drop_first()),
            RelayAction::Stop => Seq::empty(),
            _ => emissions(actions.drop_first()),
        }
    }
}

/// The first action on an event is what the turn comes to, unless it asks for the arguments
/// of an activation; then the action on these is.
pub proof fn every_turn_is_settled(turn: RelayTurn<'_>, first: RelayAction, second: RelayAction)
    requires
        first.decides(turn.sessions, turn.event),
        first is ReadActivation ==> second.answers(turn.sessions, turn.activation),
    ensures
        turn.comes_to(
            if first is ReadActivation {
                second
            } else {
                first
            },
        ),
{
}

/// Over any course of the relay, an event gives at most one emission, the emissions keep the
/// order of the events, each passes its signal on to the session that the signal is about,
/// none is left out, and nothing but the end of the stream stops the relay.
pub proof fn the_relay_keeps_the_order(turns: Seq<RelayTurn<'_>>, actions: Seq<RelayAction>)
    requires
        actions.len() == turns.len(),
        forall|i: int| 0 <= i < turns.len() ==> (#[trigger] turns[i]).comes_to(actions[i]),
    ensures
        forall|i: int|
            0 <= i < turns.len() ==> ((#[trigger] actions[i]) is Stop <==> turns[i].event is Ended),
        emissions(actions).len() == deliveries(turns).len(),
        emissions(actions).len() <= turns.len(),
        forall|k: int|
            0 <= k < emissions(actions).len() ==> (#[trigger] emissions(actions)[k]).passes_on(
                deliveries(turns)[k].0,
                deliveries(turns)[k].1,
            ),
    decreases turns.len(),
{
    assert forall|i: int| 0 <= i < turns.len() implies ((#[trigger] actions[i]) is Stop
        <==> turns[i].event is Ended) by {
        assert(turns[i].comes_to(actions[i]));
    }
    if turns.len() > 0 {
        let later_turns = turns.drop_first();
        let later_actions = actions.drop_first();
        assert forall|i: int| 0 <= i < later_turns.len() implies (
        #[trigger] later_turns[i]).comes_to(later_actions[i]) by {
            assert(turns[i + 1].comes_to(actions[i + 1]));
        }
        the_relay_keeps_the_order(later_turns, later_actions);
        assert(turns[0].comes_to(actions[0]));
        let rest = emissions(later_actions);
        assert forall|k: int| 0 <= k < emissions(actions).len() implies (
        #[trigger] emissions(actions)[k]).passes_on(
            deliveries(turns)[k].0,
            deliveries(turns)[k].1,
        ) by {
            if turns[0].delivery() is Some {
                if k > 0 {
                    assert(rest[k - 1].passes_on(
                        deliveries(later_turns)[k - 1].0,
                        deliveries(later_turns)[k - 1].1,
                    ));
                }
            } else {
                assert(rest[k].passes_on(deliveries(later_turns)[k].0, deliveries(later_turns)[k].1));
            }
        }
    }
}

/// The name of a portal signal stands for that signal, and for no other.
pub proof fn signal_names_are_distinct(signal: PortalSignal)
    ensures
        PortalSignal::titled(signal.title()) == Some(signal),
{
    reveal_strlit("Activated");
    reveal_strlit("Deactivated");
    reveal_strlit("Disabled");
    assert("Activated"@.len() == 9 && "Deactivated"@.len() == 11 && "Disabled"@.len() == 8);
}

/// A signal of the compositor goes out under its own name, but for the one that capture was
/// disarmed, which the compositor calls `DisabledSignal`: a member that is the name of a
/// portal signal is passed on exactly if it is not `Disabled`.
pub proof fn signals_keep_their_names(member: Seq<char>)
    ensures
        relayed(Some(member)) matches Some(signal) ==> signal.title() == member || (signal
            == PortalSignal::Disabled && member == "DisabledSignal"@),
        PortalSignal::titled(member) matches Some(signal) ==> relayed(Some(member)) == (if signal
            == PortalSignal::Disabled {
            None
        } else {
            Some(signal)
        }),
{
    reveal_strlit("Activated");
    reveal_strlit("Deactivated");
    reveal_strlit("Disabled");
    reveal_strlit("DisabledSignal");
    assert("Activated"@.len() == 9 && "Deactivated"@.len() == 11 && "Disabled"@.len() == 8
        && "DisabledSignal"@.len() == 14);
}

/// What an activation wrote into the options of the portal's signal is read back from there:
/// the activation, and the barrier where one was hit. A client that releases the capture with
/// the options that it got names the activation that began it.
pub proof fn activations_are_read_back(
    session_id: Seq<char>,
    barrier_id: u32,
    activation_id: u32,
    cursor_position: OwnedValue,
    options: Map<Seq<char>, OwnedValue>,
)
    requires
        (SignalView::Activated { session_id, barrier_id, activation_id, cursor_position }).carried_by(
            options,
        ),
    ensures
        dict_u32(options, "activation_id"@) == Some(activation_id),
        released_activation(options) == activation_id,
        dict_u32(options, "barrier_id"@) == (if barrier_id != 0 {
            Some(barrier_id)
        } else {
            None
        }),
        options.contains_key("cursor_position"@),
        options["cursor_position"@] == cursor_position,
{
    reveal_strlit("activation_id");
    reveal_strlit("cursor_position");
    reveal_strlit("barrier_id");
    assert("activation_id"@.len() == 13 && "cursor_position"@.len() == 15 && "barrier_id"@.len()
        == 10);
}

} // verus!
