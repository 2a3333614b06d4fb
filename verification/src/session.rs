//! One capture session and its life cycle.
use vstd::prelude::*;
use crate::barrier::{
    accepted, classify, failed, forward, forwarded, readable, read_requests, requests_of, Barrier,
    BarrierRequest,
};
use crate::capability::{grant, granted};
use crate::compositor::{CompositorCall, CompositorCallView, CursorPosition};
use crate::reply::{
    GetZonesResult, MethodError, PortalResponse, SetPointerBarriersResult, StartOptions,
    StartResult,
};
use crate::value::OptionDict;
use crate::wire::Zone;

verus! {

/// Where a session stands.
#[derive(Debug, Clone, Copy, PartialEq, Eq, Structural)]
pub enum SessionState {
    Created,
    Started,
    Enabled,
    Disabled,
    Activated,
}

/// What is kept of one session.
#[derive(Debug)]
pub struct SessionData {
    pub state: Option<SessionState>,
    pub capabilities: u32,
    pub barriers: Vec<Barrier>,
    pub zone_set: u32,
    pub closed: bool,
    /// The compositor's identifier for the session, where it gave one.
    pub compositor_session_id: Option<String>,
}

/// The content of a session.
#[verifier::ext_equal]
pub struct SessionView {
    pub state: Option<SessionState>,
    pub capabilities: u32,
    pub barriers: Seq<Barrier>,
    pub zone_set: u32,
    pub closed: bool,
    pub compositor_session_id: Option<Seq<char>>,
}

/// The content of an optional string.
pub open spec fn optional_text(text: Option<String>) -> Option<Seq<char>> {
    match text {
        Some(text) => Some(text@),
        None => None,
    }
}

impl View for SessionData {
    type V = SessionView;

    open spec fn view(&self) -> SessionView {
        SessionView {
            state: self.state,
            capabilities: self.capabilities,
            barriers: self.barriers@,
            zone_set: self.zone_set,
            closed: self.closed,
            compositor_session_id: optional_text(self.compositor_session_id),
        }
    }
}

impl SessionView {
    /// A session of which nothing is known yet.
    pub open spec fn blank() -> SessionView {
        SessionView {
            state: None,
            capabilities: 0,
            barriers: Seq::empty(),
            zone_set: 0,
            closed: false,
            compositor_session_id: None,
        }
    }

    /// A session just created, under the compositor's identifier for it.
    pub open spec fn created(compositor_session_id: Option<Seq<char>>) -> SessionView {
        SessionView {
            state: Some(SessionState::Created),
            compositor_session_id,
            ..SessionView::blank()
        }
    }

    /// The identifier by which the compositor is addressed about the session: empty where
    /// the compositor gave none.
    pub open spec fn target(self) -> Seq<char> {
        match self.compositor_session_id {
            Some(id) => id,
            None => Seq::empty(),
        }
    }

    /// A session can be started once, right after it was created.
    pub open spec fn may_start(self) -> bool {
        self.state == Some(SessionState::Created)
    }

    /// Capture can be armed while it is not, also on a session that was never started.
    pub open spec fn may_enable(self) -> bool {
        ||| self.state == Some(SessionState::Disabled)
        ||| self.state == Some(SessionState::Started)
        ||| self.state == Some(SessionState::Created)
    }

    /// Capture can be disarmed while it is armed.
    pub open spec fn may_disable(self) -> bool {
        self.state == Some(SessionState::Enabled)
    }

    /// The session with another state.
    pub open spec fn in_state(self, state: SessionState) -> SessionView {
        SessionView { state: Some(state), ..self }
    }
}

/// What can happen to a session.
pub enum SessionEvent {
    /// A request to start, with the capabilities that it names.
    Start { requested: Option<u32> },
    /// The compositor's answer about zones: the zone set, where it could be had.
    Zones { answered: Option<u32> },
    /// A request to set barriers that refers to a zone set.
    SetBarriers { requests: Seq<BarrierRequest>, zone_set: u32 },
    /// A request to arm capture.
    Enable,
    /// A request to disarm capture.
    Disable,
    /// A request to end a capture.
    Release,
    /// The end of the session.
    Close,
}

impl SessionView {
    /// The session after an event. A request that is refused changes nothing.
    pub open spec fn after(self, event: SessionEvent) -> SessionView {
        match event {
            SessionEvent::Start { requested } => if self.may_start() {
                SessionView {
                    capabilities: granted(requested),
                    ..self.in_state(SessionState::Started)
                }
            } else {
                self
            },
            SessionEvent::Zones { answered } => match answered {
                Some(zone_set) => SessionView { zone_set, ..self },
                None => self,
            },
            SessionEvent::SetBarriers { requests, zone_set } => if zone_set == self.zone_set {
                SessionView { barriers: accepted(requests), ..self }
            } else {
                self
            },
            SessionEvent::Enable => if self.may_enable() {
                self.in_state(SessionState::Enabled)
            } else {
                self
            },
            SessionEvent::Disable => if self.may_disable() {
                self.in_state(SessionState::Disabled)
            } else {
                self
            },
            SessionEvent::Release => self.in_state(SessionState::Disabled),
            SessionEvent::Close => SessionView { closed: true, ..self },
        }
    }
}

impl SessionView {
    /// A request to start leaves the session as `after` and is answered with `res`.
    pub open spec fn starts_to(
        self,
        requested: Option<u32>,
        after: SessionView,
        res: PortalResponse<StartResult>,
    ) -> bool {
        &&& after == self.after(SessionEvent::Start { requested })
        &&& match res {
            PortalResponse::Success(result) => self.may_start() && result.capabilities == granted(
                requested,
            ),
            PortalResponse::Other => !self.may_start(),
        }
    }

    /// A request for the zones that the compositor answered with `answer` leaves the session
    /// as `after` and is answered with `res`.
    pub open spec fn zones_to(
        self,
        answer: Option<(u32, Seq<Zone>)>,
        after: SessionView,
        res: PortalResponse<GetZonesResult>,
    ) -> bool {
        match answer {
            Some((zone_set, zones)) => {
                &&& after == self.after(SessionEvent::Zones { answered: Some(zone_set) })
                &&& res matches PortalResponse::Success(result) && result.zone_set == zone_set
                    && result.zones@ == zones
            },
            None => after == self.after(SessionEvent::Zones { answered: None }) && res is Other,
        }
    }

    /// A request to set barriers leaves the session as `after` and has the outcome `outcome`.
    pub open spec fn barriers_to(
        self,
        requests: Seq<BarrierRequest>,
        zone_set: u32,
        after: SessionView,
        outcome: BarrierOutcome,
    ) -> bool {
        &&& after == self.after(SessionEvent::SetBarriers { requests, zone_set })
        &&& outcome.answers(self, requests, zone_set)
    }

    /// A request to arm capture leaves the session as `after` and comes to `res`.
    pub open spec fn enables_to(
        self,
        after: SessionView,
        res: Result<CompositorCall, MethodError>,
    ) -> bool {
        &&& after == self.after(SessionEvent::Enable)
        &&& match res {
            Ok(call) => self.may_enable() && call@ == (CompositorCallView::Enable {
                session_id: self.target(),
            }),
            Err(error) => !self.may_enable() && error is InvalidState,
        }
    }

    /// A request to disarm capture leaves the session as `after` and comes to `res`.
    pub open spec fn disables_to(
        self,
        after: SessionView,
        res: Result<CompositorCall, MethodError>,
    ) -> bool {
        &&& after == self.after(SessionEvent::Disable)
        &&& match res {
            Ok(call) => self.may_disable() && call@ == (CompositorCallView::Disable {
                session_id: self.target(),
            }),
            Err(error) => !self.may_disable() && error is InvalidState,
        }
    }

    /// The call `call` asks the compositor for the zones of the session.
    pub open spec fn asks_for_zones(self, call: CompositorCall) -> bool {
        call@ == (CompositorCallView::GetZones { session_id: self.target() })
    }

    /// The call `call` asks the compositor for an event connection of the session.
    pub open spec fn asks_for_events(self, call: CompositorCall) -> bool {
        call@ == (CompositorCallView::ConnectToEis { session_id: self.target() })
    }

    /// A release leaves the session as `after` and sends `call`.
    pub open spec fn releases_to(
        self,
        activation_id: Option<u32>,
        cursor_position: Option<CursorPosition>,
        after: SessionView,
        call: CompositorCall,
    ) -> bool {
        &&& after == self.after(SessionEvent::Release)
        &&& call@ == (CompositorCallView::Release {
            session_id: self.target(),
            activation_id: match activation_id {
                Some(id) => id,
                None => 0,
            },
            cursor_position: match cursor_position {
                Some(position) => position,
                None => CursorPosition::at_origin(),
            },
        })
    }
}

/// The outcome of a request to set barriers: the answer, and what goes to the compositor.
#[derive(Debug)]
pub struct BarrierOutcome {
    pub reply: PortalResponse<SetPointerBarriersResult>,
    pub call: Option<CompositorCall>,
}

impl BarrierOutcome {
    /// The outcome on a session: a request for the session's zone set succeeds, names the
    /// failed barriers and sends the others on; any other request fails and sends nothing.
    pub open spec fn answers(
        self,
        session: SessionView,
        requests: Seq<BarrierRequest>,
        zone_set: u32,
    ) -> bool {
        if zone_set == session.zone_set {
            &&& self.reply matches PortalResponse::Success(result)
                && result.failed_barriers@ == failed(requests)
            &&& self.call matches Some(call) && call@ == (CompositorCallView::SetBarriers {
                session_id: session.target(),
                zone_set,
                barriers: forwarded(accepted(requests)),
            })
        } else {
            self.reply is Other && self.call is None
        }
    }
}

impl Default for SessionData {
    fn default() -> (res: SessionData)
        ensures
            res@ == SessionView::blank(),
    {
        SessionData {
            state: None,
            capabilities: 0,
            barriers: Vec::new(),
            zone_set: 0,
            closed: false,
            compositor_session_id: None,
        }
    }
}

impl SessionData {
    /// Marks the session as closed.
    pub fn close(&mut self)
        ensures
            final(self)@ == old(self)@.after(SessionEvent::Close),
            final(self)@ == (SessionView { closed: true, ..old(self)@ }),
    {
        self.closed = true;
    }

    /// A new session under the compositor's identifier for it.
    pub fn created(compositor_session_id: Option<String>) -> (res: SessionData)
        ensures
            res@ == SessionView::created(optional_text(compositor_session_id)),
    {
        let blank = SessionData::default();
        SessionData { state: Some(SessionState::Created), compositor_session_id, ..blank }
    }

    /// The identifier by which the compositor is addressed about the session.
    pub fn target(&self) -> (res: String)
        ensures
            res@ == self@.target(),
    {
        match &self.compositor_session_id {
            Some(id) => id.clone(),
            None => String::new(),
        }
    }

    /// Starts the session: grants the supported part of the requested capabilities and goes
    /// to the state `Started`. Only a session that was just created can be started.
    pub fn start(&mut self, options: &StartOptions) -> (res: PortalResponse<StartResult>)
        ensures
            final(self)@ == old(self)@.after(
                SessionEvent::Start { requested: options.capabilities },
            ),
            match res {
                PortalResponse::Success(result) => old(self)@.may_start() && result.capabilities
                    == granted(options.capabilities),
                PortalResponse::Other => !old(self)@.may_start(),
            },
            old(self)@.starts_to(options.capabilities, final(self)@, res),
            res is Success <==> old(self).state == Some(SessionState::Created),
            res is Success ==> final(self).state == Some(SessionState::Started),
            res is Other ==> final(self).state == old(self).state,
            res matches PortalResponse::Success(result) ==> {
                &&& result.capabilities == final(self).capabilities
                &&& options.capabilities matches Some(requested) ==> result.capabilities
                    == requested % 4
                &&& options.capabilities is None ==> result.capabilities == 3
            },
    {
        match self.state {
            Some(SessionState::Created) => {
                self.capabilities = grant(options.capabilities);
                self.state = Some(SessionState::Started);
                PortalResponse::Success(StartResult { capabilities: self.capabilities })
            },
            _ => PortalResponse::Other,
        }
    }

    /// Takes in the compositor's answer about zones, `None` where it could not be had.
    pub fn apply_zones(&mut self, answer: Option<(u32, Vec<Zone>)>) -> (res: PortalResponse<
        GetZonesResult,
    >)
        ensures
            final(self)@ == old(self)@.after(
                SessionEvent::Zones {
                    answered: match answer {
                        Some(answer) => Some(answer.0),
                        None => None,
                    },
                },
            ),
            match answer {
                Some(answer) => res matches PortalResponse::Success(result) && result.zone_set
                    == answer.0 && result.zones@ == answer.1@,
                None => res is Other,
            },
            old(self)@.zones_to(
                match answer {
                    Some(answer) => Some((answer.0, answer.1@)),
                    None => None,
                },
                final(self)@,
                res,
            ),
            final(self).zone_set == (match answer {
                Some(answer) => answer.0,
                None => old(self).zone_set,
            }),
    {
        match answer {
            Some((zone_set, zones)) => {
                self.zone_set = zone_set;
                PortalResponse::Success(GetZonesResult { zones, zone_set })
            },
            None => PortalResponse::Other,
        }
    }

    /// Replaces the barriers of the session by those among the requests that are valid, if
    /// the request refers to the session's zone set.
    pub fn set_barriers(&mut self, requests: &Vec<BarrierRequest>, zone_set: u32) -> (res:
        BarrierOutcome)
        ensures
            final(self)@ == old(self)@.after(
                SessionEvent::SetBarriers { requests: requests@, zone_set },
            ),
            res.answers(old(self)@, requests@, zone_set),
            old(self)@.barriers_to(requests@, zone_set, final(self)@, res),
    {
        if zone_set != self.zone_set {
            return BarrierOutcome { reply: PortalResponse::Other, call: None };
        }
        let (valid_barriers, failed_barriers) = classify(requests);
        let barriers = forward(&valid_barriers);
        self.barriers = valid_barriers;
        let session_id = self.target();
        BarrierOutcome {
            reply: PortalResponse::Success(SetPointerBarriersResult { failed_barriers }),
            call: Some(CompositorCall::SetBarriers { session_id, zone_set, barriers }),
        }
    }

    /// Reads requests for barriers off dictionaries and sets them. The dictionaries are not
    /// looked at if the request refers to another zone set than the session's.
    pub fn set_pointer_barriers(&mut self, barriers: &Vec<OptionDict>, zone_set: u32) -> (res:
        BarrierOutcome)
        requires
            zone_set == old(self).zone_set ==> readable(barriers@),
        ensures
            final(self)@ == old(self)@.after(
                SessionEvent::SetBarriers { requests: requests_of(barriers@), zone_set },
            ),
            res.answers(old(self)@, requests_of(barriers@), zone_set),
            old(self)@.barriers_to(requests_of(barriers@), zone_set, final(self)@, res),
    {
        if zone_set != self.zone_set {
            return BarrierOutcome { reply: PortalResponse::Other, call: None };
        }
        let requests = read_requests(barriers);
        self.set_barriers(&requests, zone_set)
    }

    /// Arms capture and tells the compositor.
    pub fn enable(&mut self) -> (res: Result<CompositorCall, MethodError>)
        ensures
            final(self)@ == old(self)@.after(SessionEvent::Enable),
            match res {
                Ok(call) => old(self)@.may_enable() && call@ == (CompositorCallView::Enable {
                    session_id: old(self)@.target(),
                }),
                Err(error) => !old(self)@.may_enable() && error is InvalidState,
            },
            old(self)@.enables_to(final(self)@, res),
            res is Ok <==> (old(self).state == Some(SessionState::Created) || old(self).state
                == Some(SessionState::Started) || old(self).state == Some(SessionState::Disabled)),
            res is Ok ==> final(self).state == Some(SessionState::Enabled),
            res is Err ==> final(self).state == old(self).state,
    {
        match self.state {
            Some(SessionState::Disabled) | Some(SessionState::Started) | Some(
                SessionState::Created,
            ) => {
                self.state = Some(SessionState::Enabled);
                Ok(CompositorCall::Enable { session_id: self.target() })
            },
            _ => Err(MethodError::InvalidState),
        }
    }

    /// Disarms capture and tells the compositor.
    pub fn disable(&mut self) -> (res: Result<CompositorCall, MethodError>)
        ensures
            final(self)@ == old(self)@.after(SessionEvent::Disable),
            match res {
                Ok(call) => old(self)@.may_disable() && call@ == (CompositorCallView::Disable {
                    session_id: old(self)@.target(),
                }),
                Err(error) => !old(self)@.may_disable() && error is InvalidState,
            },
            old(self)@.disables_to(final(self)@, res),
            res is Ok <==> old(self).state == Some(SessionState::Enabled),
            res is Ok ==> final(self).state == Some(SessionState::Disabled),
            res is Err ==> final(self).state == old(self).state,
    {
        match self.state {
            Some(SessionState::Enabled) => {
                self.state = Some(SessionState::Disabled);
                Ok(CompositorCall::Disable { session_id: self.target() })
            },
            _ => Err(MethodError::InvalidState),
        }
    }

    /// Ends a capture in whatever state the session is, and tells the compositor which
    /// activation ends and where the cursor goes: 0 and the origin where that is not said.
    pub fn release(
        &mut self,
        activation_id: Option<u32>,
        cursor_position: Option<CursorPosition>,
    ) -> (res: CompositorCall)
        ensures
            final(self)@ == old(self)@.after(SessionEvent::Release),
            res@ == (CompositorCallView::Release {
                session_id: old(self)@.target(),
                activation_id: match activation_id {
                    Some(id) => id,
                    None => 0,
                },
                cursor_position: match cursor_position {
                    Some(position) => position,
                    None => CursorPosition::at_origin(),
                },
            }),
            old(self)@.releases_to(activation_id, cursor_position, final(self)@, res),
            final(self).state == Some(SessionState::Disabled),
    {
        self.state = Some(SessionState::Disabled);
        let activation_id = match activation_id {
            Some(id) => id,
            None => 0,
        };
        let cursor_position = match cursor_position {
            Some(position) => position,
            None => CursorPosition::origin(),
        };
        CompositorCall::Release { session_id: self.target(), activation_id, cursor_position }
    }
}

} // verus!
