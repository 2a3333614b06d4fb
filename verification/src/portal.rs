//! The portal backend: one decision for each method that a frontend can call.
use vstd::prelude::*;
use zbus::zvariant::OwnedValue;
use crate::barrier::{check_requests, readable, requests_of};
use crate::capability::{
    granted, supported, CAPABILITY_KEYBOARD, CAPABILITY_POINTER, SUPPORTED_CAPABILITIES,
};
use crate::compositor::{CompositorCall, CompositorCallView, CursorPosition};
use crate::relay::SessionMap;
use crate::reply::{
    CreateSessionResult, GetZonesResult, MethodError, PortalResponse, StartOptions, StartResult,
};
use crate::session::{
    optional_text, BarrierOutcome, SessionData, SessionEvent, SessionView,
};
use crate::value::{dict_u32, held_u32, OptionDict};
use crate::wire::{read_string, read_zones, string_body, zones_body, Zone};

verus! {

/// What the backend keeps apart from the sessions themselves.
pub struct InputCapture {
    session_map: SessionMap,
    relay_started: bool,
}

/// The content of an [`InputCapture`].
#[verifier::ext_equal]
pub struct InputCaptureView {
    /// The portal session of each compositor session.
    pub sessions: Map<Seq<char>, Seq<char>>,
    /// Whether the relay of compositor signals was asked for.
    pub relay_started: bool,
}

impl View for InputCapture {
    type V = InputCaptureView;

    closed spec fn view(&self) -> InputCaptureView {
        InputCaptureView { sessions: self.session_map@, relay_started: self.relay_started }
    }
}

impl InputCaptureView {
    /// The backend after a session was created: the portal session `handle` is found under
    /// the compositor's identifier, where the compositor gave one.
    pub open spec fn with_session(self, handle: Seq<char>, id: Option<Seq<char>>) -> InputCaptureView {
        match id {
            Some(id) => InputCaptureView { sessions: self.sessions.insert(id, handle), ..self },
            None => self,
        }
    }

    /// The backend after its relay was asked for.
    pub open spec fn with_relay(self) -> InputCaptureView {
        InputCaptureView { relay_started: true, ..self }
    }
}

/// The compositor's identifier of a session, as its reply gives it; `None` where there is no
/// reply or it cannot be read.
pub open spec fn replied_session_id(reply: Option<&zbus::Message>) -> Option<Seq<char>> {
    match reply {
        Some(message) => string_body(*message),
        None => None,
    }
}

impl InputCaptureView {
    /// The creation of the session `handle`, under the compositor's identifier `id` where it
    /// gave one, leaves the backend as `after` and makes the session `session`.
    pub open spec fn creates(
        self,
        handle: Seq<char>,
        id: Option<Seq<char>>,
        after: InputCaptureView,
        session: SessionView,
    ) -> bool {
        after == self.with_session(handle, id) && session == SessionView::created(id)
    }

    /// Asking for the relay leaves the backend as `after`; `first` says whether the relay is
    /// to be started.
    pub open spec fn claims(self, after: InputCaptureView, first: bool) -> bool {
        first == !self.relay_started && after == self.with_relay()
    }
}

/// The zones of the compositor, as its reply gives them; `None` where there is no reply or it
/// cannot be read.
pub open spec fn replied_zones(reply: Option<&zbus::Message>) -> Option<(u32, Seq<Zone>)> {
    match reply {
        Some(message) => zones_body(*message),
        None => None,
    }
}

/// The activation that a release names in its options; 0 where it names none.
pub open spec fn released_activation(options: Map<Seq<char>, OwnedValue>) -> u32 {
    match dict_u32(options, "activation_id"@) {
        Some(id) => id,
        None => 0,
    }
}

/// How asking the compositor for an event connection went; `F` is a file descriptor.
pub enum EisOutcome<F> {
    NoConnection,
    CallFailed(String),
    BadReply(String),
    Descriptor(F),
}

impl<F> EisOutcome<F> {
    /// The request for an event connection that went so is answered with `res`.
    pub open spec fn settles(self, res: Result<F, MethodError>) -> bool {
        match self {
            EisOutcome::NoConnection => res matches Err(error) && error is NoCompositor,
            EisOutcome::CallFailed(reason) => res matches Err(error) && error
                == MethodError::ConnectRefused(reason),
            EisOutcome::BadReply(reason) => res matches Err(error) && error
                == MethodError::NoDescriptor(reason),
            EisOutcome::Descriptor(descriptor) => res == Ok::<F, MethodError>(descriptor),
        }
    }
}

/// The creation of the session `handle` is answered with `res`.
pub open spec fn creation_answer(
    handle: Seq<char>,
    res: PortalResponse<CreateSessionResult>,
) -> bool {
    res matches PortalResponse::Success(result) && result.session_id@ == handle
        && result.capabilities == SUPPORTED_CAPABILITIES
}

impl InputCapture {
    /// A backend without sessions whose relay was not asked for.
    pub fn new() -> (res: InputCapture)
        ensures
            res@.sessions == Map::<Seq<char>, Seq<char>>::empty(),
            !res@.relay_started,
    {
        InputCapture { session_map: SessionMap::new(), relay_started: false }
    }

    /// The capabilities that sessions can be granted.
    pub fn supported_capabilities(&self) -> (res: u32)
        ensures
            res == SUPPORTED_CAPABILITIES,
            res == CAPABILITY_KEYBOARD | CAPABILITY_POINTER,
    {
        supported()
    }

    /// The version of the portal interface.
    pub fn version(&self) -> (res: u32)
        ensures
            res == 2,
    {
        2
    }

    /// The portal sessions by compositor session.
    pub fn sessions(&self) -> (res: &SessionMap)
        ensures
            res@ == self@.sessions,
    {
        &self.session_map
    }

    /// The call that creates a session on the compositor.
    pub fn create_session_call() -> (res: CompositorCall)
        ensures
            res@ == (CompositorCallView::CreateSession { capabilities: SUPPORTED_CAPABILITIES }),
    {
        CompositorCall::CreateSession { capabilities: supported() }
    }

    /// Creates the session `session_handle`, under the compositor's identifier for it.
    pub fn create_session_with_id(
        &mut self,
        session_handle: &str,
        compositor_session_id: Option<String>,
    ) -> (res: SessionData)
        ensures
            final(self)@ == old(self)@.with_session(
                session_handle@,
                optional_text(compositor_session_id),
            ),
            res@ == SessionView::created(optional_text(compositor_session_id)),
            old(self)@.creates(
                session_handle@,
                optional_text(compositor_session_id),
                final(self)@,
                res@,
            ),
    {
        if let Some(id) = &compositor_session_id {
            self.session_map.insert(id.clone(), session_handle.to_string());
        }
        SessionData::created(compositor_session_id)
    }

    /// Creates the session `session_handle` after the compositor was asked to: `reply` is
    /// its reply, `None` where it could not be reached or refused. The session is created in
    /// any case.
    pub fn create_session(&mut self, session_handle: &str, reply: Option<&zbus::Message>) -> (res:
        SessionData)
        ensures
            final(self)@ == old(self)@.with_session(session_handle@, replied_session_id(reply)),
            res@ == SessionView::created(replied_session_id(reply)),
            old(self)@.creates(session_handle@, replied_session_id(reply), final(self)@, res@),
            reply matches Some(message) ==> res@.compositor_session_id == string_body(*message),
            reply is None ==> res@.compositor_session_id is None,
    {
        let compositor_session_id = match reply {
            Some(message) => read_string(message),
            None => None,
        };
        self.create_session_with_id(session_handle, compositor_session_id)
    }

    /// Asks for the relay of compositor signals: the first time, and only then, it is to be
    /// started.
    pub fn claim_relay(&mut self) -> (res: bool)
        ensures
            res == !old(self)@.relay_started,
            final(self)@ == old(self)@.with_relay(),
            old(self)@.claims(final(self)@, res),
    {
        let first = !self.relay_started;
        self.relay_started = true;
        first
    }

    /// The answer to the creation of the session `session_handle`.
    pub fn create_session_reply(session_handle: &str) -> (res: PortalResponse<CreateSessionResult>)
        ensures
            res matches PortalResponse::Success(result) && result.session_id@ == session_handle@
                && result.capabilities == SUPPORTED_CAPABILITIES,
            creation_answer(session_handle@, res),
    {
        PortalResponse::Success(
            CreateSessionResult {
                session_id: session_handle.to_string(),
                capabilities: supported(),
            },
        )
    }

    /// Starts the session that was found, if one was.
    pub fn start(session: Option<&mut SessionData>, options: &StartOptions) -> (res: PortalResponse<
        StartResult,
    >)
        ensures
            session matches Some(data) ==> final(data)@ == data@.after(
                SessionEvent::Start { requested: options.capabilities },
            ),
            match res {
                PortalResponse::Success(result) => session matches Some(data) && data@.may_start()
                    && result.capabilities == granted(options.capabilities),
                PortalResponse::Other => session matches Some(data) ==> !data@.may_start(),
            },
            session matches Some(data) ==> data@.starts_to(
                options.capabilities,
                final(data)@,
                res,
            ),
    {
        match session {
            Some(data) => data.start(options),
            None => PortalResponse::Other,
        }
    }

    /// The call that asks for the zones of the session that was found; the request fails if
    /// there is none.
    pub fn get_zones_call(session: Option<&SessionData>) -> (res: Option<CompositorCall>)
        ensures
            match session {
                Some(data) => res matches Some(call) && call@ == (CompositorCallView::GetZones {
                    session_id: data@.target(),
                }),
                None => res is None,
            },
            res matches Some(call) ==> session matches Some(data) && call@.session() == Some(
                data@.target(),
            ),
            res matches Some(call) ==> session matches Some(data) && data@.asks_for_zones(call),
    {
        match session {
            Some(data) => Some(CompositorCall::GetZones { session_id: data.target() }),
            None => None,
        }
    }

    /// Answers a request for the zones of the session that was found, if one was, with the
    /// compositor's reply, `None` where it could not be reached or refused.
    pub fn get_zones(session: Option<&mut SessionData>, reply: Option<&zbus::Message>) -> (res:
        PortalResponse<GetZonesResult>)
        ensures
            session matches Some(data) ==> final(data)@ == data@.after(
                SessionEvent::Zones {
                    answered: match replied_zones(reply) {
                        Some(zones) => Some(zones.0),
                        None => None,
                    },
                },
            ),
            match res {
                PortalResponse::Success(result) => session is Some && (replied_zones(
                    reply,
                ) matches Some(zones) && result.zone_set == zones.0 && result.zones@ == zones.1),
                PortalResponse::Other => session is None || replied_zones(reply) is None,
            },
            session matches Some(data) ==> data@.zones_to(replied_zones(reply), final(data)@, res),
            res is Success <==> session is Some && (reply matches Some(message) && zones_body(
                *message,
            ) is Some),
            res matches PortalResponse::Success(result) ==> reply matches Some(message)
                && zones_body(*message) == Some((result.zone_set, result.zones@)),
            session matches Some(data) ==> final(data).zone_set == (match res {
                PortalResponse::Success(result) => result.zone_set,
                PortalResponse::Other => data.zone_set,
            }),
    {
        match session {
            Some(data) => {
                let answer = match reply {
                    Some(message) => read_zones(message),
                    None => None,
                };
                data.apply_zones(answer)
            },
            None => PortalResponse::Other,
        }
    }

    /// Sets the barriers of the session that was found, if one was. `None` is returned, and
    /// the session left as it is, where a barrier would have to be read off a position that
    /// runs out.
    pub fn set_pointer_barriers(
        session: Option<&mut SessionData>,
        barriers: &Vec<OptionDict>,
        zone_set: u32,
    ) -> (res: Option<BarrierOutcome>)
        ensures
            res is None <==> (session matches Some(data) && zone_set == data.zone_set && !readable(
                barriers@,
            )),
            session matches Some(data) ==> final(data)@ == (if res is None {
                data@
            } else {
                data@.after(
                    SessionEvent::SetBarriers { requests: requests_of(barriers@), zone_set },
                )
            }),
            res matches Some(outcome) ==> match session {
                Some(data) => outcome.answers(data@, requests_of(barriers@), zone_set),
                None => outcome.reply is Other && outcome.call is None,
            },
            res matches Some(outcome) ==> (session matches Some(data) ==> data@.barriers_to(
                requests_of(barriers@),
                zone_set,
                final(data)@,
                outcome,
            )),
            res matches Some(outcome) ==> (outcome.call matches Some(call) ==> session matches Some(
                data,
            ) && call@.session() == Some(data@.target())),
    {
        match session {
            Some(data) => {
                if zone_set == data.zone_set && !check_requests(barriers) {
                    return None;
                }
                Some(data.set_pointer_barriers(barriers, zone_set))
            },
            None => Some(BarrierOutcome { reply: PortalResponse::Other, call: None }),
        }
    }

    /// Arms capture on the session that was found, if one was.
    pub fn enable(session: Option<&mut SessionData>) -> (res: Result<CompositorCall, MethodError>)
        ensures
            session matches Some(data) ==> final(data)@ == data@.after(SessionEvent::Enable),
            session matches Some(data) ==> data@.enables_to(final(data)@, res),
            match session {
                Some(data) => match res {
                    Ok(call) => data@.may_enable() && call@ == (CompositorCallView::Enable {
                        session_id: data@.target(),
                    }),
                    Err(error) => !data@.may_enable() && error is InvalidState,
                },
                None => res matches Err(error) && error is SessionNotFound,
            },
            res matches Ok(call) ==> session matches Some(data) && call@.session() == Some(
                data@.target(),
            ),
    {
        match session {
            Some(data) => data.enable(),
            None => Err(MethodError::SessionNotFound),
        }
    }

    /// Disarms capture on the session that was found, if one was.
    pub fn disable(session: Option<&mut SessionData>) -> (res: Result<CompositorCall, MethodError>)
        ensures
            session matches Some(data) ==> final(data)@ == data@.after(SessionEvent::Disable),
            session matches Some(data) ==> data@.disables_to(final(data)@, res),
            match session {
                Some(data) => match res {
                    Ok(call) => data@.may_disable() && call@ == (CompositorCallView::Disable {
                        session_id: data@.target(),
                    }),
                    Err(error) => !data@.may_disable() && error is InvalidState,
                },
                None => res matches Err(error) && error is SessionNotFound,
            },
            res matches Ok(call) ==> session matches Some(data) && call@.session() == Some(
                data@.target(),
            ),
    {
        match session {
            Some(data) => data.disable(),
            None => Err(MethodError::SessionNotFound),
        }
    }

    /// Ends a capture on the session that was found, if one was. The activation is read off
    /// the options; the cursor position comes as the caller read it there.
    pub fn release(
        session: Option<&mut SessionData>,
        options: &OptionDict,
        cursor_position: Option<CursorPosition>,
    ) -> (res: Result<CompositorCall, MethodError>)
        ensures
            session matches Some(data) ==> final(data)@ == data@.after(SessionEvent::Release),
            session matches Some(data) ==> (res matches Ok(call) && data@.releases_to(
                Some(released_activation(options@)),
                cursor_position,
                final(data)@,
                call,
            )),
            res matches Ok(call) ==> (call matches CompositorCall::Release { activation_id, .. }
                && activation_id == (if options@.contains_key("activation_id"@) && held_u32(
                options@["activation_id"@],
            ) is Some {
                held_u32(options@["activation_id"@])->0
            } else {
                0
            })),
            match session {
                Some(data) => res matches Ok(call) && call@ == (CompositorCallView::Release {
                    session_id: data@.target(),
                    activation_id: released_activation(options@),
                    cursor_position: match cursor_position {
                        Some(position) => position,
                        None => CursorPosition::at_origin(),
                    },
                }),
                None => res matches Err(error) && error is SessionNotFound,
            },
            res matches Ok(call) ==> session matches Some(data) && call@.session() == Some(
                data@.target(),
            ),
    {
        match session {
            Some(data) => {
                let activation_id = options.u32_at("activation_id");
                Ok(data.release(activation_id, cursor_position))
            },
            None => Err(MethodError::SessionNotFound),
        }
    }

    /// The call that asks for an event connection of the session that was found.
    pub fn connect_to_eis_call(session: Option<&SessionData>) -> (res: Result<
        CompositorCall,
        MethodError,
    >)
        ensures
            match session {
                Some(data) => res matches Ok(call) && call@ == (CompositorCallView::ConnectToEis {
                    session_id: data@.target(),
                }),
                None => res matches Err(error) && error is SessionNotFound,
            },
            res matches Ok(call) ==> session matches Some(data) && call@.session() == Some(
                data@.target(),
            ),
            res matches Ok(call) ==> session matches Some(data) && data@.asks_for_events(call),
    {
        match session {
            Some(data) => Ok(CompositorCall::ConnectToEis { session_id: data.target() }),
            None => Err(MethodError::SessionNotFound),
        }
    }

    /// Answers a request for an event connection with what came of asking the compositor.
    pub fn connect_to_eis<F>(outcome: EisOutcome<F>) -> (res: Result<F, MethodError>)
        ensures
            match outcome {
                EisOutcome::NoConnection => res matches Err(error) && error is NoCompositor,
                EisOutcome::CallFailed(reason) => res matches Err(error) && error
                    == MethodError::ConnectRefused(reason),
                EisOutcome::BadReply(reason) => res matches Err(error) && error
                    == MethodError::NoDescriptor(reason),
                EisOutcome::Descriptor(descriptor) => res == Ok::<F, MethodError>(descriptor),
            },
            outcome.settles(res),
    {
        match outcome {
            EisOutcome::NoConnection => Err(MethodError::NoCompositor),
            EisOutcome::CallFailed(reason) => Err(MethodError::ConnectRefused(reason)),
            EisOutcome::BadReply(reason) => Err(MethodError::NoDescriptor(reason)),
            EisOutcome::Descriptor(descriptor) => Ok(descriptor),
        }
    }
}

} // verus!
