//! Passing signals of the compositor on to the sessions of the portal.
use vstd::prelude::*;
use vstd::hash_map::StringHashMap;
use zbus::zvariant::OwnedValue;
use crate::value::{held_u32, value_of_u32, OptionDict};
use crate::wire::{
    member_of, message_member, read_string_and_u32, read_string_structure, string_and_u32_body,
    string_structure_body,
};

verus! {

/// The portal session of each compositor session: from the compositor's identifier to the
/// object path of the portal session.
pub struct SessionMap {
    handles: StringHashMap<String>,
}

impl View for SessionMap {
    type V = Map<Seq<char>, Seq<char>>;

    closed spec fn view(&self) -> Map<Seq<char>, Seq<char>> {
        self.handles@.map_values(|handle: String| handle@)
    }
}

impl SessionMap {
    /// No sessions.
    pub fn new() -> (res: SessionMap)
        ensures
            res@ == Map::<Seq<char>, Seq<char>>::empty(),
    {
        let res = SessionMap { handles: StringHashMap::new() };
        assert(res@ =~= Map::<Seq<char>, Seq<char>>::empty());
        res
    }

    /// Notes that the compositor session `id` belongs to the portal session `handle`.
    pub fn insert(&mut self, id: String, handle: String)
        ensures
            final(self)@ == old(self)@.insert(id@, handle@),
    {
        self.handles.insert(id, handle);
        assert(self@ =~= old(self)@.insert(id@, handle@));
    }

    /// The portal session that the compositor session `id` belongs to.
    pub fn get(&self, id: &str) -> (res: Option<String>)
        ensures
            match res {
                Some(handle) => self@.contains_key(id@) && handle@ == self@[id@],
                None => !self@.contains_key(id@),
            },
    {
        match self.handles.get(id) {
            Some(handle) => Some(handle.clone()),
            None => None,
        }
    }
}

/// The signals of the portal that come of signals of the compositor.
#[derive(Debug, Clone, Copy, PartialEq, Eq, Structural)]
pub enum PortalSignal {
    Activated,
    Deactivated,
    Disabled,
}

impl PortalSignal {
    /// The name of the signal on the portal.
    pub open spec fn title(self) -> Seq<char> {
        match self {
            PortalSignal::Activated => "Activated"@,
            PortalSignal::Deactivated => "Deactivated"@,
            PortalSignal::Disabled => "Disabled"@,
        }
    }

    /// The name of the signal on the portal.
    pub fn name(&self) -> (res: &'static str)
        ensures
            res@ == self.title(),
    {
        match self {
            PortalSignal::Activated => "Activated",
            PortalSignal::Deactivated => "Deactivated",
            PortalSignal::Disabled => "Disabled",
        }
    }

    /// The signal of the portal with the given name.
    pub open spec fn titled(name: Seq<char>) -> Option<PortalSignal> {
        if name == "Activated"@ {
            Some(PortalSignal::Activated)
        } else if name == "Deactivated"@ {
            Some(PortalSignal::Deactivated)
        } else if name == "Disabled"@ {
            Some(PortalSignal::Disabled)
        } else {
            None
        }
    }

    /// Looks up the signal of the portal with the given name.
    pub fn from_name(name: &str) -> (res: Option<PortalSignal>)
        ensures
            res == PortalSignal::titled(name@),
    {
        let name = name.to_string();
        if name == "Activated".to_string() {
            Some(PortalSignal::Activated)
        } else if name == "Deactivated".to_string() {
            Some(PortalSignal::Deactivated)
        } else if name == "Disabled".to_string() {
            Some(PortalSignal::Disabled)
        } else {
            None
        }
    }
}

/// The portal signal that a signal of the compositor turns into, by the member that the
/// message names. The compositor calls the third one otherwise than the portal does.
pub open spec fn relayed(member: Option<Seq<char>>) -> Option<PortalSignal> {
    match member {
        Some(name) => if name == "Activated"@ {
            Some(PortalSignal::Activated)
        } else if name == "Deactivated"@ {
            Some(PortalSignal::Deactivated)
        } else if name == "DisabledSignal"@ {
            Some(PortalSignal::Disabled)
        } else {
            None
        },
        None => None,
    }
}

/// Looks up the portal signal that a signal of the compositor turns into.
pub fn relayed_signal(member: &Option<String>) -> (res: Option<PortalSignal>)
    ensures
        res == relayed(
            match *member {
                Some(name) => Some(name@),
                None => None,
            },
        ),
{
    match member {
        Some(name) => if *name == "Activated".to_string() {
            Some(PortalSignal::Activated)
        } else if *name == "Deactivated".to_string() {
            Some(PortalSignal::Deactivated)
        } else if *name == "DisabledSignal".to_string() {
            Some(PortalSignal::Disabled)
        } else {
            None
        },
        None => None,
    }
}

/// A signal of the compositor with its arguments.
pub enum DecodedSignal {
    /// A capture began. The barrier identifier is 0 where no barrier was hit.
    Activated {
        session_id: String,
        barrier_id: u32,
        activation_id: u32,
        cursor_position: OwnedValue,
    },
    /// A capture ended.
    Deactivated { session_id: String, activation_id: u32 },
    /// Capture was disarmed.
    Disabled { session_id: String },
}

/// The content of a [`DecodedSignal`].
pub enum SignalView {
    Activated {
        session_id: Seq<char>,
        barrier_id: u32,
        activation_id: u32,
        cursor_position: OwnedValue,
    },
    Deactivated { session_id: Seq<char>, activation_id: u32 },
    Disabled { session_id: Seq<char> },
}

impl View for DecodedSignal {
    type V = SignalView;

    open spec fn view(&self) -> SignalView {
        match self {
            DecodedSignal::Activated { session_id, barrier_id, activation_id, cursor_position } => {
                SignalView::Activated {
                    session_id: session_id@,
                    barrier_id: *barrier_id,
                    activation_id: *activation_id,
                    cursor_position: *cursor_position,
                }
            },
            DecodedSignal::Deactivated { session_id, activation_id } => SignalView::Deactivated {
                session_id: session_id@,
                activation_id: *activation_id,
            },
            DecodedSignal::Disabled { session_id } => SignalView::Disabled {
                session_id: session_id@,
            },
        }
    }
}

impl SignalView {
    /// The compositor session that the signal is about.
    pub open spec fn session(self) -> Seq<char> {
        match self {
            SignalView::Activated { session_id, .. } => session_id,
            SignalView::Deactivated { session_id, .. } => session_id,
            SignalView::Disabled { session_id } => session_id,
        }
    }

    /// The signal of the portal that it turns into.
    pub open spec fn kind(self) -> PortalSignal {
        match self {
            SignalView::Activated { .. } => PortalSignal::Activated,
            SignalView::Deactivated { .. } => PortalSignal::Deactivated,
            SignalView::Disabled { .. } => PortalSignal::Disabled,
        }
    }

    /// Whether `options` is what the portal's signal carries: the activation where there is
    /// one, the cursor position and the barrier that was hit where a capture began, and
    /// nothing else.
    pub open spec fn carried_by(self, options: Map<Seq<char>, OwnedValue>) -> bool {
        match self {
            SignalView::Activated { barrier_id, activation_id, cursor_position, .. } => {
                &&& forall|key: Seq<char>| #[trigger]
                    options.contains_key(key) <==> (key == "activation_id"@ || key
                        == "cursor_position"@ || (key == "barrier_id"@ && barrier_id != 0))
                &&& held_u32(options["activation_id"@]) == Some(activation_id)
                &&& options["cursor_position"@] == cursor_position
                &&& barrier_id != 0 ==> held_u32(options["barrier_id"@]) == Some(barrier_id)
            },
            SignalView::Deactivated { activation_id, .. } => {
                &&& forall|key: Seq<char>| #[trigger]
                    options.contains_key(key) <==> key == "activation_id"@
                &&& held_u32(options["activation_id"@]) == Some(activation_id)
            },
            SignalView::Disabled { .. } => options == Map::<Seq<char>, OwnedValue>::empty(),
        }
    }
}

/// A signal of the portal, ready to go out: to whom, which one, with which options.
pub struct Emission {
    pub session_handle: String,
    pub signal: PortalSignal,
    pub options: OptionDict,
}

impl Emission {
    /// The emission passes `signal` on to the portal session `handle`.
    pub open spec fn passes_on(self, signal: SignalView, handle: Seq<char>) -> bool {
        &&& self.session_handle@ == handle
        &&& self.signal == signal.kind()
        &&& signal.carried_by(self.options@)
    }
}

/// What the stream of compositor signals brings.
pub enum StreamEvent<'a> {
    /// A message.
    Message(&'a zbus::Message),
    /// An error in place of a message.
    Failed,
    /// The end.
    Ended,
}

/// What is to be done about it.
pub enum RelayAction {
    /// Emit a signal of the portal, then go on.
    Emit(Emission),
    /// Read the body of the message as the arguments of an activation and hand them in.
    ReadActivation,
    /// Go on with the next event.
    Skip,
    /// End the relay.
    Stop,
}

impl RelayAction {
    /// The action on a signal whose arguments were read, `None` where they could not be:
    /// it is passed on if its session is known, and skipped otherwise.
    pub open spec fn answers(
        self,
        sessions: Map<Seq<char>, Seq<char>>,
        signal: Option<SignalView>,
    ) -> bool {
        match signal {
            Some(signal) => if sessions.contains_key(signal.session()) {
                self matches RelayAction::Emit(emission) && emission.passes_on(
                    signal,
                    sessions[signal.session()],
                )
            } else {
                self is Skip
            },
            None => self is Skip,
        }
    }

    /// The first action on an event: the end stops the relay, an error is skipped, and a
    /// message goes by the signal that it names. The arguments of an activation are yet to
    /// be read; those of the other signals are read off the message.
    pub open spec fn decides(
        self,
        sessions: Map<Seq<char>, Seq<char>>,
        event: StreamEvent<'_>,
    ) -> bool {
        match event {
            StreamEvent::Message(message) => match relayed(message_member(*message)) {
                Some(PortalSignal::Activated) => self is ReadActivation,
                Some(PortalSignal::Deactivated) => self.answers(sessions, deactivation(*message)),
                Some(PortalSignal::Disabled) => self.answers(sessions, disabling(*message)),
                None => self is Skip,
            },
            StreamEvent::Failed => self is Skip,
            StreamEvent::Ended => self is Stop,
        }
    }
}

/// The arguments of a `Deactivated` signal, where its body can be read.
pub open spec fn deactivation(message: zbus::Message) -> Option<SignalView> {
    match string_and_u32_body(message) {
        Some((session_id, activation_id)) => Some(
            SignalView::Deactivated { session_id, activation_id },
        ),
        None => None,
    }
}

/// The arguments of a `DisabledSignal` signal, where its body can be read.
pub open spec fn disabling(message: zbus::Message) -> Option<SignalView> {
    match string_structure_body(message) {
        Some(session_id) => Some(SignalView::Disabled { session_id }),
        None => None,
    }
}

impl SessionMap {
    /// The emission that passes a signal on, if its session is known.
    pub fn emission(&self, signal: DecodedSignal) -> (res: Option<Emission>)
        ensures
            match res {
                Some(emission) => self@.contains_key(signal@.session()) && emission.passes_on(
                    signal@,
                    self@[signal@.session()],
                ),
                None => !self@.contains_key(signal@.session()),
            },
    {
        let mut options = OptionDict::new();
        proof {
            reveal_strlit("activation_id");
            reveal_strlit("cursor_position");
            reveal_strlit("barrier_id");
            assert("activation_id"@.len() == 13);
            assert("cursor_position"@.len() == 15);
            assert("barrier_id"@.len() == 10);
        }
        match signal {
            DecodedSignal::Activated { session_id, barrier_id, activation_id, cursor_position } => {
                match self.get(session_id.as_str()) {
                    Some(session_handle) => {
                        options.insert("activation_id".to_string(), value_of_u32(activation_id));
                        options.insert("cursor_position".to_string(), cursor_position);
                        if barrier_id != 0 {
                            options.insert("barrier_id".to_string(), value_of_u32(barrier_id));
                        }
                        Some(Emission { session_handle, signal: PortalSignal::Activated, options })
                    },
                    None => None,
                }
            },
            DecodedSignal::Deactivated { session_id, activation_id } => {
                match self.get(session_id.as_str()) {
                    Some(session_handle) => {
                        options.insert("activation_id".to_string(), value_of_u32(activation_id));
                        Some(
                            Emission { session_handle, signal: PortalSignal::Deactivated, options },
                        )
                    },
                    None => None,
                }
            },
            DecodedSignal::Disabled { session_id } => {
                match self.get(session_id.as_str()) {
                    Some(session_handle) => {
                        Some(Emission { session_handle, signal: PortalSignal::Disabled, options })
                    },
                    None => None,
                }
            },
        }
    }

    /// Decides about a signal whose arguments were read, `None` where they could not be.
    pub fn relay_decoded(&self, signal: Option<DecodedSignal>) -> (res: RelayAction)
        ensures
            res.answers(
                self@,
                match signal {
                    Some(signal) => Some(signal@),
                    None => None,
                },
            ),
    {
        match signal {
            Some(signal) => match self.emission(signal) {
                Some(emission) => RelayAction::Emit(emission),
                None => RelayAction::Skip,
            },
            None => RelayAction::Skip,
        }
    }

    /// Decides about what the stream of compositor signals brought. The body of an
    /// activation is left to the caller to read; those of the other signals are read here.
    pub fn relay_step(&self, event: StreamEvent<'_>) -> (res: RelayAction)
        ensures
            res.decides(self@, event),
            event matches StreamEvent::Message(message) ==> (message_member(*message) == Some(
                "Deactivated"@,
            ) ==> (string_and_u32_body(*message) matches Some((session_id, activation_id)) ==> (
            self@.contains_key(session_id) ==> (res matches RelayAction::Emit(emission)
                && emission.signal == PortalSignal::Deactivated && emission.session_handle@
                == self@[session_id] && held_u32(emission.options@["activation_id"@]) == Some(
                activation_id,
            ))))),
            event matches StreamEvent::Message(message) ==> (message_member(*message) == Some(
                "DisabledSignal"@,
            ) ==> (string_structure_body(*message) matches Some(session_id) ==> (self@.contains_key(
                session_id,
            ) ==> (res matches RelayAction::Emit(emission) && emission.signal
                == PortalSignal::Disabled && emission.session_handle@ == self@[session_id])))),
    {
        proof {
            reveal_strlit("Activated");
            reveal_strlit("Deactivated");
            reveal_strlit("DisabledSignal");
            assert("Activated"@.len() == 9);
            assert("Deactivated"@.len() == 11);
            assert("DisabledSignal"@.len() == 14);
        }
        match event {
            StreamEvent::Message(message) => {
                let member = member_of(message);
                match relayed_signal(&member) {
                    Some(PortalSignal::Activated) => RelayAction::ReadActivation,
                    Some(PortalSignal::Deactivated) => {
                        let signal = match read_string_and_u32(message) {
                            Some((session_id, activation_id)) => Some(
                                DecodedSignal::Deactivated { session_id, activation_id },
                            ),
                            None => None,
                        };
                        self.relay_decoded(signal)
                    },
                    Some(PortalSignal::Disabled) => {
                        let signal = match read_string_structure(message) {
                            Some(session_id) => Some(DecodedSignal::Disabled { session_id }),
                            None => None,
                        };
                        self.relay_decoded(signal)
                    },
                    None => RelayAction::Skip,
                }
            },
            StreamEvent::Failed => RelayAction::Skip,
            StreamEvent::Ended => RelayAction::Stop,
        }
    }
}

} // verus!
