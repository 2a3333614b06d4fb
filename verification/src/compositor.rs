//! Requests to the compositor.
use vstd::prelude::*;

verus! {

/// The bus name under which the compositor serves input capture.
pub const COMPOSITOR_SERVICE: &'static str = "org.cosmic.InputCapture";

/// The object that serves input capture.
pub const COMPOSITOR_PATH: &'static str = "/org/cosmic/InputCapture";

/// The interface that the object serves.
pub const COMPOSITOR_INTERFACE: &'static str = "org.cosmic.InputCapture";

/// A cursor position as the bit patterns of its two double-precision coordinates.
#[derive(Debug, Clone, Copy, PartialEq, Eq, Structural)]
pub struct CursorPosition {
    pub x_bits: u64,
    pub y_bits: u64,
}

impl CursorPosition {
    /// The position (0, 0): positive zero has the bit pattern 0.
    pub open spec fn at_origin() -> CursorPosition {
        CursorPosition { x_bits: 0, y_bits: 0 }
    }

    /// The position (0, 0).
    pub fn origin() -> (res: CursorPosition)
        ensures
            res == CursorPosition::at_origin(),
    {
        CursorPosition { x_bits: 0, y_bits: 0 }
    }
}

/// A method call on the compositor, with its arguments.
#[derive(Debug)]
pub enum CompositorCall {
    CreateSession { capabilities: u32 },
    GetZones { session_id: String },
    SetBarriers {
        session_id: String,
        zone_set: u32,
        barriers: Vec<(u32, (i32, i32, i32, i32))>,
    },
    Enable { session_id: String },
    Disable { session_id: String },
    Release { session_id: String, activation_id: u32, cursor_position: CursorPosition },
    ConnectToEis { session_id: String },
}

/// The content of a [`CompositorCall`].
#[verifier::ext_equal]
pub enum CompositorCallView {
    CreateSession { capabilities: u32 },
    GetZones { session_id: Seq<char> },
    SetBarriers {
        session_id: Seq<char>,
        zone_set: u32,
        barriers: Seq<(u32, (i32, i32, i32, i32))>,
    },
    Enable { session_id: Seq<char> },
    Disable { session_id: Seq<char> },
    Release { session_id: Seq<char>, activation_id: u32, cursor_position: CursorPosition },
    ConnectToEis { session_id: Seq<char> },
}

impl View for CompositorCall {
    type V = CompositorCallView;

    open spec fn view(&self) -> CompositorCallView {
        match self {
            CompositorCall::CreateSession { capabilities } => CompositorCallView::CreateSession {
                capabilities: *capabilities,
            },
            CompositorCall::GetZones { session_id } => CompositorCallView::GetZones {
                session_id: session_id@,
            },
            CompositorCall::SetBarriers { session_id, zone_set, barriers } => {
                CompositorCallView::SetBarriers {
                    session_id: session_id@,
                    zone_set: *zone_set,
                    barriers: barriers@,
                }
            },
            CompositorCall::Enable { session_id } => CompositorCallView::Enable {
                session_id: session_id@,
            },
            CompositorCall::Disable { session_id } => CompositorCallView::Disable {
                session_id: session_id@,
            },
            CompositorCall::Release { session_id, activation_id, cursor_position } => {
                CompositorCallView::Release {
                    session_id: session_id@,
                    activation_id: *activation_id,
                    cursor_position: *cursor_position,
                }
            },
            CompositorCall::ConnectToEis { session_id } => CompositorCallView::ConnectToEis {
                session_id: session_id@,
            },
        }
    }
}

impl CompositorCallView {
    /// The method of the compositor's interface that the call names.
    pub open spec fn method(self) -> Seq<char> {
        match self {
            CompositorCallView::CreateSession { .. } => "CreateSession"@,
            CompositorCallView::GetZones { .. } => "GetZones"@,
            CompositorCallView::SetBarriers { .. } => "SetBarriers"@,
            CompositorCallView::Enable { .. } => "Enable"@,
            CompositorCallView::Disable { .. } => "Disable"@,
            CompositorCallView::Release { .. } => "Release"@,
            CompositorCallView::ConnectToEis { .. } => "ConnectToEIS"@,
        }
    }

    /// The compositor session that the call addresses; a call that creates one has none.
    pub open spec fn session(self) -> Option<Seq<char>> {
        match self {
            CompositorCallView::CreateSession { .. } => None,
            CompositorCallView::GetZones { session_id } => Some(session_id),
            CompositorCallView::SetBarriers { session_id, .. } => Some(session_id),
            CompositorCallView::Enable { session_id } => Some(session_id),
            CompositorCallView::Disable { session_id } => Some(session_id),
            CompositorCallView::Release { session_id, .. } => Some(session_id),
            CompositorCallView::ConnectToEis { session_id } => Some(session_id),
        }
    }
}

impl CompositorCall {
    /// The method of the compositor's interface that the call names.
    pub fn method(&self) -> (res: &'static str)
        ensures
            res@ == self@.method(),
    {
        match self {
            CompositorCall::CreateSession { .. } => "CreateSession",
            CompositorCall::GetZones { .. } => "GetZones",
            CompositorCall::SetBarriers { .. } => "SetBarriers",
            CompositorCall::Enable { .. } => "Enable",
            CompositorCall::Disable { .. } => "Disable",
            CompositorCall::Release { .. } => "Release",
            CompositorCall::ConnectToEis { .. } => "ConnectToEIS",
        }
    }
}

} // verus!
