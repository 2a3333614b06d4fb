//! Decision core of an input-capture portal backend.
//!
//! A portal frontend asks for sessions, barriers and capture; a compositor owns the
//! input devices. This crate holds everything between the two that is a decision: the
//! life cycle of a session, the check of pointer barriers, what is sent to the
//! compositor, what is answered to the frontend, and which compositor signals go out
//! again to which session. Connections, tasks and file descriptors stay outside.
pub mod barrier;
pub mod capability;
pub mod compositor;
pub mod laws;
pub mod outcomes;
pub mod portal;
pub mod relay;
pub mod reply;
pub mod session;
pub mod value;
pub mod wire;

pub use barrier::{check_requests, classify, read_requests, Barrier, BarrierRequest};
pub use capability::{
    grant, supported, CAPABILITY_KEYBOARD, CAPABILITY_POINTER, CAPABILITY_TOUCHSCREEN,
    SUPPORTED_CAPABILITIES,
};
pub use compositor::{CompositorCall, CursorPosition};
pub use portal::{EisOutcome, InputCapture};
pub use relay::{
    relayed_signal, DecodedSignal, Emission, PortalSignal, RelayAction, SessionMap, StreamEvent,
};
pub use reply::{
    CreateSessionResult, GetZonesResult, MethodError, PortalResponse, SetPointerBarriersResult,
    StartOptions, StartResult,
};
pub use session::{BarrierOutcome, SessionData, SessionState};
pub use value::OptionDict;
