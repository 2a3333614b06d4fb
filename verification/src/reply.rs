//! Answers to the portal frontend.
use vstd::prelude::*;
use vstd::string::StringExecFns;
use crate::wire::Zone;

verus! {

/// The answer to a portal request: its results, or the bare fact that it failed.
#[derive(Debug)]
pub enum PortalResponse<T> {
    Success(T),
    Other,
}

/// The result of creating a session.
#[derive(Debug)]
pub struct CreateSessionResult {
    pub session_id: String,
    pub capabilities: u32,
}

/// The result of asking for the zones.
#[derive(Debug)]
pub struct GetZonesResult {
    pub zones: Vec<Zone>,
    pub zone_set: u32,
}

/// The result of setting barriers: the identifiers of those that were not set.
#[derive(Debug)]
pub struct SetPointerBarriersResult {
    pub failed_barriers: Vec<u32>,
}

/// The options of a start request.
#[derive(Debug, Clone, Copy)]
pub struct StartOptions {
    pub capabilities: Option<u32>,
    pub persist_mode: Option<u32>,
}

/// The result of starting a session.
#[derive(Debug)]
pub struct StartResult {
    pub capabilities: u32,
}

/// Why a method call was refused.
#[derive(Debug)]
pub enum MethodError {
    SessionNotFound,
    InvalidState,
    NoCompositor,
    /// The compositor refused to set up the event connection, with its reason.
    ConnectRefused(String),
    /// The compositor's answer held no file descriptor, with the reason.
    NoDescriptor(String),
}

impl MethodError {
    /// The text that the caller of the method gets to see.
    pub open spec fn text(self) -> Seq<char> {
        match self {
            MethodError::SessionNotFound => "Session not found"@,
            MethodError::InvalidState => "Invalid session state"@,
            MethodError::NoCompositor => "No compositor connection"@,
            MethodError::ConnectRefused(reason) => "Compositor ConnectToEIS: "@ + reason@,
            MethodError::NoDescriptor(reason) => "fd deserialize: "@ + reason@,
        }
    }

    /// The text that the caller of the method gets to see.
    pub fn message(&self) -> (res: String)
        ensures
            res@ == self.text(),
    {
        match self {
            MethodError::SessionNotFound => "Session not found".to_string(),
            MethodError::InvalidState => "Invalid session state".to_string(),
            MethodError::NoCompositor => "No compositor connection".to_string(),
            MethodError::ConnectRefused(reason) => {
                "Compositor ConnectToEIS: ".to_string().concat(reason.as_str())
            },
            MethodError::NoDescriptor(reason) => {
                "fd deserialize: ".to_string().concat(reason.as_str())
            },
        }
    }
}

} // verus!
