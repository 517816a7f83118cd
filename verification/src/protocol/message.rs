//! Protocol message types.

use vstd::prelude::*;

verus! {

/// Experimental protocol version.
pub const PROTOCOL_VERSION: u32 = 0;

/// Maximum encoded JSON line size, excluding the terminating newline.
pub const MAX_LINE_BYTES: usize = 2 * 1024 * 1024;

/// What an active operation is doing, which decides the events that may follow `Started`.
#[derive(Clone, Copy, Debug, PartialEq, Eq, Structural)]
pub enum OperationKind {
    /// A host-image capture that streams frames.
    Capture,
    /// A match-on-chip enrollment that ends with the device's template.
    Enroll,
    /// A match-on-chip verification that ends with the device's verdict.
    Verify,
}

/// Where a device does its matching.
///
/// A host-image device answers `StartCapture` with pixels and knows nothing about templates; a
/// match-on-chip device answers `StartEnroll`/`StartVerify` and never emits a frame.
#[derive(Clone, Copy, Debug, PartialEq, Eq, Structural)]
pub enum DeviceCapability {
    /// Streams frames to the host, which extracts and matches.
    HostImage,
    /// Enrolls and matches internally, exchanging opaque templates.
    MatchOnChip,
}

/// One enumerated experimental device.
#[derive(Clone, PartialEq, Eq)]
pub struct DeviceInfo {
    /// Driver-defined device identifier.
    pub device_id: String,
    /// Capture profile emitted by the device.
    pub capture_profile_id: String,
    /// Where this device does its matching, which decides what operations it can serve.
    pub capability: DeviceCapability,
    /// Presentations a full enrollment needs. `0` where the device does not enroll.
    pub enroll_stages: u32,
}

/// Host-to-driver message.
#[derive(Clone, PartialEq, Eq)]
pub enum Request {
    /// Negotiate the experimental protocol version.
    Hello { request_id: String, protocol_version: u32 },
    /// Enumerate devices.
    Enumerate { request_id: String },
    /// Start one capture operation.
    StartCapture { request_id: String, operation_id: String, device_id: String },
    /// Start one enrollment on a match-on-chip device.
    StartEnroll { request_id: String, operation_id: String, device_id: String },
    /// Ask a match-on-chip device to compare a live finger against a template it produced; the
    /// template is standard-alphabet padded base64.
    StartVerify {
        request_id: String,
        operation_id: String,
        device_id: String,
        template_base64: String,
    },
    /// Cancel the active operation.
    Cancel { request_id: String, operation_id: String },
    /// Ask the worker to shut down.
    Shutdown { request_id: String },
}

/// Driver-to-host message.
#[derive(Clone, PartialEq, Eq)]
pub enum Response {
    /// Successful protocol negotiation.
    HelloAck { request_id: String, protocol_version: u32 },
    /// Enumeration result.
    Devices { request_id: String, devices: Vec<DeviceInfo> },
    /// Operation accepted.
    Started { request_id: String, operation_id: String },
    /// A finger became present.
    FingerPresent { operation_id: String },
    /// One base64 Gray8 capture frame.
    Frame {
        operation_id: String,
        sequence: u64,
        width: u32,
        height: u32,
        x_resolution_ppi: u16,
        y_resolution_ppi: u16,
        data_base64: String,
    },
    /// A finger was removed.
    FingerRemoved { operation_id: String },
    /// One enrollment stage was accepted. A driver need not report the final stage:
    /// `Enrolled` is the completion signal.
    EnrollProgress { operation_id: String, completed_stages: u32, total_stages: u32 },
    /// Enrollment produced the device's own template, standard-alphabet padded base64.
    Enrolled { operation_id: String, template_base64: String },
    /// The device compared a live finger against a template and reached a verdict.
    MatchResult { operation_id: String, matched: bool },
    /// The operation completed successfully.
    Completed { operation_id: String },
    /// Cancellation completed.
    Cancelled { request_id: String, operation_id: String },
    /// Structured protocol or driver failure.
    Error {
        request_id: Option<String>,
        operation_id: Option<String>,
        code: String,
        message: String,
    },
}

impl Request {
    /// The identifier of the request, whichever kind it is.
    pub open spec fn spec_request_id(&self) -> Seq<char> {
        match self {
            Request::Hello { request_id, .. } => request_id@,
            Request::Enumerate { request_id } => request_id@,
            Request::StartCapture { request_id, .. } => request_id@,
            Request::StartEnroll { request_id, .. } => request_id@,
            Request::StartVerify { request_id, .. } => request_id@,
            Request::Cancel { request_id, .. } => request_id@,
            Request::Shutdown { request_id } => request_id@,
        }
    }

    /// The identifier of the request, whichever kind it is.
    pub fn request_id(&self) -> (id: &String)
        ensures
            id@ == self.spec_request_id(),
    {
        match self {
            Request::Hello { request_id, .. } => request_id,
            Request::Enumerate { request_id } => request_id,
            Request::StartCapture { request_id, .. } => request_id,
            Request::StartEnroll { request_id, .. } => request_id,
            Request::StartVerify { request_id, .. } => request_id,
            Request::Cancel { request_id, .. } => request_id,
            Request::Shutdown { request_id } => request_id,
        }
    }

    /// The operation that this request starts, if it starts one.
    pub open spec fn spec_started_operation_id(&self) -> Option<Seq<char>> {
        match self {
            Request::StartCapture { operation_id, .. } => Some(operation_id@),
            Request::StartEnroll { operation_id, .. } => Some(operation_id@),
            Request::StartVerify { operation_id, .. } => Some(operation_id@),
            _ => None,
        }
    }

    /// The operation that this request starts, if it starts one.
    pub fn started_operation_id(&self) -> (id: Option<&String>)
        ensures
            match id {
                Some(s) => self.spec_started_operation_id() == Some(s@),
                None => self.spec_started_operation_id() is None,
            },
    {
        match self {
            Request::StartCapture { operation_id, .. } => Some(operation_id),
            Request::StartEnroll { operation_id, .. } => Some(operation_id),
            Request::StartVerify { operation_id, .. } => Some(operation_id),
            _ => None,
        }
    }

    /// Which kind of operation this request starts, if it starts one.
    pub open spec fn spec_starts(&self) -> Option<OperationKind> {
        match self {
            Request::StartCapture { .. } => Some(OperationKind::Capture),
            Request::StartEnroll { .. } => Some(OperationKind::Enroll),
            Request::StartVerify { .. } => Some(OperationKind::Verify),
            _ => None,
        }
    }

    /// Which kind of operation this request starts, if it starts one.
    pub fn starts(&self) -> (kind: Option<OperationKind>)
        ensures
            kind == self.spec_starts(),
    {
        match self {
            Request::StartCapture { .. } => Some(OperationKind::Capture),
            Request::StartEnroll { .. } => Some(OperationKind::Enroll),
            Request::StartVerify { .. } => Some(OperationKind::Verify),
            _ => None,
        }
    }

    /// The message's wire tag.
    pub open spec fn spec_kind(&self) -> Seq<char> {
        match self {
            Request::Hello { .. } => "hello"@,
            Request::Enumerate { .. } => "enumerate"@,
            Request::StartCapture { .. } => "start_capture"@,
            Request::StartEnroll { .. } => "start_enroll"@,
            Request::StartVerify { .. } => "start_verify"@,
            Request::Cancel { .. } => "cancel"@,
            Request::Shutdown { .. } => "shutdown"@,
        }
    }

    /// The message's wire tag. It names the kind only, never an identifier or a payload.
    pub fn kind(&self) -> (kind: &'static str)
        ensures
            kind@ == self.spec_kind(),
    {
        match self {
            Request::Hello { .. } => "hello",
            Request::Enumerate { .. } => "enumerate",
            Request::StartCapture { .. } => "start_capture",
            Request::StartEnroll { .. } => "start_enroll",
            Request::StartVerify { .. } => "start_verify",
            Request::Cancel { .. } => "cancel",
            Request::Shutdown { .. } => "shutdown",
        }
    }
}

impl Response {
    /// The message's wire tag.
    pub open spec fn spec_kind(&self) -> Seq<char> {
        match self {
            Response::HelloAck { .. } => "hello_ack"@,
            Response::Devices { .. } => "devices"@,
            Response::Started { .. } => "started"@,
            Response::FingerPresent { .. } => "finger_present"@,
            Response::Frame { .. } => "frame"@,
            Response::FingerRemoved { .. } => "finger_removed"@,
            Response::EnrollProgress { .. } => "enroll_progress"@,
            Response::Enrolled { .. } => "enrolled"@,
            Response::MatchResult { .. } => "match_result"@,
            Response::Completed { .. } => "completed"@,
            Response::Cancelled { .. } => "cancelled"@,
            Response::Error { .. } => "error"@,
        }
    }

    /// The message's wire tag. It names the kind only, never an identifier or a payload.
    pub fn kind(&self) -> (kind: &'static str)
        ensures
            kind@ == self.spec_kind(),
    {
        match self {
            Response::HelloAck { .. } => "hello_ack",
            Response::Devices { .. } => "devices",
            Response::Started { .. } => "started",
            Response::FingerPresent { .. } => "finger_present",
            Response::Frame { .. } => "frame",
            Response::FingerRemoved { .. } => "finger_removed",
            Response::EnrollProgress { .. } => "enroll_progress",
            Response::Enrolled { .. } => "enrolled",
            Response::MatchResult { .. } => "match_result",
            Response::Completed { .. } => "completed",
            Response::Cancelled { .. } => "cancelled",
            Response::Error { .. } => "error",
        }
    }
}

impl Request {
    /// The redacted debug rendering: the kind only, as `Request("hello")`.
    pub fn debug_text(&self) -> (text: String)
        ensures
            text@ == "Request(\""@ + self.spec_kind() + "\")"@,
    {
        let mut text = "Request(\"".to_string();
        text.append(self.kind());
        text.append("\")");
        text
    }
}

impl Response {
    /// The redacted debug rendering: the kind only, as `Response("frame")`.
    pub open spec fn spec_debug_text(&self) -> Seq<char> {
        "Response(\""@ + self.spec_kind() + "\")"@
    }

    /// The redacted debug rendering: the kind only, as `Response("frame")`.
    pub fn debug_text(&self) -> (text: String)
        ensures
            text@ == self.spec_debug_text(),
    {
        let mut text = "Response(\"".to_string();
        text.append(self.kind());
        text.append("\")");
        text
    }
}

} // verus!
