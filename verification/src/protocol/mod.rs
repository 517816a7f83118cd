//! The driver/process JSON Lines protocol: message types, bounded codecs, and the session
//! validator that enforces request/response ordering.

pub mod client;
pub mod data;
pub mod driver;
pub mod json;
pub mod message;
pub mod session;
pub mod session_laws;
pub mod validate;

pub use data::{
    decode_frame_data, decode_template_data, encode_frame_data, encode_template_data,
    MAX_DECODED_FRAME_BYTES, MAX_DECODED_TEMPLATE_BYTES,
};
pub use message::{
    DeviceCapability, DeviceInfo, OperationKind, Request, Response, MAX_LINE_BYTES,
    PROTOCOL_VERSION,
};
pub use client::{
    enumeration_reply, handshake_reply, request_label, select_device, unexpected, worker_failure,
    EnrollStep, EnrollmentEvents, VerificationEvents,
};
pub use json::{encode_line, encode_request, encode_response, json_line_body};
pub use session::SessionValidator;
pub use validate::{validate_identifier, validate_request, validate_response};
pub use driver::{
    admit_request, devices_reply, dispatch, emit_line, enrollment_replies, failure_reply,
    malformed_reply, protocol_error, verification_replies, Admission, Dispatch, WorkerError,
};
