//! The driver worker's side of the protocol: what it answers to each request, and the replies it
//! assembles from what its device reports.
//!
//! A worker reads requests on stdin, checks them with its own `SessionValidator`, and writes
//! responses on stdout. Talking to the device is the worker's own outside work; these functions
//! decide what to do and what to say.

use vstd::prelude::*;

use super::data::{encode_template_data, template_data_decoding, template_data_encoding};
use super::json::{encode_response, response_encoding};
use super::message::{DeviceInfo, Request, Response, PROTOCOL_VERSION};
use super::session::{optional_view, request_step, response_step, SessionValidator};
use crate::error::Error;

verus! {

/// A failure the worker reports to the host as a protocol error: a stable code and a message.
#[derive(Clone, Debug, PartialEq, Eq)]
pub struct WorkerError {
    /// Stable machine-readable code.
    pub code: String,
    /// Human-readable diagnostic.
    pub message: String,
}

impl WorkerError {
    /// A failure with the given code and message.
    pub fn new(code: &str, message: &str) -> (e: WorkerError)
        ensures
            e.code@ == code@,
            e.message@ == message@,
    {
        WorkerError { code: code.to_string(), message: message.to_string() }
    }
}

impl Request {
    /// The operation a request names: the one it starts or the one it cancels.
    pub open spec fn spec_operation_id(&self) -> Option<Seq<char>> {
        match self {
            Request::StartCapture { operation_id, .. } => Some(operation_id@),
            Request::StartEnroll { operation_id, .. } => Some(operation_id@),
            Request::StartVerify { operation_id, .. } => Some(operation_id@),
            Request::Cancel { operation_id, .. } => Some(operation_id@),
            _ => None,
        }
    }

    /// The operation a request names: the one it starts or the one it cancels.
    pub fn operation_id(&self) -> (id: Option<&String>)
        ensures
            match id {
                Some(s) => self.spec_operation_id() == Some(s@),
                None => self.spec_operation_id() is None,
            },
    {
        match self {
            Request::StartCapture { operation_id, .. } => Some(operation_id),
            Request::StartEnroll { operation_id, .. } => Some(operation_id),
            Request::StartVerify { operation_id, .. } => Some(operation_id),
            Request::Cancel { operation_id, .. } => Some(operation_id),
            _ => None,
        }
    }
}

/// A structured protocol error response.
pub fn protocol_error(
    request_id: Option<String>,
    operation_id: Option<String>,
    code: &str,
    message: String,
) -> (response: Response)
    ensures
        response matches Response::Error { request_id: r, operation_id: o, code: c, message: m }
            && optional_view(r) == optional_view(request_id) && optional_view(o) == optional_view(
            operation_id,
        ) && c@ == code@ && m@ == message@,
{
    Response::Error { request_id, operation_id, code: code.to_string(), message }
}

/// The error response for a request the worker could not serve: it names the request and, when
/// the request names one, the operation.
pub fn failure_reply(request: &Request, error: WorkerError) -> (response: Response)
    ensures
        response matches Response::Error { request_id: r, operation_id: o, code: c, message: m }
            && optional_view(r) == Some(request.spec_request_id()) && optional_view(o)
            == request.spec_operation_id() && c@ == error.code@ && m@ == error.message@,
{
    let operation_id = match request.operation_id() {
        Some(id) => Some(id.clone()),
        None => None,
    };
    Response::Error {
        request_id: Some(request.request_id().clone()),
        operation_id,
        code: error.code,
        message: error.message,
    }
}

/// What a worker does for one request.
pub enum Dispatch {
    /// Write these responses.
    Reply(Vec<Response>),
    /// List the attached devices and answer with them.
    Enumerate { request_id: String },
    /// Enroll a finger on the named device.
    Enroll { request_id: String, operation_id: String, device_id: String },
    /// Compare a live finger on the named device against the decoded template.
    Verify { request_id: String, operation_id: String, device_id: String, template: Vec<u8> },
}

/// Decide what to do for one accepted request.
///
/// A match-on-chip worker emits no frames and runs each operation to its end, so it refuses
/// captures and cancellations; a `Shutdown` needs no reply.
pub fn dispatch(request: &Request) -> (res: Result<Dispatch, WorkerError>)
    ensures
        match *request {
            Request::Hello { request_id, protocol_version } => if protocol_version
                != PROTOCOL_VERSION {
                res matches Err(e) && e.code@ == "version"@ && e.message@
                    == "this worker speaks protocol 0"@
            } else {
                res matches Ok(Dispatch::Reply(replies)) && replies@.len() == 1 && (
                replies@[0] matches Response::HelloAck { request_id: r, protocol_version: v }
                    && r@ == request_id@ && v == PROTOCOL_VERSION)
            },
            Request::Enumerate { request_id } => res matches Ok(Dispatch::Enumerate { request_id: r })
                && r@ == request_id@,
            Request::StartEnroll { request_id, operation_id, device_id } => res matches Ok(
                Dispatch::Enroll { request_id: r, operation_id: o, device_id: d },
            ) && r@ == request_id@ && o@ == operation_id@ && d@ == device_id@,
            Request::StartVerify { request_id, operation_id, device_id, template_base64 } =>
                match template_data_decoding(template_base64@) {
                Ok(blob) => res matches Ok(
                    Dispatch::Verify { request_id: r, operation_id: o, device_id: d, template: t },
                ) && r@ == request_id@ && o@ == operation_id@ && d@ == device_id@ && t@ == blob,
                Err(problem) => res matches Err(e) && e.code@ == "template"@ && e.message@
                    == problem,
            },
            Request::StartCapture { .. } => res matches Err(e) && e.code@ == "unsupported"@
                && e.message@ == "this worker drives match-on-chip devices; it emits no frames"@,
            Request::Cancel { .. } => res matches Err(e) && e.code@ == "unsupported"@ && e.message@
                == "operations here are synchronous and cannot be cancelled mid-flight"@,
            Request::Shutdown { .. } => res matches Ok(Dispatch::Reply(replies)) && replies@.len()
                == 0,
        },
{
    match request {
        Request::Hello { request_id, protocol_version } => {
            if *protocol_version != PROTOCOL_VERSION {
                return Err(WorkerError::new("version", "this worker speaks protocol 0"));
            }
            let mut replies: Vec<Response> = Vec::new();
            replies.push(
                Response::HelloAck {
                    request_id: request_id.clone(),
                    protocol_version: PROTOCOL_VERSION,
                },
            );
            Ok(Dispatch::Reply(replies))
        },
        Request::Enumerate { request_id } => Ok(Dispatch::Enumerate { request_id: request_id.clone() }),
        Request::StartEnroll { request_id, operation_id, device_id } => Ok(
            Dispatch::Enroll {
                request_id: request_id.clone(),
                operation_id: operation_id.clone(),
                device_id: device_id.clone(),
            },
        ),
        Request::StartVerify { request_id, operation_id, device_id, template_base64 } => {
            match super::data::decode_template_data(template_base64.as_str()) {
                Ok(template) => Ok(
                    Dispatch::Verify {
                        request_id: request_id.clone(),
                        operation_id: operation_id.clone(),
                        device_id: device_id.clone(),
                        template,
                    },
                ),
                Err(error) => Err(WorkerError::new("template", error.message())),
            }
        },
        Request::StartCapture { .. } => Err(
            WorkerError::new(
                "unsupported",
                "this worker drives match-on-chip devices; it emits no frames",
            ),
        ),
        Request::Cancel { .. } => Err(
            WorkerError::new(
                "unsupported",
                "operations here are synchronous and cannot be cancelled mid-flight",
            ),
        ),
        Request::Shutdown { .. } => Ok(Dispatch::Reply(Vec::new())),
    }
}

/// The answer to `Enumerate`: the devices the worker found.
pub fn devices_reply(request_id: &str, devices: Vec<DeviceInfo>) -> (response: Response)
    ensures
        response matches Response::Devices { request_id: r, devices: d } && r@ == request_id@
            && d@ == devices@,
{
    Response::Devices { request_id: request_id.to_string(), devices }
}

/// The progress a device reported that is passed on: retries are dropped, and each total is at
/// least the total the device declared before enrolling.
pub open spec fn reported_progress(progress: Seq<(u32, u32, bool)>, declared_total: u32) -> Seq<
    (u32, u32),
>
    decreases progress.len(),
{
    if progress.len() == 0 {
        seq![]
    } else {
        let rest = reported_progress(progress.drop_last(), declared_total);
        let (completed, total, retry) = progress.last();
        if retry {
            rest
        } else {
            rest.push(
                (
                    completed,
                    if total > declared_total {
                        total
                    } else {
                        declared_total
                    },
                ),
            )
        }
    }
}

/// The replies to a finished enrollment: `Started`, the reported progress, the device's template
/// as `Enrolled`, and `Completed`. `progress` holds each report as `(completed, total, retry)`.
pub fn enrollment_replies(
    request_id: &str,
    operation_id: &str,
    declared_total: u32,
    progress: &[(u32, u32, bool)],
    template: &[u8],
) -> (res: Result<Vec<Response>, WorkerError>)
    ensures
        match template_data_encoding(template@) {
            Err(problem) => res matches Err(e) && e.code@ == "serialize"@ && e.message@ == problem,
            Ok(text) => res matches Ok(replies) && {
                let reported = reported_progress(progress@, declared_total);
                &&& replies@.len() == reported.len() + 3
                &&& replies@[0] matches Response::Started { request_id: r, operation_id: o }
                    && r@ == request_id@ && o@ == operation_id@
                &&& forall|i: int|
                    0 <= i < reported.len() ==> (#[trigger] replies@[i + 1] matches
                        Response::EnrollProgress { operation_id: o, completed_stages: c, total_stages: t }
                        && o@ == operation_id@ && c == reported[i].0 && t == reported[i].1)
                &&& replies@[reported.len() as int + 1] matches Response::Enrolled {
                    operation_id: o,
                    template_base64: b,
                } && o@ == operation_id@ && b@ == text && template_data_decoding(b@) == Ok::<
                    Seq<u8>,
                    Seq<char>,
                >(template@)
                &&& replies@[reported.len() as int + 2] matches Response::Completed { operation_id: o }
                    && o@ == operation_id@
            },
        },
{
    let mut replies: Vec<Response> = Vec::new();
    replies.push(
        Response::Started {
            request_id: request_id.to_string(),
            operation_id: operation_id.to_string(),
        },
    );
    let mut i: usize = 0;
    while i < progress.len()
        invariant
            0 <= i <= progress@.len(),
            replies@.len() == reported_progress(progress@.take(i as int), declared_total).len() + 1,
            replies@[0] matches Response::Started { request_id: r, operation_id: o } && r@
                == request_id@ && o@ == operation_id@,
            forall|j: int|
                0 <= j < reported_progress(progress@.take(i as int), declared_total).len() ==> (
                #[trigger] replies@[j + 1] matches Response::EnrollProgress {
                    operation_id: o,
                    completed_stages: c,
                    total_stages: t,
                } && o@ == operation_id@ && c == reported_progress(
                    progress@.take(i as int),
                    declared_total,
                )[j].0 && t == reported_progress(progress@.take(i as int), declared_total)[j].1),
        decreases progress@.len() - i,
    {
        assert(progress@.take(i + 1).drop_last() =~= progress@.take(i as int));
        let (completed, total, retry) = progress[i];
        if !retry {
            let stages = if total > declared_total {
                total
            } else {
                declared_total
            };
            replies.push(
                Response::EnrollProgress {
                    operation_id: operation_id.to_string(),
                    completed_stages: completed,
                    total_stages: stages,
                },
            );
        }
        i += 1;
    }
    assert(progress@.take(i as int) =~= progress@);
    let text = match encode_template_data(template) {
        Ok(text) => text,
        Err(error) => {
            return Err(WorkerError::new("serialize", error.message()));
        },
    };
    replies.push(
        Response::Enrolled { operation_id: operation_id.to_string(), template_base64: text },
    );
    replies.push(Response::Completed { operation_id: operation_id.to_string() });
    Ok(replies)
}

/// The replies to a finished verification: `Started`, the device's verdict, and `Completed`.
pub fn verification_replies(request_id: &str, operation_id: &str, matched: bool) -> (replies: Vec<
    Response,
>)
    ensures
        replies@.len() == 3,
        replies@[0] matches Response::Started { request_id: r, operation_id: o } && r@
            == request_id@ && o@ == operation_id@,
        replies@[1] matches Response::MatchResult { operation_id: o, matched: m } && o@
            == operation_id@ && m == matched,
        replies@[2] matches Response::Completed { operation_id: o } && o@ == operation_id@,
{
    let mut replies: Vec<Response> = Vec::new();
    replies.push(
        Response::Started {
            request_id: request_id.to_string(),
            operation_id: operation_id.to_string(),
        },
    );
    replies.push(Response::MatchResult { operation_id: operation_id.to_string(), matched });
    replies.push(Response::Completed { operation_id: operation_id.to_string() });
    replies
}


/// The reply to a line that did not decode as a request: it names no request, since none could
/// be read.
pub fn malformed_reply(error: &Error) -> (response: Response)
    ensures
        response matches Response::Error { request_id: r, operation_id: o, code: c, message: m }
            && r is None && o is None && c@ == "malformed"@ && m@ == error.text(),
{
    protocol_error(None, None, "malformed", error.message().to_string())
}

/// What a worker does with a decoded request.
pub enum Admission {
    /// The session refuses it; write this reply and read on.
    Refused(Response),
    /// The host asked the worker to shut down.
    Stop,
    /// Serve the request.
    Serve,
}

/// Admit one decoded request into the worker's own view of the session.
pub fn admit_request(validator: &mut SessionValidator, request: &Request) -> (admission: Admission)
    ensures
        match request_step(old(validator)@, *request) {
            Err(reason) => final(validator)@ == old(validator)@ && (admission matches
                Admission::Refused(Response::Error { request_id: r, operation_id: o, code: c, message: m })
                && optional_view(r) == Some(request.spec_request_id()) && o is None && c@
                == "out_of_order"@ && m@ == reason),
            Ok(next) => final(validator)@ == next && (if request is Shutdown {
                admission is Stop
            } else {
                admission is Serve
            }),
        },
{
    match validator.accept_request(request) {
        Err(error) => Admission::Refused(
            protocol_error(
                Some(request.request_id().clone()),
                None,
                "out_of_order",
                error.message().to_string(),
            ),
        ),
        Ok(()) => match request {
            Request::Shutdown { .. } => Admission::Stop,
            _ => Admission::Serve,
        },
    }
}

/// Check one of the worker's own replies against its view of the session, then encode it as a
/// line; a reply the session refuses is the worker's own bug and is reported as `self_check`.
pub fn emit_line(validator: &mut SessionValidator, response: &Response) -> (res: Result<
    Vec<u8>,
    WorkerError,
>)
    ensures
        match response_step(old(validator)@, *response) {
            Err(reason) => final(validator)@ == old(validator)@ && (res matches Err(e) && e.code@
                == "self_check"@ && e.message@ == reason),
            Ok(next) => final(validator)@ == next && (match response_encoding(*response) {
                Ok(line) => res matches Ok(bytes) && bytes@ == line,
                Err(reason) => res matches Err(e) && e.code@ == "encode"@ && e.message@ == reason,
            }),
        },
{
    if let Err(error) = validator.accept_response(response) {
        return Err(WorkerError::new("self_check", error.message()));
    }
    match encode_response(response) {
        Ok(line) => Ok(line),
        Err(error) => Err(WorkerError::new("encode", error.message())),
    }
}

} // verus!
