//! The stateful session validator: which request and which response may come next.

use vstd::prelude::*;

use super::message::{OperationKind, Request, Response, PROTOCOL_VERSION};
use super::validate::{request_problem, response_problem, validate_request, validate_response};
use crate::error::{err_text, problem_of, Error};

verus! {

/// Most distinct request identifiers, and most distinct operation identifiers, one session
/// tracks.
pub const MAX_TRACKED_IDENTIFIERS: usize = 4096;

/// Where a session stands, with the identifiers it is waiting on.
pub enum SessionPhase {
    /// Nothing but `Hello` is accepted.
    NeedHello,
    /// `Hello` was sent; its acknowledgement is due.
    AwaitHelloAck { request_id: Seq<char> },
    /// Negotiated; no operation is active.
    Ready,
    /// `Enumerate` was sent; the device list is due.
    AwaitDevices { request_id: Seq<char> },
    /// An operation was requested; `Started` is due.
    AwaitStarted { request_id: Seq<char>, operation_id: Seq<char>, kind: OperationKind },
    /// A capture is running.
    Capturing {
        operation_id: Seq<char>,
        finger_present: bool,
        saw_frame: bool,
        last_sequence: Option<u64>,
    },
    /// An enrollment is running; `enrolled` once the template has arrived.
    Enrolling { operation_id: Seq<char>, last_completed: Option<u32>, enrolled: bool },
    /// A verification is running; `reported` once the verdict has arrived.
    Verifying { operation_id: Seq<char>, reported: bool },
    /// `Cancel` was sent; `Cancelled` is due.
    AwaitCancelled { request_id: Seq<char>, operation_id: Seq<char> },
    /// The session was shut down.
    Closed,
}

/// The abstract state of a session: its phase and every identifier it has accepted, in order.
pub struct SessionModel {
    pub phase: SessionPhase,
    pub request_ids: Seq<Seq<char>>,
    pub operation_ids: Seq<Seq<char>>,
}

/// Identifiers never repeat, and at most `MAX_TRACKED_IDENTIFIERS` of each are kept.
pub open spec fn model_wf(m: SessionModel) -> bool {
    &&& m.request_ids.no_duplicates()
    &&& m.operation_ids.no_duplicates()
    &&& m.request_ids.len() <= MAX_TRACKED_IDENTIFIERS
    &&& m.operation_ids.len() <= MAX_TRACKED_IDENTIFIERS
}

/// The state a fresh session starts in.
pub open spec fn initial_model() -> SessionModel {
    SessionModel { phase: SessionPhase::NeedHello, request_ids: seq![], operation_ids: seq![] }
}

/// The operation that the phase has running, if one is running.
pub open spec fn active_operation(phase: SessionPhase) -> Option<Seq<char>> {
    match phase {
        SessionPhase::Capturing { operation_id, .. } => Some(operation_id),
        SessionPhase::Enrolling { operation_id, .. } => Some(operation_id),
        SessionPhase::Verifying { operation_id, .. } => Some(operation_id),
        _ => None,
    }
}

/// How a phase answers a well-formed request whose identifiers are fresh.
pub open spec fn request_phase_step(phase: SessionPhase, request: Request) -> Result<
    SessionPhase,
    Seq<char>,
> {
    match phase {
        SessionPhase::NeedHello => match request {
            Request::Hello { request_id, protocol_version } => if protocol_version
                != PROTOCOL_VERSION {
                Err("experimental protocol version mismatch"@)
            } else {
                Ok(SessionPhase::AwaitHelloAck { request_id: request_id@ })
            },
            _ => Err("hello is required before any command"@),
        },
        SessionPhase::Ready => match request {
            Request::Enumerate { request_id } => Ok(
                SessionPhase::AwaitDevices { request_id: request_id@ },
            ),
            Request::StartCapture { request_id, operation_id, .. } => Ok(
                SessionPhase::AwaitStarted {
                    request_id: request_id@,
                    operation_id: operation_id@,
                    kind: OperationKind::Capture,
                },
            ),
            Request::StartEnroll { request_id, operation_id, .. } => Ok(
                SessionPhase::AwaitStarted {
                    request_id: request_id@,
                    operation_id: operation_id@,
                    kind: OperationKind::Enroll,
                },
            ),
            Request::StartVerify { request_id, operation_id, .. } => Ok(
                SessionPhase::AwaitStarted {
                    request_id: request_id@,
                    operation_id: operation_id@,
                    kind: OperationKind::Verify,
                },
            ),
            Request::Shutdown { .. } => Ok(SessionPhase::Closed),
            Request::Cancel { .. } => Err("cancel requires an active operation"@),
            Request::Hello { .. } => Err("hello may only be sent once"@),
        },
        SessionPhase::Closed => Err("protocol session is closed"@),
        _ => {
            if request.spec_starts() is Some && (active_operation(phase) is Some
                || phase is AwaitStarted) {
                Err("an operation is already active"@)
            } else {
                match (active_operation(phase), request) {
                    (Some(active), Request::Cancel { request_id, operation_id }) => if active
                        != operation_id@ {
                        Err("cancel operation ID does not match active operation"@)
                    } else {
                        Ok(
                            SessionPhase::AwaitCancelled {
                                request_id: request_id@,
                                operation_id: active,
                            },
                        )
                    },
                    _ => Err("request is out of order for the protocol state"@),
                }
            }
        },
    }
}

/// How a session answers a request: the state after it, or the reason it is refused. A refused
/// request changes nothing.
pub open spec fn request_step(m: SessionModel, request: Request) -> Result<
    SessionModel,
    Seq<char>,
> {
    let request_id = request.spec_request_id();
    let started = request.spec_started_operation_id();
    if request_problem(request) is Some {
        Err(request_problem(request).unwrap())
    } else if m.request_ids.contains(request_id) {
        Err("request ID has already been used"@)
    } else if m.request_ids.len() >= MAX_TRACKED_IDENTIFIERS {
        Err("protocol request ID limit reached"@)
    } else if started is Some && m.operation_ids.contains(started.unwrap()) {
        Err("operation ID has already been used"@)
    } else if started is Some && m.operation_ids.len() >= MAX_TRACKED_IDENTIFIERS {
        Err("protocol operation ID limit reached"@)
    } else {
        match request_phase_step(m.phase, request) {
            Err(reason) => Err(reason),
            Ok(phase) => Ok(
                SessionModel {
                    phase,
                    request_ids: m.request_ids.push(request_id),
                    operation_ids: match started {
                        Some(operation_id) => m.operation_ids.push(operation_id),
                        None => m.operation_ids,
                    },
                },
            ),
        }
    }
}

/// The phase in which an operation of `kind` runs once the driver has started it.
pub open spec fn running_phase(operation_id: Seq<char>, kind: OperationKind) -> SessionPhase {
    match kind {
        OperationKind::Capture => SessionPhase::Capturing {
            operation_id,
            finger_present: false,
            saw_frame: false,
            last_sequence: None,
        },
        OperationKind::Enroll => SessionPhase::Enrolling {
            operation_id,
            last_completed: None,
            enrolled: false,
        },
        OperationKind::Verify => SessionPhase::Verifying { operation_id, reported: false },
    }
}

/// The reason given for a response that the phase does not expect.
pub open spec fn out_of_order_response() -> Seq<char> {
    "response event is out of order for the protocol state"@
}

/// How a phase answers a well-formed response that is not an error report.
pub open spec fn response_phase_step(phase: SessionPhase, response: Response) -> Result<
    SessionPhase,
    Seq<char>,
> {
    match phase {
        SessionPhase::AwaitHelloAck { request_id } => match response {
            Response::HelloAck { request_id: acknowledged, protocol_version } => if request_id
                != acknowledged@ || protocol_version != PROTOCOL_VERSION {
                Err("hello acknowledgement ID or version mismatch"@)
            } else {
                Ok(SessionPhase::Ready)
            },
            _ => Err(out_of_order_response()),
        },
        SessionPhase::AwaitDevices { request_id } => match response {
            Response::Devices { request_id: answered, .. } => if request_id != answered@ {
                Err("enumeration request ID mismatch"@)
            } else {
                Ok(SessionPhase::Ready)
            },
            _ => Err(out_of_order_response()),
        },
        SessionPhase::AwaitStarted { request_id, operation_id, kind } => match response {
            Response::Started { request_id: started_request, operation_id: started_operation } =>
                if request_id != started_request@ || operation_id != started_operation@ {
                Err("started event identifiers do not match"@)
            } else {
                Ok(running_phase(operation_id, kind))
            },
            _ => Err(out_of_order_response()),
        },
        SessionPhase::Enrolling { operation_id, last_completed, enrolled } => match response {
            Response::EnrollProgress { operation_id: event, completed_stages, .. } => if event@
                != operation_id {
                Err(out_of_order_response())
            } else if enrolled {
                Err("enrollment progress after the template was delivered"@)
            } else if last_completed is Some && completed_stages <= last_completed.unwrap() {
                Err("enrollment stage count must increase monotonically"@)
            } else {
                Ok(
                    SessionPhase::Enrolling {
                        operation_id,
                        last_completed: Some(completed_stages),
                        enrolled: false,
                    },
                )
            },
            Response::Enrolled { operation_id: event, .. } => if event@ == operation_id
                && !enrolled {
                Ok(SessionPhase::Enrolling { operation_id, last_completed, enrolled: true })
            } else {
                Err(out_of_order_response())
            },
            Response::Completed { operation_id: event } => if event@ == operation_id
                && enrolled {
                Ok(SessionPhase::Ready)
            } else {
                Err(out_of_order_response())
            },
            _ => Err(out_of_order_response()),
        },
        SessionPhase::Verifying { operation_id, reported } => match response {
            Response::MatchResult { operation_id: event, .. } => if event@ == operation_id
                && !reported {
                Ok(SessionPhase::Verifying { operation_id, reported: true })
            } else {
                Err(out_of_order_response())
            },
            Response::FingerPresent { operation_id: event } => if event@ == operation_id {
                Ok(SessionPhase::Verifying { operation_id, reported })
            } else {
                Err(out_of_order_response())
            },
            Response::FingerRemoved { operation_id: event } => if event@ == operation_id {
                Ok(SessionPhase::Verifying { operation_id, reported })
            } else {
                Err(out_of_order_response())
            },
            Response::Completed { operation_id: event } => if event@ == operation_id
                && reported {
                Ok(SessionPhase::Ready)
            } else {
                Err(out_of_order_response())
            },
            _ => Err(out_of_order_response()),
        },
        SessionPhase::Capturing { operation_id, finger_present, saw_frame, last_sequence } =>
            match response {
            Response::FingerPresent { operation_id: event } => if event@ == operation_id
                && !finger_present {
                Ok(
                    SessionPhase::Capturing {
                        operation_id,
                        finger_present: true,
                        saw_frame,
                        last_sequence,
                    },
                )
            } else {
                Err(out_of_order_response())
            },
            Response::Frame { operation_id: event, sequence, .. } => if event@ != operation_id
                || !finger_present {
                Err(out_of_order_response())
            } else if last_sequence is Some && sequence <= last_sequence.unwrap() {
                Err("frame sequence must increase monotonically"@)
            } else {
                Ok(
                    SessionPhase::Capturing {
                        operation_id,
                        finger_present: true,
                        saw_frame: true,
                        last_sequence: Some(sequence),
                    },
                )
            },
            Response::FingerRemoved { operation_id: event } => if event@ == operation_id
                && finger_present {
                Ok(
                    SessionPhase::Capturing {
                        operation_id,
                        finger_present: false,
                        saw_frame,
                        last_sequence,
                    },
                )
            } else {
                Err(out_of_order_response())
            },
            Response::Completed { operation_id: event } => if event@ == operation_id
                && !finger_present && saw_frame {
                Ok(SessionPhase::Ready)
            } else {
                Err(out_of_order_response())
            },
            _ => Err(out_of_order_response()),
        },
        SessionPhase::AwaitCancelled { request_id, operation_id } => match response {
            Response::Cancelled {
                request_id: cancelled_request,
                operation_id: cancelled_operation,
            } => if request_id != cancelled_request@ || operation_id != cancelled_operation@ {
                Err("cancelled event identifiers do not match"@)
            } else {
                Ok(SessionPhase::Ready)
            },
            _ => Err(out_of_order_response()),
        },
        SessionPhase::NeedHello => Err("response received before hello negotiation"@),
        SessionPhase::Closed => Err("protocol session is closed"@),
        SessionPhase::Ready => Err(out_of_order_response()),
    }
}

/// The view of an optional identifier.
pub open spec fn optional_view(value: Option<String>) -> Option<Seq<char>> {
    match value {
        Some(v) => Some(v@),
        None => None,
    }
}

/// How a phase answers an error report that names `request_id` and `operation_id`: the
/// report must correlate with what the phase is waiting on.
pub open spec fn error_phase_step(
    phase: SessionPhase,
    request_id: Option<Seq<char>>,
    operation_id: Option<Seq<char>>,
) -> Result<SessionPhase, Seq<char>> {
    let mismatch = "error response identifiers do not match protocol state"@;
    match phase {
        SessionPhase::AwaitHelloAck { request_id: awaited } => if request_id == Some(awaited)
            && operation_id is None {
            Ok(SessionPhase::NeedHello)
        } else {
            Err(mismatch)
        },
        SessionPhase::AwaitDevices { request_id: awaited } => if request_id == Some(awaited)
            && operation_id is None {
            Ok(SessionPhase::Ready)
        } else {
            Err(mismatch)
        },
        SessionPhase::AwaitStarted { request_id: awaited, operation_id: requested, .. } => if request_id
            == Some(awaited) && (operation_id is None || operation_id == Some(requested)) {
            Ok(SessionPhase::Ready)
        } else {
            Err(mismatch)
        },
        SessionPhase::AwaitCancelled { request_id: awaited, operation_id: cancelled } => if request_id
            == Some(awaited) && operation_id == Some(cancelled) {
            Ok(SessionPhase::Ready)
        } else {
            Err(mismatch)
        },
        SessionPhase::NeedHello => Err("error response received before hello negotiation"@),
        SessionPhase::Ready => Err("unsolicited protocol error response"@),
        SessionPhase::Closed => Err("protocol session is closed"@),
        _ => if request_id is None && operation_id == active_operation(phase) {
            Ok(SessionPhase::Ready)
        } else {
            Err(mismatch)
        },
    }
}

/// How a phase answers a well-formed response: error reports are correlated with what the
/// phase awaits, every other response must be the event the phase expects.
#[verifier::opaque]
pub open spec fn response_phase_outcome(phase: SessionPhase, response: Response) -> Result<
    SessionPhase,
    Seq<char>,
> {
    match response {
        Response::Error { request_id, operation_id, .. } => error_phase_step(
            phase,
            optional_view(request_id),
            optional_view(operation_id),
        ),
        _ => response_phase_step(phase, response),
    }
}

/// How a session answers a response: the state after it, or the reason it is refused. Neither
/// outcome changes the identifiers the session has accepted, and a refused response changes
/// nothing.
pub open spec fn response_step(m: SessionModel, response: Response) -> Result<
    SessionModel,
    Seq<char>,
> {
    if response_problem(response) is Some {
        Err(response_problem(response).unwrap())
    } else {
        match response_phase_outcome(m.phase, response) {
            Err(reason) => Err(reason),
            Ok(phase) => Ok(
                SessionModel {
                    phase,
                    request_ids: m.request_ids,
                    operation_ids: m.operation_ids,
                },
            ),
        }
    }
}

} // verus!

verus! {

/// Where a session stands, holding the identifiers it is waiting on.
enum SessionState {
    NeedHello,
    AwaitHelloAck { request_id: String },
    Ready,
    AwaitDevices { request_id: String },
    AwaitStarted { request_id: String, operation_id: String, kind: OperationKind },
    Capturing {
        operation_id: String,
        finger_present: bool,
        saw_frame: bool,
        last_sequence: Option<u64>,
    },
    Enrolling { operation_id: String, last_completed: Option<u32>, enrolled: bool },
    Verifying { operation_id: String, reported: bool },
    AwaitCancelled { request_id: String, operation_id: String },
    Closed,
}

impl SessionState {
    spec fn phase(&self) -> SessionPhase {
        match self {
            SessionState::NeedHello => SessionPhase::NeedHello,
            SessionState::AwaitHelloAck { request_id } => SessionPhase::AwaitHelloAck {
                request_id: request_id@,
            },
            SessionState::Ready => SessionPhase::Ready,
            SessionState::AwaitDevices { request_id } => SessionPhase::AwaitDevices {
                request_id: request_id@,
            },
            SessionState::AwaitStarted { request_id, operation_id, kind } =>
                SessionPhase::AwaitStarted {
                request_id: request_id@,
                operation_id: operation_id@,
                kind: *kind,
            },
            SessionState::Capturing { operation_id, finger_present, saw_frame, last_sequence } =>
                SessionPhase::Capturing {
                operation_id: operation_id@,
                finger_present: *finger_present,
                saw_frame: *saw_frame,
                last_sequence: *last_sequence,
            },
            SessionState::Enrolling { operation_id, last_completed, enrolled } =>
                SessionPhase::Enrolling {
                operation_id: operation_id@,
                last_completed: *last_completed,
                enrolled: *enrolled,
            },
            SessionState::Verifying { operation_id, reported } => SessionPhase::Verifying {
                operation_id: operation_id@,
                reported: *reported,
            },
            SessionState::AwaitCancelled { request_id, operation_id } =>
                SessionPhase::AwaitCancelled {
                request_id: request_id@,
                operation_id: operation_id@,
            },
            SessionState::Closed => SessionPhase::Closed,
        }
    }
}

/// The views of a sequence of identifiers.
pub open spec fn identifier_views(ids: Seq<String>) -> Seq<Seq<char>> {
    ids.map_values(|id: String| id@)
}

fn contains_identifier(ids: &Vec<String>, id: &String) -> (found: bool)
    ensures
        found == identifier_views(ids@).contains(id@),
{
    let mut i: usize = 0;
    while i < ids.len()
        invariant
            0 <= i <= ids@.len(),
            forall|j: int| 0 <= j < i ==> #[trigger] identifier_views(ids@)[j] != id@,
        decreases ids@.len() - i,
    {
        if ids[i] == *id {
            assert(identifier_views(ids@)[i as int] == id@);
            return true;
        }
        i += 1;
    }
    false
}

proof fn lemma_push_identifier(ids: Seq<String>, id: String)
    requires
        identifier_views(ids).no_duplicates(),
        !identifier_views(ids).contains(id@),
    ensures
        identifier_views(ids.push(id)) == identifier_views(ids).push(id@),
        identifier_views(ids.push(id)).no_duplicates(),
{
    assert(identifier_views(ids.push(id)) =~= identifier_views(ids).push(id@));
}

/// Stateful validator for request/response negotiation and event ordering.
///
/// It accepts a request or a response only when it is valid in the current state, and a
/// refused message leaves the session as it was.
pub struct SessionValidator {
    state: SessionState,
    seen_request_ids: Vec<String>,
    seen_operation_ids: Vec<String>,
}

impl View for SessionValidator {
    type V = SessionModel;

    closed spec fn view(&self) -> SessionModel {
        SessionModel {
            phase: self.state.phase(),
            request_ids: identifier_views(self.seen_request_ids@),
            operation_ids: identifier_views(self.seen_operation_ids@),
        }
    }
}

impl SessionValidator {
    #[verifier::type_invariant]
    spec fn tracked_identifiers_are_distinct(&self) -> bool {
        model_wf(self@)
    }

    /// Start a session in the hello-required state.
    pub fn new() -> (validator: SessionValidator)
        ensures
            validator@ == initial_model(),
    {
        let validator = SessionValidator {
            state: SessionState::NeedHello,
            seen_request_ids: Vec::new(),
            seen_operation_ids: Vec::new(),
        };
        assert(validator@.request_ids =~= Seq::<Seq<char>>::empty());
        assert(validator@.operation_ids =~= Seq::<Seq<char>>::empty());
        validator
    }
}

impl Default for SessionValidator {
    /// A session in the hello-required state.
    fn default() -> (validator: SessionValidator)
        ensures
            validator@ == initial_model(),
    {
        SessionValidator::new()
    }
}

} // verus!

verus! {

spec fn state_outcome(res: Result<SessionState, Error>, spec: Result<SessionPhase, Seq<char>>) -> bool {
    match spec {
        Ok(phase) => res matches Ok(s) && s.phase() == phase,
        Err(reason) => err_text(res) == Some(reason),
    }
}

fn active_operation_of(state: &SessionState) -> (active: Option<&String>)
    ensures
        match active {
            Some(id) => active_operation(state.phase()) == Some(id@),
            None => active_operation(state.phase()) is None,
        },
{
    match state {
        SessionState::Capturing { operation_id, .. } => Some(operation_id),
        SessionState::Enrolling { operation_id, .. } => Some(operation_id),
        SessionState::Verifying { operation_id, .. } => Some(operation_id),
        _ => None,
    }
}

fn request_transition(state: &SessionState, request: &Request) -> (res: Result<SessionState, Error>)
    ensures
        state_outcome(res, request_phase_step(state.phase(), *request)),
{
    match state {
        SessionState::NeedHello => match request {
            Request::Hello { request_id, protocol_version } => {
                if *protocol_version != PROTOCOL_VERSION {
                    Err(Error::invalid("experimental protocol version mismatch"))
                } else {
                    Ok(SessionState::AwaitHelloAck { request_id: request_id.clone() })
                }
            },
            _ => Err(Error::invalid("hello is required before any command")),
        },
        SessionState::Ready => match request {
            Request::Enumerate { request_id } => Ok(
                SessionState::AwaitDevices { request_id: request_id.clone() },
            ),
            Request::StartCapture { request_id, operation_id, .. } => Ok(
                SessionState::AwaitStarted {
                    request_id: request_id.clone(),
                    operation_id: operation_id.clone(),
                    kind: OperationKind::Capture,
                },
            ),
            Request::StartEnroll { request_id, operation_id, .. } => Ok(
                SessionState::AwaitStarted {
                    request_id: request_id.clone(),
                    operation_id: operation_id.clone(),
                    kind: OperationKind::Enroll,
                },
            ),
            Request::StartVerify { request_id, operation_id, .. } => Ok(
                SessionState::AwaitStarted {
                    request_id: request_id.clone(),
                    operation_id: operation_id.clone(),
                    kind: OperationKind::Verify,
                },
            ),
            Request::Shutdown { .. } => Ok(SessionState::Closed),
            Request::Cancel { .. } => Err(Error::invalid("cancel requires an active operation")),
            Request::Hello { .. } => Err(Error::invalid("hello may only be sent once")),
        },
        SessionState::Closed => Err(Error::invalid("protocol session is closed")),
        _ => {
            let active = active_operation_of(state);
            let awaiting_start = match state {
                SessionState::AwaitStarted { .. } => true,
                _ => false,
            };
            if request.starts().is_some() && (active.is_some() || awaiting_start) {
                return Err(Error::invalid("an operation is already active"));
            }
            match (active, request) {
                (Some(current), Request::Cancel { request_id, operation_id }) => {
                    if *current != *operation_id {
                        Err(Error::invalid("cancel operation ID does not match active operation"))
                    } else {
                        Ok(
                            SessionState::AwaitCancelled {
                                request_id: request_id.clone(),
                                operation_id: current.clone(),
                            },
                        )
                    }
                },
                _ => Err(Error::invalid("request is out of order for the protocol state")),
            }
        },
    }
}

fn out_of_order() -> (e: Error)
    ensures
        e.text() == out_of_order_response(),
{
    Error::invalid("response event is out of order for the protocol state")
}

fn running_state(operation_id: String, kind: OperationKind) -> (state: SessionState)
    ensures
        state.phase() == running_phase(operation_id@, kind),
{
    match kind {
        OperationKind::Capture => SessionState::Capturing {
            operation_id,
            finger_present: false,
            saw_frame: false,
            last_sequence: None,
        },
        OperationKind::Enroll => SessionState::Enrolling {
            operation_id,
            last_completed: None,
            enrolled: false,
        },
        OperationKind::Verify => SessionState::Verifying { operation_id, reported: false },
    }
}

fn response_transition(state: &SessionState, response: &Response) -> (res: Result<
    SessionState,
    Error,
>)
    ensures
        state_outcome(res, response_phase_step(state.phase(), *response)),
{
    match state {
        SessionState::AwaitHelloAck { request_id } => match response {
            Response::HelloAck { request_id: acknowledged, protocol_version } => {
                if *request_id != *acknowledged || *protocol_version != PROTOCOL_VERSION {
                    Err(Error::invalid("hello acknowledgement ID or version mismatch"))
                } else {
                    Ok(SessionState::Ready)
                }
            },
            _ => Err(out_of_order()),
        },
        SessionState::AwaitDevices { request_id } => match response {
            Response::Devices { request_id: answered, .. } => {
                if *request_id != *answered {
                    Err(Error::invalid("enumeration request ID mismatch"))
                } else {
                    Ok(SessionState::Ready)
                }
            },
            _ => Err(out_of_order()),
        },
        SessionState::AwaitStarted { request_id, operation_id, kind } => match response {
            Response::Started { request_id: started_request, operation_id: started_operation } => {
                if *request_id != *started_request || *operation_id != *started_operation {
                    Err(Error::invalid("started event identifiers do not match"))
                } else {
                    Ok(running_state(operation_id.clone(), *kind))
                }
            },
            _ => Err(out_of_order()),
        },
        SessionState::Enrolling { operation_id, last_completed, enrolled } => match response {
            Response::EnrollProgress { operation_id: event, completed_stages, .. } => {
                if *event != *operation_id {
                    Err(out_of_order())
                } else if *enrolled {
                    Err(Error::invalid("enrollment progress after the template was delivered"))
                } else {
                    match last_completed {
                        Some(last) => if *completed_stages <= *last {
                            return Err(
                                Error::invalid(
                                    "enrollment stage count must increase monotonically",
                                ),
                            );
                        },
                        None => {},
                    }
                    Ok(
                        SessionState::Enrolling {
                            operation_id: operation_id.clone(),
                            last_completed: Some(*completed_stages),
                            enrolled: false,
                        },
                    )
                }
            },
            Response::Enrolled { operation_id: event, .. } => {
                if *event == *operation_id && !*enrolled {
                    Ok(
                        SessionState::Enrolling {
                            operation_id: operation_id.clone(),
                            last_completed: *last_completed,
                            enrolled: true,
                        },
                    )
                } else {
                    Err(out_of_order())
                }
            },
            Response::Completed { operation_id: event } => {
                if *event == *operation_id && *enrolled {
                    Ok(SessionState::Ready)
                } else {
                    Err(out_of_order())
                }
            },
            _ => Err(out_of_order()),
        },
        SessionState::Verifying { operation_id, reported } => match response {
            Response::MatchResult { operation_id: event, .. } => {
                if *event == *operation_id && !*reported {
                    Ok(SessionState::Verifying { operation_id: operation_id.clone(), reported: true })
                } else {
                    Err(out_of_order())
                }
            },
            Response::FingerPresent { operation_id: event } => {
                if *event == *operation_id {
                    Ok(
                        SessionState::Verifying {
                            operation_id: operation_id.clone(),
                            reported: *reported,
                        },
                    )
                } else {
                    Err(out_of_order())
                }
            },
            Response::FingerRemoved { operation_id: event } => {
                if *event == *operation_id {
                    Ok(
                        SessionState::Verifying {
                            operation_id: operation_id.clone(),
                            reported: *reported,
                        },
                    )
                } else {
                    Err(out_of_order())
                }
            },
            Response::Completed { operation_id: event } => {
                if *event == *operation_id && *reported {
                    Ok(SessionState::Ready)
                } else {
                    Err(out_of_order())
                }
            },
            _ => Err(out_of_order()),
        },
        SessionState::Capturing { operation_id, finger_present, saw_frame, last_sequence } =>
            match response {
            Response::FingerPresent { operation_id: event } => {
                if *event == *operation_id && !*finger_present {
                    Ok(
                        SessionState::Capturing {
                            operation_id: operation_id.clone(),
                            finger_present: true,
                            saw_frame: *saw_frame,
                            last_sequence: *last_sequence,
                        },
                    )
                } else {
                    Err(out_of_order())
                }
            },
            Response::Frame { operation_id: event, sequence, .. } => {
                if *event != *operation_id || !*finger_present {
                    Err(out_of_order())
                } else {
                    match last_sequence {
                        Some(last) => if *sequence <= *last {
                            return Err(
                                Error::invalid("frame sequence must increase monotonically"),
                            );
                        },
                        None => {},
                    }
                    Ok(
                        SessionState::Capturing {
                            operation_id: operation_id.clone(),
                            finger_present: true,
                            saw_frame: true,
                            last_sequence: Some(*sequence),
                        },
                    )
                }
            },
            Response::FingerRemoved { operation_id: event } => {
                if *event == *operation_id && *finger_present {
                    Ok(
                        SessionState::Capturing {
                            operation_id: operation_id.clone(),
                            finger_present: false,
                            saw_frame: *saw_frame,
                            last_sequence: *last_sequence,
                        },
                    )
                } else {
                    Err(out_of_order())
                }
            },
            Response::Completed { operation_id: event } => {
                if *event == *operation_id && !*finger_present && *saw_frame {
                    Ok(SessionState::Ready)
                } else {
                    Err(out_of_order())
                }
            },
            _ => Err(out_of_order()),
        },
        SessionState::AwaitCancelled { request_id, operation_id } => match response {
            Response::Cancelled {
                request_id: cancelled_request,
                operation_id: cancelled_operation,
            } => {
                if *request_id != *cancelled_request || *operation_id != *cancelled_operation {
                    Err(Error::invalid("cancelled event identifiers do not match"))
                } else {
                    Ok(SessionState::Ready)
                }
            },
            _ => Err(out_of_order()),
        },
        SessionState::NeedHello => Err(
            Error::invalid("response received before hello negotiation"),
        ),
        SessionState::Closed => Err(Error::invalid("protocol session is closed")),
        SessionState::Ready => Err(out_of_order()),
    }
}

fn response_phase_transition(state: &SessionState, response: &Response) -> (res: Result<
    SessionState,
    Error,
>)
    ensures
        state_outcome(res, response_phase_outcome(state.phase(), *response)),
{
    reveal(response_phase_outcome);
    match response {
        Response::Error { request_id, operation_id, .. } => error_transition(
            state,
            request_id,
            operation_id,
        ),
        _ => response_transition(state, response),
    }
}

fn names(value: &Option<String>, expected: &String) -> (same: bool)
    ensures
        same == (optional_view(*value) == Some(expected@)),
{
    match value {
        Some(v) => *v == *expected,
        None => false,
    }
}

fn error_transition(
    state: &SessionState,
    request_id: &Option<String>,
    operation_id: &Option<String>,
) -> (res: Result<SessionState, Error>)
    ensures
        state_outcome(
            res,
            error_phase_step(state.phase(), optional_view(*request_id), optional_view(*operation_id)),
        ),
{
    let mismatch = "error response identifiers do not match protocol state";
    match state {
        SessionState::AwaitHelloAck { request_id: awaited } => {
            if names(request_id, awaited) && operation_id.is_none() {
                Ok(SessionState::NeedHello)
            } else {
                Err(Error::invalid(mismatch))
            }
        },
        SessionState::AwaitDevices { request_id: awaited } => {
            if names(request_id, awaited) && operation_id.is_none() {
                Ok(SessionState::Ready)
            } else {
                Err(Error::invalid(mismatch))
            }
        },
        SessionState::AwaitStarted { request_id: awaited, operation_id: requested, .. } => {
            if names(request_id, awaited) && (operation_id.is_none() || names(
                operation_id,
                requested,
            )) {
                Ok(SessionState::Ready)
            } else {
                Err(Error::invalid(mismatch))
            }
        },
        SessionState::AwaitCancelled { request_id: awaited, operation_id: cancelled } => {
            if names(request_id, awaited) && names(operation_id, cancelled) {
                Ok(SessionState::Ready)
            } else {
                Err(Error::invalid(mismatch))
            }
        },
        SessionState::NeedHello => Err(
            Error::invalid("error response received before hello negotiation"),
        ),
        SessionState::Ready => Err(Error::invalid("unsolicited protocol error response")),
        SessionState::Closed => Err(Error::invalid("protocol session is closed")),
        SessionState::Capturing { operation_id: current, .. } | SessionState::Enrolling {
            operation_id: current,
            ..
        } | SessionState::Verifying { operation_id: current, .. } => {
            if request_id.is_none() && names(operation_id, current) {
                Ok(SessionState::Ready)
            } else {
                Err(Error::invalid(mismatch))
            }
        },
    }
}

} // verus!

verus! {

impl SessionValidator {
    /// Accept a host request only when it is valid in the current state.
    ///
    /// The outcome is `request_step`: a refused request leaves the session unchanged, and an
    /// accepted one records its request identifier (and the operation it starts, if any).
    pub fn accept_request(&mut self, request: &Request) -> (res: Result<(), Error>)
        ensures
            err_text(res) == problem_of(request_step(old(self)@, *request)),
            match request_step(old(self)@, *request) {
                Ok(next) => final(self)@ == next,
                Err(_) => final(self)@ == old(self)@,
            },
    {
        proof {
            use_type_invariant(&*self);
        }
        validate_request(request)?;
        let request_id = request.request_id();
        if contains_identifier(&self.seen_request_ids, request_id) {
            return Err(Error::invalid("request ID has already been used"));
        }
        if self.seen_request_ids.len() >= MAX_TRACKED_IDENTIFIERS {
            return Err(Error::invalid("protocol request ID limit reached"));
        }
        let started = request.started_operation_id();
        match started {
            Some(operation_id) => {
                if contains_identifier(&self.seen_operation_ids, operation_id) {
                    return Err(Error::invalid("operation ID has already been used"));
                }
                if self.seen_operation_ids.len() >= MAX_TRACKED_IDENTIFIERS {
                    return Err(Error::invalid("protocol operation ID limit reached"));
                }
            },
            None => {},
        }
        let next = request_transition(&self.state, request)?;
        proof {
            lemma_push_identifier(self.seen_request_ids@, *request_id);
        }
        let mut request_ids = Vec::new();
        std::mem::swap(&mut request_ids, &mut self.seen_request_ids);
        request_ids.push(request_id.clone());
        self.seen_request_ids = request_ids;
        match started {
            Some(operation_id) => {
                proof {
                    lemma_push_identifier(self.seen_operation_ids@, *operation_id);
                }
                let mut operation_ids = Vec::new();
                std::mem::swap(&mut operation_ids, &mut self.seen_operation_ids);
                operation_ids.push(operation_id.clone());
                self.seen_operation_ids = operation_ids;
            },
            None => {},
        }
        self.state = next;
        Ok(())
    }

    /// Accept a driver response or event only when identifiers and event order are valid.
    ///
    /// The outcome is `response_step`: a refused response leaves the session unchanged, and no
    /// response changes the identifiers the session has recorded.
    pub fn accept_response(&mut self, response: &Response) -> (res: Result<(), Error>)
        ensures
            err_text(res) == problem_of(response_step(old(self)@, *response)),
            match response_step(old(self)@, *response) {
                Ok(next) => final(self)@ == next,
                Err(_) => final(self)@ == old(self)@,
            },
    {
        proof {
            use_type_invariant(&*self);
        }
        validate_response(response)?;
        let next = response_phase_transition(&self.state, response)?;
        self.state = next;
        Ok(())
    }
}

} // verus!
