//! What every session guarantees, whatever the messages.

use vstd::prelude::*;

use super::message::{OperationKind, Request, Response, PROTOCOL_VERSION};
use super::validate::{request_problem, response_problem};
use super::session::{
    active_operation, initial_model, model_wf, request_step, response_phase_outcome,
    response_step, SessionModel, SessionPhase, MAX_TRACKED_IDENTIFIERS,
};

verus! {

/// Every step keeps the session well formed: recorded identifiers stay distinct and within the
/// tracking limit.
pub proof fn lemma_steps_keep_the_session_well_formed(
    m: SessionModel,
    request: Request,
    response: Response,
)
    requires
        model_wf(m),
    ensures
        request_step(m, request) matches Ok(next) ==> model_wf(next),
        response_step(m, response) matches Ok(next) ==> model_wf(next),
{
    if let Ok(next) = request_step(m, request) {
        let id = request.spec_request_id();
        assert forall|i: int, j: int|
            0 <= i < j < next.request_ids.len() implies next.request_ids[i]
            != next.request_ids[j] by {
            if j == m.request_ids.len() {
                assert(m.request_ids.contains(m.request_ids[i]));
            }
        }
        if let Some(op) = request.spec_started_operation_id() {
            assert forall|i: int, j: int|
                0 <= i < j < next.operation_ids.len() implies next.operation_ids[i]
                != next.operation_ids[j] by {
                if j == m.operation_ids.len() {
                    assert(m.operation_ids.contains(m.operation_ids[i]));
                }
            }
        }
    }
}

/// An accepted request records its identifier, and identifiers once recorded are never
/// forgotten: a request step only appends, a response step changes none.
pub proof fn lemma_identifiers_are_only_appended(m: SessionModel, request: Request, response: Response)
    ensures
        request_step(m, request) matches Ok(next) ==> {
            &&& next.request_ids == m.request_ids.push(request.spec_request_id())
            &&& next.request_ids.contains(request.spec_request_id())
            &&& m.operation_ids.is_prefix_of(next.operation_ids)
        },
        response_step(m, response) matches Ok(next) ==> {
            &&& next.request_ids == m.request_ids
            &&& next.operation_ids == m.operation_ids
        },
{
    if let Ok(next) = request_step(m, request) {
        assert(next.request_ids[m.request_ids.len() as int] == request.spec_request_id());
        assert(m.operation_ids.is_prefix_of(next.operation_ids));
    }
}

/// A request identifier that the session has recorded is refused from then on, and so is the
/// identifier of an operation that was already started.
pub proof fn lemma_recorded_identifiers_are_refused(m: SessionModel, request: Request)
    requires
        m.request_ids.contains(request.spec_request_id()) || (
        request.spec_started_operation_id() matches Some(op) && m.operation_ids.contains(op)),
    ensures
        request_step(m, request) is Err,
{
}

/// A fresh session accepts nothing but a valid `Hello` for this protocol version, and refuses
/// every response.
pub proof fn lemma_hello_comes_first(request: Request, response: Response)
    ensures
        request_step(initial_model(), request) is Ok ==> (request is Hello
            && request->Hello_protocol_version == PROTOCOL_VERSION),
        response_step(initial_model(), response) is Err,
{
    reveal(response_phase_outcome);
}

/// After `Shutdown` the session is closed for good: every request and response is refused.
pub proof fn lemma_closed_is_final(m: SessionModel, request: Request, response: Response)
    requires
        m.phase is Closed,
    ensures
        request_step(m, request) is Err,
        response_step(m, response) is Err,
{
    reveal(response_phase_outcome);
}

/// At most one operation runs at a time: a request that starts one is refused while another
/// is running or awaiting its start.
pub proof fn lemma_one_operation_at_a_time(m: SessionModel, request: Request)
    requires
        request.spec_starts() is Some,
        active_operation(m.phase) is Some || m.phase is AwaitStarted,
    ensures
        request_step(m, request) is Err,
{
}

/// The request that opened an operation decides which events may follow: a capture never
/// yields an enrollment event or a verdict, an enrollment never yields a frame or a verdict,
/// and a verification never yields a frame or an enrollment event.
pub proof fn lemma_events_follow_the_operation_kind(m: SessionModel, response: Response)
    requires
        (m.phase is Capturing && (response is MatchResult || response is EnrollProgress
            || response is Enrolled)) || (m.phase is Enrolling && (response is Frame
            || response is MatchResult)) || (m.phase is Verifying && (response is Frame
            || response is EnrollProgress || response is Enrolled)),
    ensures
        response_step(m, response) is Err,
{
    reveal(response_phase_outcome);
}

/// An operation completes only once it has produced its result: an enrollment after its
/// template, a verification after its verdict, a capture after a frame with the finger
/// lifted.
pub proof fn lemma_completion_needs_a_result(
    m: SessionModel,
    operation_id: Seq<char>,
    last_completed: Option<u32>,
    finger_present: bool,
    saw_frame: bool,
    last_sequence: Option<u64>,
)
    ensures
        response_step(
            SessionModel {
                phase: SessionPhase::Enrolling { operation_id, last_completed, enrolled: false },
                ..m
            },
            Response::Completed { operation_id: arbitrary() },
        ) is Err,
        response_step(
            SessionModel {
                phase: SessionPhase::Verifying { operation_id, reported: false },
                ..m
            },
            Response::Completed { operation_id: arbitrary() },
        ) is Err,
        !saw_frame || finger_present ==> response_step(
            SessionModel {
                phase: SessionPhase::Capturing {
                    operation_id,
                    finger_present,
                    saw_frame,
                    last_sequence,
                },
                ..m
            },
            Response::Completed { operation_id: arbitrary() },
        ) is Err,
{
    reveal(response_phase_outcome);
}

/// Enrollment progress strictly increases, and so do frame sequence numbers.
pub proof fn lemma_progress_and_frames_increase(m: SessionModel, response: Response)
    ensures
        (response_step(m, response) is Ok && m.phase is Enrolling
            && m.phase->Enrolling_last_completed is Some && response is EnrollProgress)
            ==> response->EnrollProgress_completed_stages
            > m.phase->Enrolling_last_completed.unwrap(),
        (response_step(m, response) is Ok && m.phase is Capturing
            && m.phase->Capturing_last_sequence is Some && response is Frame)
            ==> response->Frame_sequence > m.phase->Capturing_last_sequence.unwrap(),
{
    reveal(response_phase_outcome);
}

/// An error report never bypasses negotiation: while `Hello` awaits its acknowledgement, an
/// accepted error report sends the session back to needing `Hello`, and only a matching
/// acknowledgement makes it ready.
pub proof fn lemma_errors_do_not_bypass_hello(
    m: SessionModel,
    request_id: Seq<char>,
    response: Response,
)
    requires
        m.phase == (SessionPhase::AwaitHelloAck { request_id }),
    ensures
        response_step(m, response) matches Ok(next) ==> (response is Error && next.phase
            is NeedHello) || (response is HelloAck && response->HelloAck_request_id@
            == request_id && response->HelloAck_protocol_version == PROTOCOL_VERSION
            && next.phase is Ready),
{
    reveal(response_phase_outcome);
}

/// Every way an operation ends leaves the session ready for the next one: an accepted
/// `Completed`, an accepted `Cancelled`, and an accepted error report (except one that answers
/// `Hello`, which sends the session back to negotiation).
pub proof fn lemma_operations_end_ready(m: SessionModel, response: Response)
    ensures
        (response is Completed || response is Cancelled || (response is Error && !(m.phase
            is AwaitHelloAck))) ==> match response_step(m, response) {
            Ok(next) => next.phase is Ready,
            Err(_) => true,
        },
{
    reveal(response_phase_outcome);
}

/// While the session awaits a well-formed start request, one whose identifiers are fresh is
/// accepted and awaits its `Started`.
pub proof fn lemma_ready_accepts_a_fresh_start(m: SessionModel, request: Request)
    requires
        m.phase is Ready,
        request.spec_starts() is Some,
        request_problem(request) is None,
        !m.request_ids.contains(request.spec_request_id()),
        !m.operation_ids.contains(request.spec_started_operation_id().unwrap()),
        m.request_ids.len() < MAX_TRACKED_IDENTIFIERS,
        m.operation_ids.len() < MAX_TRACKED_IDENTIFIERS,
    ensures
        request_step(m, request) is Ok,
        request_step(m, request) is Ok ==> request_step(m, request)->Ok_0.phase == (
        SessionPhase::AwaitStarted {
            request_id: request.spec_request_id(),
            operation_id: request.spec_started_operation_id().unwrap(),
            kind: request.spec_starts().unwrap(),
        }),
{
}

/// A cancellation that the driver confirms, naming the `Cancel` request and the cancelled
/// operation, returns the session to `Ready` with its identifiers untouched, and a new
/// operation with fresh identifiers may then start.
pub proof fn lemma_confirmed_cancellation_returns_to_ready(
    m: SessionModel,
    request_id: Seq<char>,
    operation_id: Seq<char>,
    response: Response,
    next_request: Request,
)
    requires
        m.phase == (SessionPhase::AwaitCancelled { request_id, operation_id }),
        response is Cancelled,
        response->Cancelled_request_id@ == request_id,
        response->Cancelled_operation_id@ == operation_id,
        response_problem(response) is None,
    ensures
        response_step(m, response) == Ok::<SessionModel, Seq<char>>(
            SessionModel { phase: SessionPhase::Ready, ..m },
        ),
        next_request.spec_starts() is Some && request_problem(next_request) is None
            && !m.request_ids.contains(next_request.spec_request_id())
            && !m.operation_ids.contains(next_request.spec_started_operation_id().unwrap())
            && m.request_ids.len() < MAX_TRACKED_IDENTIFIERS && m.operation_ids.len()
            < MAX_TRACKED_IDENTIFIERS ==> request_step(
            SessionModel { phase: SessionPhase::Ready, ..m },
            next_request,
        ) is Ok,
{
    reveal(response_phase_outcome);
    if next_request.spec_starts() is Some && request_problem(next_request) is None
        && !m.request_ids.contains(next_request.spec_request_id())
        && !m.operation_ids.contains(next_request.spec_started_operation_id().unwrap())
        && m.request_ids.len() < MAX_TRACKED_IDENTIFIERS && m.operation_ids.len()
        < MAX_TRACKED_IDENTIFIERS {
        lemma_ready_accepts_a_fresh_start(SessionModel { phase: SessionPhase::Ready, ..m }, next_request);
    }
}

/// Once the driver confirms the start, naming the request and the operation, the operation the
/// request asked for runs: a capture awaits the finger, an enrollment its first stage, a
/// verification its verdict.
pub proof fn lemma_started_runs_the_requested_operation(
    m: SessionModel,
    request_id: Seq<char>,
    operation_id: Seq<char>,
    kind: OperationKind,
    response: Response,
)
    requires
        m.phase == (SessionPhase::AwaitStarted { request_id, operation_id, kind }),
        response is Started,
        response->Started_request_id@ == request_id,
        response->Started_operation_id@ == operation_id,
        response_problem(response) is None,
    ensures
        response_step(m, response) matches Ok(next) && active_operation(next.phase) == Some(
            operation_id,
        ),
        response_step(m, response) matches Ok(next) && match kind {
            OperationKind::Capture => next.phase == (SessionPhase::Capturing {
                operation_id,
                finger_present: false,
                saw_frame: false,
                last_sequence: None,
            }),
            OperationKind::Enroll => next.phase == (SessionPhase::Enrolling {
                operation_id,
                last_completed: None,
                enrolled: false,
            }),
            OperationKind::Verify => next.phase == (SessionPhase::Verifying {
                operation_id,
                reported: false,
            }),
        },
{
    reveal(response_phase_outcome);
}

/// Each result arrives once: after an enrollment delivered its template no further progress or
/// template is accepted, and after a verification reported its verdict no second verdict is.
pub proof fn lemma_results_arrive_once(m: SessionModel, response: Response)
    ensures
        m.phase is Enrolling && m.phase->Enrolling_enrolled && (response is EnrollProgress
            || response is Enrolled) ==> response_step(m, response) is Err,
        m.phase is Verifying && m.phase->Verifying_reported && response is MatchResult
            ==> response_step(m, response) is Err,
{
    reveal(response_phase_outcome);
}

/// A frame is accepted only while the finger is on the sensor, and only for the running
/// capture.
pub proof fn lemma_frames_need_a_finger(m: SessionModel, response: Response)
    ensures
        response is Frame && response_step(m, response) is Ok ==> m.phase is Capturing
            && m.phase->Capturing_finger_present && response->Frame_operation_id@
            == m.phase->Capturing_operation_id,
{
    reveal(response_phase_outcome);
}

/// An accepted `Shutdown` closes the session, and an accepted `Cancel` names the running
/// operation and leaves the session awaiting its `Cancelled`.
pub proof fn lemma_shutdown_closes_and_cancel_awaits(m: SessionModel, request: Request)
    ensures
        request is Shutdown && request_step(m, request) is Ok ==> request_step(m, request)->Ok_0.phase
            is Closed,
        request is Cancel && request_step(m, request) is Ok ==> active_operation(m.phase) == Some(
            request->Cancel_operation_id@,
        ) && request_step(m, request)->Ok_0.phase == (SessionPhase::AwaitCancelled {
            request_id: request.spec_request_id(),
            operation_id: request->Cancel_operation_id@,
        }),
{
}

} // verus!
