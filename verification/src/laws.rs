//! Properties of the library as a whole: what holds across its functions and of every value.

use vstd::prelude::*;

use crate::domain::{
    metadata_problem, CanonicalImage, CaptureMetadata, DeviceTemplate, HostImageTemplate,
    ImageView, MinutiaRecord, TemplateRecord, TemplateSample,
};
use crate::engine::{
    analysis_outcome, best_score, bozorth3_score, image_minutiae, qualities_fit, record_of, records_of,
    sample_mean, sample_scores, verdict_of, verify_problem, xyt_of, ACCEPT_THRESHOLD, ENGINE_ID,
    ENGINE_VERSION, MIN_MEAN_MINUTIA_QUALITY, MIN_MINUTIAE, POLICY_NAME, TEMPLATE_SCHEMA_MAJOR,
};
use crate::moc::device_record_problem;
use crate::protocol::client::{enrollment_refusal, template_after};
use crate::protocol::data::template_data_decoding;
use crate::protocol::message::{OperationKind, Response};
use crate::protocol::session::{
    response_phase_outcome, response_step, running_phase, SessionModel, SessionPhase,
};
use crate::error::utf8_len;
use crate::protocol::data::frame_data_decoding;
use crate::protocol::message::Request;
use crate::protocol::validate::{
    identifier_problem, request_problem, response_problem, stage_problem,
};
use crate::synthetic::{
    has_source, impression_hash, impression_pixel, lcg_seed, noise_at, shift_x, shift_y,
    source_of, sourced_before, SYNTHETIC_PIXELS,
};
use crate::template::{
    minutia_ok, quality_sum, rounded_mean, sample_problem, samples_problem_from, template_problem,
    MAX_MINUTIAE_PER_SAMPLE,
};
use crate::text::{decimal_text, digit_char};

verus! {

/// Each matching path fails closed on the other's templates: the host-image verifier refuses
/// every match-on-chip template, and the device path refuses every host-image template.
pub proof fn lemma_paths_refuse_each_others_templates(
    device: DeviceTemplate,
    host: HostImageTemplate,
    image: ImageView,
    metadata: CaptureMetadata,
)
    ensures
        verify_problem(TemplateRecord::MatchOnChip(device), image, metadata) is Some,
        device_record_problem(TemplateRecord::HostImage(host)) is Some,
{
}

/// The verdict's score is the greatest per-sample score: no sample scored higher, and, when
/// there is a sample, one scored exactly that.
pub proof fn lemma_best_score_is_the_maximum(scores: Seq<u32>)
    ensures
        forall|i: int| 0 <= i < scores.len() ==> scores[i] <= best_score(scores),
        scores.len() > 0 ==> exists|i: int| 0 <= i < scores.len() && scores[i] == best_score(scores),
    decreases scores.len(),
{
    if scores.len() > 0 {
        lemma_best_score_is_the_maximum(scores.drop_last());
        let rest = scores.drop_last();
        assert forall|i: int| 0 <= i < scores.len() implies scores[i] <= best_score(scores) by {
            if i < scores.len() - 1 {
                assert(scores[i] == rest[i]);
            }
        }
        if scores.last() > best_score(rest) {
            assert(scores[scores.len() - 1] == best_score(scores));
        } else if rest.len() > 0 {
            let j = choose|j: int| 0 <= j < rest.len() && rest[j] == best_score(rest);
            assert(scores[j] == rest[j]);
        } else {
            assert(scores[0] == scores.last());
        }
    }
}

proof fn lemma_quality_sum_of_records(d: Seq<(i32, i32, i32, i32)>, bound: nat)
    requires
        forall|i: int| 0 <= i < d.len() ==> (#[trigger] record_of(d[i])).quality <= bound,
    ensures
        quality_sum(records_of(d)) <= bound * d.len(),
    decreases d.len(),
{
    if d.len() > 0 {
        let r = records_of(d);
        assert(r.drop_last() =~= records_of(d.drop_last()));
        assert forall|i: int| 0 <= i < d.drop_last().len() implies (#[trigger] record_of(
            d.drop_last()[i],
        )).quality <= bound by {
            assert(d.drop_last()[i] == d[i]);
        }
        lemma_quality_sum_of_records(d.drop_last(), bound);
        assert(record_of(d[d.len() - 1]).quality <= bound);
        assert(bound * d.drop_last().len() + bound == bound * d.len()) by (nonlinear_arith)
            requires
                d.drop_last().len() + 1 == d.len(),
        ;
    }
}

/// Minutiae that the enrollment policy accepted, and that also fit a stored sample's bounds.
pub open spec fn storable_detection(d: Seq<(i32, i32, i32, i32)>) -> bool {
    &&& qualities_fit(d)
    &&& MIN_MINUTIAE <= d.len() <= MAX_MINUTIAE_PER_SAMPLE
    &&& quality_sum(records_of(d)) >= MIN_MEAN_MINUTIA_QUALITY * d.len()
    &&& forall|i: int| 0 <= i < d.len() ==> minutia_ok(#[trigger] record_of(d[i]))
}

proof fn lemma_storable_sample_is_valid(sample: TemplateSample, d: Seq<(i32, i32, i32, i32)>)
    requires
        storable_detection(d),
        sample.minutiae@ == records_of(d),
        sample.mean_quality == sample_mean(d),
    ensures
        sample_problem(sample) is None,
{
    let n = d.len();
    let sum = quality_sum(records_of(d));
    assert forall|i: int| 0 <= i < n implies (#[trigger] record_of(d[i])).quality <= 100 by {
        assert(minutia_ok(record_of(d[i])));
    }
    lemma_quality_sum_of_records(d, 100);
    assert(rounded_mean(sum, n) <= 100) by (nonlinear_arith)
        requires
            sum <= 100 * n,
            n > 0,
    ;
    assert(rounded_mean(sum, n) >= 25) by (nonlinear_arith)
        requires
            sum >= 25 * n,
            n > 0,
    ;
    assert forall|i: int| 0 <= i < n implies minutia_ok(#[trigger] sample.minutiae@[i]) by {
        assert(sample.minutiae@[i] == record_of(d[i]));
    }
}

/// A host-image template built from three accepted captures of one valid profile, whose
/// minutiae all fit a stored sample's bounds, passes template validation.
pub proof fn lemma_enrolled_templates_validate(
    host: HostImageTemplate,
    detections: Seq<Seq<(i32, i32, i32, i32)>>,
    metadata: CaptureMetadata,
)
    requires
        metadata_problem(metadata) is None,
        host.schema_major == TEMPLATE_SCHEMA_MAJOR,
        host.engine_id@ == ENGINE_ID@,
        host.engine_version@ == ENGINE_VERSION@,
        host.policy@ == POLICY_NAME@,
        host.capture_profile_id@ == metadata.capture_profile_id@,
        host.samples@.len() == 3,
        detections.len() == 3,
        forall|i: int| 0 <= i < 3 ==> storable_detection(#[trigger] detections[i]),
        forall|i: int|
            0 <= i < 3 ==> (#[trigger] host.samples@[i]).minutiae@ == records_of(detections[i])
                && host.samples@[i].mean_quality == sample_mean(detections[i]),
    ensures
        template_problem(TemplateRecord::HostImage(host)) is None,
{
    let samples = host.samples@;
    assert forall|i: int| 0 <= i < 3 implies sample_problem(
        #[trigger] samples[i],
    ) is None by {
        lemma_storable_sample_is_valid(samples[i], detections[i]);
    }
    assert(samples_problem_from(samples, 3) is None);
    assert(samples_problem_from(samples, 2) is None);
    assert(samples_problem_from(samples, 1) is None);
    assert(samples_problem_from(samples, 0) is None);
}

/// The debug rendering of an image shows no pixel: images of the same geometry and resolution
/// render alike whatever their pixels.
pub proof fn lemma_image_debug_hides_pixels(a: CanonicalImage, b: CanonicalImage)
    requires
        a@.width == b@.width,
        a@.height == b@.height,
        a@.x_resolution_ppi == b@.x_resolution_ppi,
        a@.y_resolution_ppi == b@.y_resolution_ppi,
    ensures
        a.spec_debug_text() == b.spec_debug_text(),
{
}

/// The debug rendering of a sample shows no minutia: samples of the same mean quality and the
/// same number of minutiae render alike.
pub proof fn lemma_sample_debug_hides_minutiae(a: TemplateSample, b: TemplateSample)
    requires
        a.mean_quality == b.mean_quality,
        a.minutiae@.len() == b.minutiae@.len(),
    ensures
        a.spec_debug_text() == b.spec_debug_text(),
{
}

/// The debug rendering of a template shows no sample and no blob byte: templates that differ
/// only there, and not in how many samples or bytes they hold, render alike.
pub proof fn lemma_template_debug_hides_biometrics(
    host_a: HostImageTemplate,
    host_b: HostImageTemplate,
    device_a: DeviceTemplate,
    device_b: DeviceTemplate,
)
    requires
        host_a.schema_major == host_b.schema_major,
        host_a.engine_id@ == host_b.engine_id@,
        host_a.engine_version@ == host_b.engine_version@,
        host_a.capture_profile_id@ == host_b.capture_profile_id@,
        host_a.policy@ == host_b.policy@,
        host_a.samples@.len() == host_b.samples@.len(),
        device_a.schema_major == device_b.schema_major,
        device_a.driver_id@ == device_b.driver_id@,
        device_a.device_profile_id@ == device_b.device_profile_id@,
        device_a.policy@ == device_b.policy@,
        device_a.blob@.len() == device_b.blob@.len(),
    ensures
        TemplateRecord::HostImage(host_a).spec_debug_text() == TemplateRecord::HostImage(
            host_b,
        ).spec_debug_text(),
        TemplateRecord::MatchOnChip(device_a).spec_debug_text() == TemplateRecord::MatchOnChip(
            device_b,
        ).spec_debug_text(),
{
}

/// An impression only shifts its identity's base image by at most two pixels each way and
/// adds noise of at most four grey levels to each pixel it keeps.
pub proof fn lemma_impressions_are_small_changes(
    base: Seq<u8>,
    identity: u64,
    impression: u64,
    p: int,
)
    requires
        base.len() >= SYNTHETIC_PIXELS,
        0 <= p < SYNTHETIC_PIXELS,
    ensures
        -2 <= shift_x(impression_hash(identity, impression)) <= 2,
        -2 <= shift_y(impression_hash(identity, impression)) <= 2,
        has_source(
            p,
            shift_x(impression_hash(identity, impression)),
            shift_y(impression_hash(identity, impression)),
        ) ==> {
            let source = base[source_of(
                p,
                shift_x(impression_hash(identity, impression)),
                shift_y(impression_hash(identity, impression)),
            )] as int;
            let pixel = impression_pixel(base, identity, impression, p) as int;
            source - 4 <= pixel <= source + 4
        },
{
    let hash = impression_hash(identity, impression);
    let dx = shift_x(hash);
    let dy = shift_y(hash);
    if has_source(p, dx, dy) {
        let k = sourced_before(p, dx, dy);
        let noise = noise_at(lcg_seed(hash ^ 0x51A7_0A5Eu64), k);
        assert(-4 <= noise <= 4);
        assert(0 <= source_of(p, dx, dy) < SYNTHETIC_PIXELS) by (nonlinear_arith)
            requires
                0 <= p % 200 - dx < 200,
                0 <= p / 200 - dy < 240,
        ;
    }
}

/// The template an enrollment holds before it takes reply `i` of `replies`, having started
/// with `start`.
pub open spec fn template_before(start: Option<Seq<u8>>, replies: Seq<Response>, i: int) -> Option<
    Seq<u8>,
>
    decreases i,
{
    if i <= 0 {
        start
    } else {
        template_after(template_before(start, replies, i - 1), replies[i - 1])
    }
}

/// The host finishes an enrollment with exactly the template the worker sent: it takes every
/// reply of a worker's finished enrollment (`Started`, progress, `Enrolled`, `Completed`),
/// nothing completes before the last reply, and the last one completes with the template.
pub proof fn lemma_host_finishes_with_the_workers_template(
    replies: Seq<Response>,
    progress_count: nat,
    template: Seq<u8>,
)
    requires
        replies.len() == progress_count + 3,
        replies[0] is Started,
        forall|i: int| 1 <= i <= progress_count ==> #[trigger] replies[i] is EnrollProgress,
        replies[progress_count as int + 1] matches Response::Enrolled { template_base64: b, .. }
            && template_data_decoding(b@) == Ok::<Seq<u8>, Seq<char>>(template),
        replies[progress_count as int + 2] is Completed,
    ensures
        forall|i: int|
            0 <= i < replies.len() ==> enrollment_refusal(
                template_before(None, replies, i),
                #[trigger] replies[i],
            ) is None,
        forall|i: int| 0 <= i < replies.len() - 1 ==> !(#[trigger] replies[i] is Completed),
        template_before(None, replies, replies.len() - 1) == Some(template),
{
    let n = progress_count as int;
    assert forall|i: int| 0 <= i <= n + 1 implies template_before(None, replies, i) is None by {
        lemma_no_template_before_enrolled(replies, n, i);
    }
    assert(template_before(None, replies, n + 2) == Some(template));
    assert forall|i: int|
        0 <= i < replies.len() implies enrollment_refusal(
        template_before(None, replies, i),
        #[trigger] replies[i],
    ) is None by {
        if i == 0 {
        } else if i <= n {
            assert(replies[i] is EnrollProgress);
        } else if i == n + 1 {
        } else {
            assert(template_before(None, replies, i) == Some(template));
        }
    }
    assert forall|i: int| 0 <= i < replies.len() - 1 implies !(#[trigger] replies[i] is Completed) by {
        if 1 <= i <= n {
            assert(replies[i] is EnrollProgress);
        }
    }
}

proof fn lemma_no_template_before_enrolled(replies: Seq<Response>, n: int, i: int)
    requires
        0 <= n,
        replies.len() == n + 3,
        replies[0] is Started,
        forall|j: int| 1 <= j <= n ==> #[trigger] replies[j] is EnrollProgress,
        0 <= i <= n + 1,
    ensures
        template_before(None, replies, i) is None,
    decreases i,
{
    if i > 0 {
        lemma_no_template_before_enrolled(replies, n, i - 1);
        if i - 1 >= 1 {
            assert(replies[i - 1] is EnrollProgress);
        }
    }
}


proof fn lemma_decimal_text_nonempty(n: nat)
    ensures
        decimal_text(n).len() >= 1,
        n >= 10 ==> decimal_text(n).len() >= 2,
    decreases n,
{
    if n >= 10 {
        lemma_decimal_text_nonempty(n / 10);
    }
}

proof fn lemma_decimal_text_injective(a: nat, b: nat)
    requires
        decimal_text(a) == decimal_text(b),
    ensures
        a == b,
    decreases a,
{
    lemma_decimal_text_nonempty(a);
    lemma_decimal_text_nonempty(b);
    if a < 10 && b < 10 {
        assert(decimal_text(a)[0] == digit_char(a));
        assert(decimal_text(b)[0] == digit_char(b));
    } else if a >= 10 && b >= 10 {
        let da = decimal_text(a);
        let db = decimal_text(b);
        assert(da.drop_last() =~= decimal_text(a / 10));
        assert(db.drop_last() =~= decimal_text(b / 10));
        assert(da.last() == digit_char(a % 10));
        assert(db.last() == digit_char(b % 10));
        lemma_decimal_text_injective(a / 10, b / 10);
    }
}

/// Identifiers minted from one prefix never repeat: distinct counters give distinct labels, so
/// a host that counts up never reuses a request or operation identifier.
pub proof fn lemma_labels_are_distinct(prefix: Seq<char>, first: u64, second: u64)
    requires
        first != second,
    ensures
        prefix + "-"@ + decimal_text(first as nat) != prefix + "-"@ + decimal_text(second as nat),
{
    let head = prefix + "-"@;
    if head + decimal_text(first as nat) == head + decimal_text(second as nat) {
        assert((head + decimal_text(first as nat)).subrange(
            head.len() as int,
            (head + decimal_text(first as nat)).len() as int,
        ) =~= decimal_text(first as nat));
        assert((head + decimal_text(second as nat)).subrange(
            head.len() as int,
            (head + decimal_text(second as nat)).len() as int,
        ) =~= decimal_text(second as nat));
        lemma_decimal_text_injective(first as nat, second as nat);
    }
}


/// The session after it takes `replies` in order, or the first reason it refuses one.
pub open spec fn session_after(m: SessionModel, replies: Seq<Response>) -> Result<
    SessionModel,
    Seq<char>,
>
    decreases replies.len(),
{
    if replies.len() == 0 {
        Ok(m)
    } else {
        match response_step(m, replies[0]) {
            Err(reason) => Err(reason),
            Ok(next) => session_after(next, replies.drop_first()),
        }
    }
}

proof fn lemma_started_step(
    m: SessionModel,
    reply: Response,
    request_id: Seq<char>,
    operation_id: Seq<char>,
    kind: OperationKind,
)
    requires
        m.phase == (SessionPhase::AwaitStarted { request_id, operation_id, kind }),
        identifier_problem(request_id, "request ID"@) is None,
        identifier_problem(operation_id, "operation ID"@) is None,
        reply matches Response::Started { request_id: r, operation_id: o } && r@ == request_id
            && o@ == operation_id,
    ensures
        response_step(m, reply) == Ok::<SessionModel, Seq<char>>(
            SessionModel { phase: running_phase(operation_id, kind), ..m },
        ),
{
    reveal(response_phase_outcome);
    reveal(response_problem);
}

proof fn lemma_verdict_step(m: SessionModel, reply: Response, operation_id: Seq<char>)
    requires
        m.phase == (SessionPhase::Verifying { operation_id, reported: false }),
        identifier_problem(operation_id, "operation ID"@) is None,
        reply matches Response::MatchResult { operation_id: o, .. } && o@ == operation_id,
    ensures
        response_step(m, reply) == Ok::<SessionModel, Seq<char>>(
            SessionModel { phase: SessionPhase::Verifying { operation_id, reported: true }, ..m },
        ),
{
    reveal(response_phase_outcome);
    reveal(response_problem);
}

proof fn lemma_completed_step(m: SessionModel, reply: Response, operation_id: Seq<char>)
    requires
        m.phase == (SessionPhase::Verifying { operation_id, reported: true }) || (
        m.phase matches SessionPhase::Enrolling { operation_id: o, enrolled: true, .. } && o
            == operation_id),
        identifier_problem(operation_id, "operation ID"@) is None,
        reply matches Response::Completed { operation_id: o } && o@ == operation_id,
    ensures
        response_step(m, reply) == Ok::<SessionModel, Seq<char>>(
            SessionModel { phase: SessionPhase::Ready, ..m },
        ),
{
    reveal(response_phase_outcome);
    reveal(response_problem);
}

/// A worker's replies to a verification (`Started`, the verdict, `Completed`) are accepted by
/// the host's session that awaits the verification's start, and leave it ready for the next
/// command with the same identifiers recorded.
pub proof fn lemma_verification_replies_complete_the_operation(
    m: SessionModel,
    replies: Seq<Response>,
    request_id: Seq<char>,
    operation_id: Seq<char>,
)
    requires
        m.phase == (SessionPhase::AwaitStarted {
            request_id,
            operation_id,
            kind: OperationKind::Verify,
        }),
        identifier_problem(request_id, "request ID"@) is None,
        identifier_problem(operation_id, "operation ID"@) is None,
        replies.len() == 3,
        replies[0] matches Response::Started { request_id: r, operation_id: o } && r@ == request_id
            && o@ == operation_id,
        replies[1] matches Response::MatchResult { operation_id: o, .. } && o@ == operation_id,
        replies[2] matches Response::Completed { operation_id: o } && o@ == operation_id,
    ensures
        session_after(m, replies) matches Ok(end) && end.phase == SessionPhase::Ready
            && end.request_ids == m.request_ids && end.operation_ids == m.operation_ids,
{
    let m1 = SessionModel {
        phase: SessionPhase::Verifying { operation_id, reported: false },
        ..m
    };
    let m2 = SessionModel { phase: SessionPhase::Verifying { operation_id, reported: true }, ..m };
    let m3 = SessionModel { phase: SessionPhase::Ready, ..m };
    lemma_started_step(m, replies[0], request_id, operation_id, OperationKind::Verify);
    lemma_verdict_step(m1, replies[1], operation_id);
    lemma_completed_step(m2, replies[2], operation_id);
    let rest1 = replies.drop_first();
    let rest2 = rest1.drop_first();
    let rest3 = rest2.drop_first();
    assert(rest1[0] == replies[1]);
    assert(rest2[0] == replies[2]);
    assert(rest3.len() == 0);
    assert(session_after(m3, rest3) == Ok::<SessionModel, Seq<char>>(m3));
    assert(session_after(m2, rest2) == Ok::<SessionModel, Seq<char>>(m3));
    assert(session_after(m1, rest1) == Ok::<SessionModel, Seq<char>>(m3));
}


proof fn lemma_progress_step(
    m: SessionModel,
    reply: Response,
    operation_id: Seq<char>,
    last: Option<u32>,
)
    requires
        m.phase == (SessionPhase::Enrolling { operation_id, last_completed: last, enrolled: false }),
        identifier_problem(operation_id, "operation ID"@) is None,
        reply matches Response::EnrollProgress { operation_id: o, completed_stages: c, total_stages: t }
            && o@ == operation_id && stage_problem(c, t) is None && (last matches Some(l) ==> l < c),
    ensures
        response_step(m, reply) == Ok::<SessionModel, Seq<char>>(
            SessionModel {
                phase: SessionPhase::Enrolling {
                    operation_id,
                    last_completed: Some(reply->completed_stages),
                    enrolled: false,
                },
                ..m
            },
        ),
{
    reveal(response_phase_outcome);
    reveal(response_problem);
}

proof fn lemma_enrolled_step(
    m: SessionModel,
    reply: Response,
    operation_id: Seq<char>,
    last: Option<u32>,
)
    requires
        m.phase == (SessionPhase::Enrolling { operation_id, last_completed: last, enrolled: false }),
        identifier_problem(operation_id, "operation ID"@) is None,
        reply matches Response::Enrolled { operation_id: o, template_base64: b } && o@
            == operation_id && template_data_decoding(b@) is Ok,
    ensures
        response_step(m, reply) == Ok::<SessionModel, Seq<char>>(
            SessionModel {
                phase: SessionPhase::Enrolling { operation_id, last_completed: last, enrolled: true },
                ..m
            },
        ),
{
    reveal(response_phase_outcome);
    reveal(response_problem);
}

/// The replies of a worker's enrollment in the order the worker sends them: `Started`,
/// `count` progress reports with strictly increasing in-range stages, `Enrolled` with a
/// decodable template, and `Completed`, all naming the operation.
pub open spec fn enrollment_reply_shape(
    replies: Seq<Response>,
    request_id: Seq<char>,
    operation_id: Seq<char>,
    count: int,
) -> bool {
    &&& 0 <= count
    &&& replies.len() == count + 3
    &&& replies[0] matches Response::Started { request_id: r, operation_id: o } && r@ == request_id
        && o@ == operation_id
    &&& forall|i: int|
        1 <= i <= count ==> (#[trigger] replies[i] matches Response::EnrollProgress {
            operation_id: o,
            completed_stages: c,
            total_stages: t,
        } && o@ == operation_id && stage_problem(c, t) is None)
    &&& forall|i: int, j: int|
        1 <= i < j <= count ==> (#[trigger] replies[i])->completed_stages < (
        #[trigger] replies[j])->completed_stages
    &&& replies[count + 1] matches Response::Enrolled { operation_id: o, template_base64: b } && o@
        == operation_id && template_data_decoding(b@) is Ok
    &&& replies[count + 2] matches Response::Completed { operation_id: o } && o@ == operation_id
}

proof fn lemma_enrollment_tail(
    m: SessionModel,
    replies: Seq<Response>,
    request_id: Seq<char>,
    operation_id: Seq<char>,
    count: int,
    k: int,
)
    requires
        enrollment_reply_shape(replies, request_id, operation_id, count),
        identifier_problem(operation_id, "operation ID"@) is None,
        1 <= k <= count + 1,
        m.phase == (SessionPhase::Enrolling {
            operation_id,
            last_completed: if k == 1 {
                None
            } else {
                Some(replies[k - 1]->completed_stages)
            },
            enrolled: false,
        }),
    ensures
        session_after(m, replies.subrange(k, count + 3)) == Ok::<SessionModel, Seq<char>>(
            SessionModel { phase: SessionPhase::Ready, ..m },
        ),
    decreases count + 1 - k,
{
    let last = if k == 1 {
        None
    } else {
        Some(replies[k - 1]->completed_stages)
    };
    let rest = replies.subrange(k, count + 3);
    assert(rest[0] == replies[k]);
    assert(rest.drop_first() =~= replies.subrange(k + 1, count + 3));
    if k == count + 1 {
        lemma_enrolled_step(m, replies[k], operation_id, last);
        let m1 = SessionModel {
            phase: SessionPhase::Enrolling { operation_id, last_completed: last, enrolled: true },
            ..m
        };
        lemma_completed_step(m1, replies[count + 2], operation_id);
        let tail = replies.subrange(k + 1, count + 3);
        let done = SessionModel { phase: SessionPhase::Ready, ..m };
        assert(tail[0] == replies[count + 2]);
        assert(tail.drop_first().len() == 0);
        assert(session_after(done, tail.drop_first()) == Ok::<SessionModel, Seq<char>>(done));
        assert(session_after(m1, tail) == Ok::<SessionModel, Seq<char>>(done));
        assert(session_after(m, rest) == Ok::<SessionModel, Seq<char>>(done));
    } else {
        assert(replies[k] is EnrollProgress);
        if k > 1 {
            assert(replies[k - 1]->completed_stages < replies[k]->completed_stages);
        }
        lemma_progress_step(m, replies[k], operation_id, last);
        let m1 = SessionModel {
            phase: SessionPhase::Enrolling {
                operation_id,
                last_completed: Some(replies[k]->completed_stages),
                enrolled: false,
            },
            ..m
        };
        lemma_enrollment_tail(m1, replies, request_id, operation_id, count, k + 1);
        assert(session_after(m, rest) == session_after(m1, rest.drop_first()));
    }
}

/// A worker's replies to an enrollment are accepted by the host's session that awaits the
/// enrollment's start, as long as the device's stages rose, and leave it ready for the next
/// command with the same identifiers recorded.
pub proof fn lemma_enrollment_replies_complete_the_operation(
    m: SessionModel,
    replies: Seq<Response>,
    request_id: Seq<char>,
    operation_id: Seq<char>,
    count: int,
)
    requires
        m.phase == (SessionPhase::AwaitStarted {
            request_id,
            operation_id,
            kind: OperationKind::Enroll,
        }),
        identifier_problem(request_id, "request ID"@) is None,
        identifier_problem(operation_id, "operation ID"@) is None,
        enrollment_reply_shape(replies, request_id, operation_id, count),
    ensures
        session_after(m, replies) matches Ok(end) && end.phase == SessionPhase::Ready
            && end.request_ids == m.request_ids && end.operation_ids == m.operation_ids,
{
    lemma_started_step(m, replies[0], request_id, operation_id, OperationKind::Enroll);
    let m1 = SessionModel { phase: running_phase(operation_id, OperationKind::Enroll), ..m };
    lemma_enrollment_tail(m1, replies, request_id, operation_id, count, 1);
    assert(replies.drop_first() =~= replies.subrange(1, count + 3));
}

/// A verification weighs the probe against every enrollment sample: the score is the best
/// BOZORTH3 score over all the samples (no sample scored higher, and one scored exactly that),
/// and the probe matches exactly when some sample scored at least the threshold of 40.
pub proof fn lemma_verification_takes_the_best_sample(
    probe: Seq<MinutiaRecord>,
    samples: Seq<TemplateSample>,
    probe_quality: u8,
)
    ensures
        ({
            let verdict = verdict_of(sample_scores(probe, samples), probe_quality);
            &&& verdict.threshold == 40
            &&& verdict.probe_quality == probe_quality
            &&& forall|i: int|
                0 <= i < samples.len() ==> #[trigger] bozorth3_score(
                    xyt_of(probe),
                    xyt_of(samples[i].minutiae@),
                ) <= verdict.score
            &&& samples.len() > 0 ==> exists|i: int|
                0 <= i < samples.len() && #[trigger] bozorth3_score(
                    xyt_of(probe),
                    xyt_of(samples[i].minutiae@),
                ) == verdict.score
            &&& verdict.matched <==> exists|i: int|
                0 <= i < samples.len() && #[trigger] bozorth3_score(
                    xyt_of(probe),
                    xyt_of(samples[i].minutiae@),
                ) >= 40
        }),
{
    let scores = sample_scores(probe, samples);
    lemma_best_score_is_the_maximum(scores);
    assert forall|i: int| 0 <= i < samples.len() implies #[trigger] bozorth3_score(
        xyt_of(probe),
        xyt_of(samples[i].minutiae@),
    ) == scores[i] by {}
    if samples.len() > 0 {
        let j = choose|j: int| 0 <= j < scores.len() && scores[j] == best_score(scores);
        assert(bozorth3_score(xyt_of(probe), xyt_of(samples[j].minutiae@)) == scores[j]);
    }
    if best_score(scores) >= 40 && samples.len() > 0 {
        let j = choose|j: int| 0 <= j < scores.len() && scores[j] == best_score(scores);
        assert(bozorth3_score(xyt_of(probe), xyt_of(samples[j].minutiae@)) >= 40);
    }
}

/// A stored host-image template is accepted only from this build's matcher: a valid one names
/// this build's engine, engine version, policy and schema, and holds three samples. A template
/// from any other engine or engine version is refused.
pub proof fn lemma_host_templates_come_from_this_build(host: HostImageTemplate)
    ensures
        template_problem(TemplateRecord::HostImage(host)) is None ==> {
            &&& host.engine_id@ == ENGINE_ID@
            &&& host.engine_version@ == ENGINE_VERSION@
            &&& host.policy@ == POLICY_NAME@
            &&& host.schema_major == TEMPLATE_SCHEMA_MAJOR
            &&& host.samples@.len() == 3
        },
        host.engine_id@ != ENGINE_ID@ || host.engine_version@ != ENGINE_VERSION@ ==> template_problem(
            TemplateRecord::HostImage(host),
        ) is Some,
{
}

/// A capture accepted for enrollment or as a probe is a whole capture, taken at one known
/// resolution that the image and its metadata agree on; its minutiae are those MINDTCT found
/// in the image; and it has at least ten minutiae and a mean minutia quality of at least 25,
/// both as the quality total over the count and as the mean recorded in its sample.
pub proof fn lemma_accepted_captures_meet_the_quality_floor(
    image: ImageView,
    metadata: CaptureMetadata,
)
    ensures
        analysis_outcome(image, metadata) matches Ok(detected) ==> {
            &&& !metadata.partial
            &&& metadata.x_resolution_ppi > 0
            &&& image.x_resolution_ppi == metadata.x_resolution_ppi
            &&& image.y_resolution_ppi == metadata.y_resolution_ppi
            &&& image.x_resolution_ppi == image.y_resolution_ppi
            &&& detected == image_minutiae(image)
            &&& detected.len() >= 10
            &&& quality_sum(records_of(detected)) >= 25 * detected.len()
            &&& sample_mean(detected) >= 25
        },
{
    if let Ok(d) = analysis_outcome(image, metadata) {
        let n = d.len();
        let sum = quality_sum(records_of(d));
        assert forall|i: int| 0 <= i < n implies (#[trigger] record_of(d[i])).quality <= 255 by {}
        lemma_quality_sum_of_records(d, 255);
        assert(rounded_mean(sum, n) >= 25 && rounded_mean(sum, n) <= 255) by (nonlinear_arith)
            requires
                sum >= 25 * n,
                sum <= 255 * n,
                n > 0,
        ;
    }
}

/// A well-formed request names itself and what it acts on properly: every identifier is 1 to
/// 128 bytes of UTF-8; a request that starts or cancels an operation names an operation other
/// than the request itself; and a verification carries a template that decodes.
pub proof fn lemma_well_formed_requests_have_valid_identifiers(request: Request)
    ensures
        request_problem(request) is None ==> {
            &&& 1 <= utf8_len(request.spec_request_id()) <= 128
            &&& match request {
                Request::StartCapture { request_id, operation_id, device_id } => {
                    &&& 1 <= utf8_len(operation_id@) <= 128
                    &&& 1 <= utf8_len(device_id@) <= 128
                    &&& operation_id@ != request_id@
                },
                Request::StartEnroll { request_id, operation_id, device_id } => {
                    &&& 1 <= utf8_len(operation_id@) <= 128
                    &&& 1 <= utf8_len(device_id@) <= 128
                    &&& operation_id@ != request_id@
                },
                Request::StartVerify { request_id, operation_id, device_id, template_base64 } => {
                    &&& 1 <= utf8_len(operation_id@) <= 128
                    &&& 1 <= utf8_len(device_id@) <= 128
                    &&& operation_id@ != request_id@
                    &&& template_data_decoding(template_base64@) is Ok
                },
                Request::Cancel { request_id, operation_id } => {
                    &&& 1 <= utf8_len(operation_id@) <= 128
                    &&& operation_id@ != request_id@
                },
                _ => true,
            }
        },
{
}

/// A well-formed frame has a non-zero geometry and carries exactly `width * height` decoded
/// pixels; a well-formed progress report counts between one and all of a non-zero number of
/// stages.
pub proof fn lemma_well_formed_frames_and_progress(response: Response)
    ensures
        response_problem(response) is None ==> match response {
            Response::Frame {
                width,
                height,
                x_resolution_ppi,
                y_resolution_ppi,
                data_base64,
                ..
            } => {
                &&& width > 0 && height > 0 && x_resolution_ppi > 0 && y_resolution_ppi > 0
                &&& frame_data_decoding(data_base64@) matches Ok(pixels) && pixels.len() == width
                    * height
            },
            Response::EnrollProgress { completed_stages, total_stages, .. } => 1
                <= completed_stages <= total_stages,
            _ => true,
        },
{
    reveal(response_problem);
}

proof fn lemma_no_sample_problem_from(samples: Seq<TemplateSample>, k: int)
    requires
        0 <= k,
        samples_problem_from(samples, k) is None,
    ensures
        forall|i: int| k <= i < samples.len() ==> #[trigger] sample_problem(samples[i]) is None,
    decreases samples.len() - k,
{
    if k < samples.len() {
        lemma_no_sample_problem_from(samples, k + 1);
    }
}

/// Every sample of a valid host-image template meets the enrollment policy: ten or more
/// minutiae and no more than a sample may hold, each minutia valid, a quality total of at
/// least 25 per minutia, and a recorded mean quality between 25 and 100 that is the rounded
/// mean of its minutiae's qualities.
pub proof fn lemma_stored_samples_meet_the_policy(host: HostImageTemplate)
    ensures
        template_problem(TemplateRecord::HostImage(host)) is None ==> forall|i: int|
            0 <= i < host.samples@.len() ==> {
                let sample = #[trigger] host.samples@[i];
                let minutiae = sample.minutiae@;
                &&& 10 <= minutiae.len() <= MAX_MINUTIAE_PER_SAMPLE
                &&& forall|j: int| 0 <= j < minutiae.len() ==> minutia_ok(#[trigger] minutiae[j])
                &&& quality_sum(minutiae) >= 25 * minutiae.len()
                &&& 25 <= sample.mean_quality <= 100
                &&& sample.mean_quality == rounded_mean(quality_sum(minutiae), minutiae.len())
            },
{
    if template_problem(TemplateRecord::HostImage(host)) is None {
        lemma_no_sample_problem_from(host.samples@, 0);
        assert forall|i: int| 0 <= i < host.samples@.len() implies ({
            let sample = #[trigger] host.samples@[i];
            let minutiae = sample.minutiae@;
            &&& 10 <= minutiae.len() <= MAX_MINUTIAE_PER_SAMPLE
            &&& forall|j: int| 0 <= j < minutiae.len() ==> minutia_ok(#[trigger] minutiae[j])
            &&& quality_sum(minutiae) >= 25 * minutiae.len()
            &&& 25 <= sample.mean_quality <= 100
            &&& sample.mean_quality == rounded_mean(quality_sum(minutiae), minutiae.len())
        }) by {
            assert(sample_problem(host.samples@[i]) is None);
        }
    }
}

} // verus!
