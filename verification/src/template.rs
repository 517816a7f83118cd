//! Validation of stored templates: either arm fails closed on any schema, engine, policy,
//! provenance, count or quality violation.

use vstd::prelude::*;

use crate::domain::{
    DeviceTemplate, HostImageTemplate, MinutiaRecord, TemplateRecord, TemplateSample,
    MAX_DEVICE_TEMPLATE_BYTES, MAX_PROFILE_ID_BYTES,
};
use crate::engine::{
    bozorth_minimum_minutiae, DEVICE_POLICY_NAME, ENGINE_ID, ENGINE_VERSION, ENROLLMENT_SAMPLES,
    MIN_MEAN_MINUTIA_QUALITY, MIN_MINUTIAE, POLICY_NAME, TEMPLATE_SCHEMA_MAJOR,
};
use crate::error::{err_text, utf8_len, Error};
use crate::text::str_eq;

verus! {

/// Largest template file, in bytes.
pub const MAX_TEMPLATE_BYTES: usize = 1024 * 1024;

/// Most samples a template may declare.
pub const MAX_TEMPLATE_SAMPLES: usize = 8;

/// Most minutiae one sample may hold.
pub const MAX_MINUTIAE_PER_SAMPLE: usize = 150;

/// A stored minutia: an orientation in `0..360`, non-negative coordinates, quality at most 100.
pub open spec fn minutia_ok(m: MinutiaRecord) -> bool {
    0 <= m.theta < 360 && m.x >= 0 && m.y >= 0 && m.quality <= 100
}

/// Sum of the minutiae qualities.
pub open spec fn quality_sum(minutiae: Seq<MinutiaRecord>) -> nat
    decreases minutiae.len(),
{
    if minutiae.len() == 0 {
        0
    } else {
        quality_sum(minutiae.drop_last()) + minutiae.last().quality as nat
    }
}

/// The mean of `count` qualities summing to `sum`, rounded half up.
pub open spec fn rounded_mean(sum: nat, count: nat) -> nat {
    (sum + count / 2) / count
}

/// The reason one stored sample is refused, in the order checked, or `None`.
pub open spec fn sample_problem(sample: TemplateSample) -> Option<Seq<char>> {
    let minutiae = sample.minutiae@;
    let count = minutiae.len();
    if count > MAX_MINUTIAE_PER_SAMPLE {
        Some("template sample has too many minutiae"@)
    } else if count < MIN_MINUTIAE {
        Some("template sample has too few minutiae"@)
    } else if sample.mean_quality < MIN_MEAN_MINUTIA_QUALITY || sample.mean_quality > 100 {
        Some("template sample quality is outside policy"@)
    } else if exists|i: int| 0 <= i < count && !minutia_ok(#[trigger] minutiae[i]) {
        Some("template contains an invalid minutia"@)
    } else if quality_sum(minutiae) < MIN_MEAN_MINUTIA_QUALITY * count {
        Some("template sample mean quality is below policy"@)
    } else if rounded_mean(quality_sum(minutiae), count) > u8::MAX {
        Some("template sample quality is invalid"@)
    } else if sample.mean_quality != rounded_mean(quality_sum(minutiae), count) {
        Some("template sample mean quality is inconsistent"@)
    } else {
        None
    }
}

/// The first refused sample from index `i` on.
pub open spec fn samples_problem_from(samples: Seq<TemplateSample>, i: int) -> Option<Seq<char>>
    decreases samples.len() - i,
{
    if i < 0 || i >= samples.len() {
        None
    } else {
        match sample_problem(samples[i]) {
            Some(p) => Some(p),
            None => samples_problem_from(samples, i + 1),
        }
    }
}

/// The reason a host-image template is refused, in the order checked, or `None`.
pub open spec fn host_template_problem(template: HostImageTemplate) -> Option<Seq<char>> {
    if template.schema_major != TEMPLATE_SCHEMA_MAJOR {
        Some("unsupported template schema major version"@)
    } else if template.engine_id@ != ENGINE_ID@ || template.engine_version@ != ENGINE_VERSION@ {
        Some("template engine does not match this build"@)
    } else if template.policy@ != POLICY_NAME@ {
        Some("template matching policy does not match this build"@)
    } else if utf8_len(template.capture_profile_id@) == 0 || utf8_len(
        template.capture_profile_id@,
    ) > MAX_PROFILE_ID_BYTES {
        Some("template capture profile ID is invalid"@)
    } else if template.samples@.len() > MAX_TEMPLATE_SAMPLES {
        Some("template has too many samples"@)
    } else if template.samples@.len() != ENROLLMENT_SAMPLES {
        Some("M0 templates must contain exactly 3 samples"@)
    } else {
        samples_problem_from(template.samples@, 0)
    }
}

/// The reason a match-on-chip template with these fields is refused, in the order checked, or
/// `None`.
pub open spec fn device_fields_problem(
    schema_major: u32,
    policy: Seq<char>,
    driver_id: Seq<char>,
    device_profile_id: Seq<char>,
    blob_len: nat,
) -> Option<Seq<char>> {
    if schema_major != TEMPLATE_SCHEMA_MAJOR {
        Some("unsupported template schema major version"@)
    } else if policy != DEVICE_POLICY_NAME@ {
        Some("template matching policy does not match this build"@)
    } else if utf8_len(driver_id) == 0 || utf8_len(driver_id) > MAX_PROFILE_ID_BYTES {
        Some("template driver ID is invalid"@)
    } else if utf8_len(device_profile_id) == 0 || utf8_len(device_profile_id)
        > MAX_PROFILE_ID_BYTES {
        Some("template device profile ID is invalid"@)
    } else if blob_len == 0 {
        Some("device template blob is empty"@)
    } else if blob_len > MAX_DEVICE_TEMPLATE_BYTES {
        Some("device template blob exceeds the limit"@)
    } else {
        None
    }
}

/// The reason a match-on-chip template is refused, in the order checked, or `None`.
pub open spec fn device_template_problem(template: DeviceTemplate) -> Option<Seq<char>> {
    device_fields_problem(
        template.schema_major,
        template.policy@,
        template.driver_id@,
        template.device_profile_id@,
        template.blob@.len(),
    )
}

/// The reason a stored template is refused, or `None` when it is valid.
pub open spec fn template_problem(template: TemplateRecord) -> Option<Seq<char>> {
    match template {
        TemplateRecord::HostImage(t) => host_template_problem(t),
        TemplateRecord::MatchOnChip(t) => device_template_problem(t),
    }
}

fn sum_qualities(minutiae: &Vec<MinutiaRecord>) -> (sum: u64)
    requires
        minutiae@.len() <= MAX_MINUTIAE_PER_SAMPLE,
    ensures
        sum == quality_sum(minutiae@),
        sum <= 255 * minutiae@.len(),
{
    let mut sum: u64 = 0;
    let mut i: usize = 0;
    while i < minutiae.len()
        invariant
            0 <= i <= minutiae@.len() <= MAX_MINUTIAE_PER_SAMPLE,
            sum == quality_sum(minutiae@.take(i as int)),
            sum <= 255 * i,
        decreases minutiae@.len() - i,
    {
        assert(minutiae@.take(i + 1).drop_last() == minutiae@.take(i as int));
        sum = sum + minutiae[i].quality as u64;
        i += 1;
    }
    assert(minutiae@.take(i as int) == minutiae@);
    sum
}

fn validate_sample(sample: &TemplateSample) -> (res: Result<(), Error>)
    ensures
        err_text(res) == sample_problem(*sample),
{
    let minimum = bozorth_minimum_minutiae();
    let count = sample.minutiae.len();
    if count > MAX_MINUTIAE_PER_SAMPLE {
        return Err(Error::invalid("template sample has too many minutiae"));
    }
    if count < minimum {
        return Err(Error::invalid("template sample has too few minutiae"));
    }
    if sample.mean_quality < MIN_MEAN_MINUTIA_QUALITY || sample.mean_quality > 100 {
        return Err(Error::invalid("template sample quality is outside policy"));
    }
    let mut i: usize = 0;
    while i < count
        invariant
            0 <= i <= count,
            count == sample.minutiae@.len(),
            MIN_MINUTIAE <= count <= MAX_MINUTIAE_PER_SAMPLE,
            MIN_MEAN_MINUTIA_QUALITY <= sample.mean_quality <= 100,
            forall|j: int| 0 <= j < i ==> minutia_ok(#[trigger] sample.minutiae@[j]),
        decreases count - i,
    {
        let minutia = sample.minutiae[i];
        if !(0 <= minutia.theta && minutia.theta < 360) || minutia.x < 0 || minutia.y < 0
            || minutia.quality > 100 {
            assert(!minutia_ok(sample.minutiae@[i as int]));
            return Err(Error::invalid("template contains an invalid minutia"));
        }
        i += 1;
    }
    let quality_sum = sum_qualities(&sample.minutiae);
    let count = count as u64;
    if quality_sum < (MIN_MEAN_MINUTIA_QUALITY as u64) * count {
        return Err(Error::invalid("template sample mean quality is below policy"));
    }
    let computed_mean = (quality_sum + count / 2) / count;
    if computed_mean > 255 {
        return Err(Error::invalid("template sample quality is invalid"));
    }
    if sample.mean_quality as u64 != computed_mean {
        return Err(Error::invalid("template sample mean quality is inconsistent"));
    }
    Ok(())
}

fn profile_id_valid(id: &String) -> (valid: bool)
    ensures
        valid == (utf8_len(id@) != 0 && utf8_len(id@) <= MAX_PROFILE_ID_BYTES),
{
    let length = id.as_str().len();
    length != 0 && length <= MAX_PROFILE_ID_BYTES
}

fn validate_host_template(template: &HostImageTemplate) -> (res: Result<(), Error>)
    ensures
        err_text(res) == host_template_problem(*template),
{
    if template.schema_major != TEMPLATE_SCHEMA_MAJOR {
        return Err(Error::invalid("unsupported template schema major version"));
    }
    if !str_eq(template.engine_id.as_str(), ENGINE_ID) || !str_eq(
        template.engine_version.as_str(),
        ENGINE_VERSION,
    ) {
        return Err(Error::invalid("template engine does not match this build"));
    }
    if !str_eq(template.policy.as_str(), POLICY_NAME) {
        return Err(Error::invalid("template matching policy does not match this build"));
    }
    if !profile_id_valid(&template.capture_profile_id) {
        return Err(Error::invalid("template capture profile ID is invalid"));
    }
    if template.samples.len() > MAX_TEMPLATE_SAMPLES {
        return Err(Error::invalid("template has too many samples"));
    }
    if template.samples.len() != ENROLLMENT_SAMPLES {
        return Err(Error::invalid("M0 templates must contain exactly 3 samples"));
    }
    let mut i: usize = 0;
    while i < template.samples.len()
        invariant
            0 <= i <= template.samples@.len(),
            host_template_problem(*template) == samples_problem_from(template.samples@, i as int),
        decreases template.samples@.len() - i,
    {
        validate_sample(&template.samples[i])?;
        i += 1;
    }
    Ok(())
}

pub(crate) fn validate_device_template(template: &DeviceTemplate) -> (res: Result<(), Error>)
    ensures
        err_text(res) == device_template_problem(*template),
{
    if template.schema_major != TEMPLATE_SCHEMA_MAJOR {
        return Err(Error::invalid("unsupported template schema major version"));
    }
    if !str_eq(template.policy.as_str(), DEVICE_POLICY_NAME) {
        return Err(Error::invalid("template matching policy does not match this build"));
    }
    if !profile_id_valid(&template.driver_id) {
        return Err(Error::invalid("template driver ID is invalid"));
    }
    if !profile_id_valid(&template.device_profile_id) {
        return Err(Error::invalid("template device profile ID is invalid"));
    }
    if template.blob.len() == 0 {
        return Err(Error::invalid("device template blob is empty"));
    }
    if template.blob.len() > MAX_DEVICE_TEMPLATE_BYTES {
        return Err(Error::invalid("device template blob exceeds the limit"));
    }
    Ok(())
}

/// Check a stored template against this build's schema, engine and policy, and its samples or
/// blob against their bounds.
pub fn validate_template(template: &TemplateRecord) -> (res: Result<(), Error>)
    ensures
        err_text(res) == template_problem(*template),
{
    match template {
        TemplateRecord::HostImage(t) => validate_host_template(t),
        TemplateRecord::MatchOnChip(t) => validate_device_template(t),
    }
}

} // verus!
