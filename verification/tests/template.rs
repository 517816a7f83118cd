use fingerprint_kit::template::{MAX_MINUTIAE_PER_SAMPLE, MAX_TEMPLATE_SAMPLES};
use fingerprint_kit::{
    validate_template, DeviceTemplate, HostImageTemplate, MinutiaRecord, TemplateRecord,
    TemplateSample, ENGINE_ID, ENGINE_VERSION, MIN_MEAN_MINUTIA_QUALITY, POLICY_NAME,
};

fn sample(qualities: &[u8]) -> TemplateSample {
    let minutiae: Vec<MinutiaRecord> = qualities
        .iter()
        .enumerate()
        .map(|(i, &quality)| MinutiaRecord {
            x: 10 + i as i32,
            y: 20 + i as i32,
            theta: (i as i32 * 37) % 360,
            quality,
        })
        .collect();
    let sum: u64 = qualities.iter().map(|&q| u64::from(q)).sum();
    let count = qualities.len() as u64;
    TemplateSample { mean_quality: ((sum + count / 2) / count) as u8, minutiae }
}

fn host(samples: Vec<TemplateSample>) -> HostImageTemplate {
    HostImageTemplate {
        schema_major: 2,
        engine_id: ENGINE_ID.to_owned(),
        engine_version: ENGINE_VERSION.to_owned(),
        capture_profile_id: "synthetic-gray8-200x240-500ppi-v1".to_owned(),
        policy: POLICY_NAME.to_owned(),
        samples,
    }
}

fn valid_host() -> HostImageTemplate {
    host(vec![sample(&[60; 12]), sample(&[40; 15]), sample(&[90; 10])])
}

fn problem(template: HostImageTemplate) -> String {
    validate_template(&TemplateRecord::HostImage(template)).err().unwrap().message().to_owned()
}

#[test]
fn a_valid_host_template_passes() {
    assert!(validate_template(&TemplateRecord::HostImage(valid_host())).is_ok());
}

#[test]
fn rejects_unknown_oversized_and_mismatched_templates() {
    let mut unknown = valid_host();
    unknown.schema_major = 1;
    assert_eq!(problem(unknown), "unsupported template schema major version");

    let mut too_many_samples = valid_host();
    while too_many_samples.samples.len() <= MAX_TEMPLATE_SAMPLES {
        too_many_samples.samples.push(too_many_samples.samples[0].clone());
    }
    assert_eq!(problem(too_many_samples), "template has too many samples");

    let mut too_many_minutiae = valid_host();
    too_many_minutiae.samples[0].minutiae =
        vec![too_many_minutiae.samples[0].minutiae[0]; MAX_MINUTIAE_PER_SAMPLE + 1];
    assert_eq!(problem(too_many_minutiae), "template sample has too many minutiae");

    let mut engine_mismatch = valid_host();
    engine_mismatch.engine_id = "different-engine".to_owned();
    assert_eq!(problem(engine_mismatch), "template engine does not match this build");

    let mut two = valid_host();
    two.samples.pop();
    assert_eq!(problem(two), "M0 templates must contain exactly 3 samples");

    let mut policy = valid_host();
    policy.policy = "device-match-v1".to_owned();
    assert_eq!(problem(policy), "template matching policy does not match this build");

    let mut profile = valid_host();
    profile.capture_profile_id = String::new();
    assert_eq!(problem(profile), "template capture profile ID is invalid");
}

#[test]
fn template_rejects_inconsistent_declared_mean_quality() {
    let mut template = valid_host();
    template.samples[0].mean_quality =
        if template.samples[0].mean_quality == 100 { 99 } else { template.samples[0].mean_quality + 1 };
    assert_eq!(problem(template), "template sample mean quality is inconsistent");
}

#[test]
fn template_rejects_rounded_mean_below_exact_policy() {
    let mut template = valid_host();
    let minutiae = &mut template.samples[0].minutiae;
    let minutiae_count = minutiae.len();
    for (index, minutia) in minutiae.iter_mut().enumerate() {
        minutia.quality = if index * 2 < minutiae_count { 25 } else { 24 };
    }
    let quality_sum: u64 = minutiae.iter().map(|minutia| u64::from(minutia.quality)).sum();
    let count = u64::try_from(minutiae.len()).unwrap();
    template.samples[0].mean_quality = u8::try_from((quality_sum + count / 2) / count).unwrap();
    assert_eq!(template.samples[0].mean_quality, MIN_MEAN_MINUTIA_QUALITY);
    assert!(quality_sum < u64::from(MIN_MEAN_MINUTIA_QUALITY) * count);
    assert_eq!(problem(template), "template sample mean quality is below policy");
}

#[test]
fn samples_and_minutiae_are_checked_against_their_bounds() {
    let mut few = valid_host();
    few.samples[1] = sample(&[60; 9]);
    assert_eq!(problem(few), "template sample has too few minutiae");

    let mut low = valid_host();
    low.samples[2] = sample(&[20; 12]);
    assert_eq!(problem(low), "template sample quality is outside policy");

    let mut bad_theta = valid_host();
    bad_theta.samples[0].minutiae[3].theta = 360;
    assert_eq!(problem(bad_theta), "template contains an invalid minutia");

    let mut bad_quality = valid_host();
    bad_quality.samples[0].minutiae[0].quality = 101;
    assert_eq!(problem(bad_quality), "template contains an invalid minutia");
}

#[test]
fn device_templates_are_validated_on_their_own_terms() {
    let device = DeviceTemplate {
        schema_major: 2,
        driver_id: "upekts".to_owned(),
        device_profile_id: "0483:2016".to_owned(),
        policy: "device-match-v1".to_owned(),
        blob: vec![0xA5; 241],
    };
    assert!(validate_template(&TemplateRecord::MatchOnChip(device.clone())).is_ok());
    let mut host_policy = device.clone();
    host_policy.policy = POLICY_NAME.to_owned();
    assert!(validate_template(&TemplateRecord::MatchOnChip(host_policy)).is_err());
    let mut no_model = device;
    no_model.device_profile_id = String::new();
    assert_eq!(
        validate_template(&TemplateRecord::MatchOnChip(no_model)).err().unwrap().message(),
        "template device profile ID is invalid"
    );
}
