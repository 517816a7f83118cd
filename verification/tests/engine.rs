use fingerprint_kit::{
    analyze_capture, decide_match, summarize_capture, summarize_detection, verify,
    CanonicalImage, CaptureKind, CaptureMetadata, DeviceTemplate, EnrollmentBuilder,
    HostImageTemplate, MinutiaRecord, TemplateRecord, TemplateSample, VerificationResult,
    ACCEPT_THRESHOLD, ENGINE_ID, ENGINE_VERSION, POLICY_NAME,
};

fn metadata(profile: &str) -> CaptureMetadata {
    CaptureMetadata {
        capture_profile_id: profile.to_owned(),
        capture_kind: CaptureKind::Press,
        partial: false,
        x_resolution_ppi: 500,
        y_resolution_ppi: 500,
    }
}

/// Dark horizontal ridges on a light field, with gaps cut into alternate ridges: every gap
/// ends a ridge, and a ridge ending is a minutia.
fn ridge_image(offset: usize) -> CanonicalImage {
    let (width, height) = (200usize, 240usize);
    let pixels: Vec<u8> = (0..width * height)
        .map(|i| {
            let (x, y) = (i % width, i / width);
            let on_ridge = ((y + offset) % 10) < 5;
            let band = (y + offset) / 10;
            let gap_start = 40 + (band * 37) % 100;
            let gap = (gap_start..gap_start + 24).contains(&x) && band % 2 == 0;
            if on_ridge && !gap {
                32
            } else {
                224
            }
        })
        .collect();
    CanonicalImage::new(200, 240, 500, 500, pixels).unwrap()
}

#[test]
fn uniform_and_low_information_images_are_rejected() {
    let metadata = metadata("test");
    let uniform = CanonicalImage::new(200, 240, 500, 500, vec![128; 200 * 240]).unwrap();
    let uniform_inspection = summarize_capture(&uniform, &metadata).unwrap();
    assert_eq!(uniform_inspection.minutiae_count, 0);
    assert!(analyze_capture(&uniform, &metadata).is_err());

    let low_range: Vec<u8> =
        (0..200 * 240).map(|index| 126 + u8::try_from(index % 5).unwrap()).collect();
    let low_range = CanonicalImage::new(200, 240, 500, 500, low_range).unwrap();
    assert!(analyze_capture(&low_range, &metadata).is_err());
}

#[test]
fn uniform_captures_report_their_summary_and_the_count_refusal() {
    let metadata = metadata("test");
    let uniform = CanonicalImage::new(200, 240, 500, 500, vec![128; 200 * 240]).unwrap();
    let summary = summarize_capture(&uniform, &metadata).unwrap();
    assert_eq!((summary.width, summary.height), (200, 240));
    assert_eq!((summary.x_resolution_ppi, summary.y_resolution_ppi), (500, 500));
    assert_eq!(summary.dynamic_range, 0);
    assert_eq!(summary.quality_sum, 0);
    assert_eq!(
        analyze_capture(&uniform, &metadata).err().unwrap().message(),
        "capture has 0 minutiae; at least 10 are required"
    );
}

#[test]
fn capture_policy_checks_come_in_order() {
    let image = CanonicalImage::new(200, 240, 500, 500, vec![128; 200 * 240]).unwrap();
    let mut partial = metadata("test");
    partial.partial = true;
    assert_eq!(
        summarize_capture(&image, &partial).err().unwrap().message(),
        "partial captures are not accepted by the M0 policy"
    );
    let mut other_resolution = metadata("test");
    other_resolution.y_resolution_ppi = 1000;
    assert_eq!(
        summarize_capture(&image, &other_resolution).err().unwrap().message(),
        "image and capture metadata resolutions differ"
    );
    let anisotropic = CanonicalImage::new(200, 240, 500, 1000, vec![128; 200 * 240]).unwrap();
    assert_eq!(
        summarize_capture(&anisotropic, &other_resolution).err().unwrap().message(),
        "M0 NBIS processing requires equal X and Y resolution"
    );
    let tiny = CanonicalImage::new(10, 10, 500, 500, vec![0; 100]).unwrap();
    assert_eq!(
        summarize_capture(&tiny, &metadata("test")).err().unwrap().message(),
        "MINDTCT rejected image geometry: image 10x10 is too small to detect minutiae: each dimension must be at least 25 pixels"
    );
    assert_eq!(
        summarize_capture(&image, &metadata("")).err().unwrap().message(),
        "capture profile ID is empty or too long"
    );
}

#[test]
fn detections_become_a_summary_and_a_sample() {
    let image = CanonicalImage::new(2, 2, 500, 500, vec![10, 200, 30, 40]).unwrap();
    let detected = vec![(1, 2, 90, 30), (3, 4, 180, 41), (5, 6, 270, 50)];
    let (summary, sample) = summarize_detection(&image, &detected).unwrap();
    assert_eq!(summary.dynamic_range, 190);
    assert_eq!(summary.minutiae_count, 3);
    assert_eq!(summary.quality_sum, 121);
    assert_eq!(sample.mean_quality, 40);
    assert!(sample.minutiae[1] == MinutiaRecord { x: 3, y: 4, theta: 180, quality: 41 });
    assert_eq!(
        summarize_detection(&image, &vec![(1, 2, 3, 256)]).err().unwrap().message(),
        "MINDTCT emitted invalid quality"
    );
    assert_eq!(
        summarize_detection(&image, &vec![(1, 2, 3, -1)]).err().unwrap().message(),
        "MINDTCT emitted invalid quality"
    );
    let (empty, none) = summarize_detection(&image, &Vec::new()).unwrap();
    assert_eq!((empty.minutiae_count, none.mean_quality), (0, 0));
}

#[test]
fn the_verdict_takes_the_best_score_against_the_threshold() {
    assert_eq!(
        decide_match(&[12, 55, 31], 60),
        VerificationResult { score: 55, threshold: 40, matched: true, probe_quality: 60 }
    );
    assert_eq!(
        decide_match(&[39, 0, 2], 30),
        VerificationResult { score: 39, threshold: ACCEPT_THRESHOLD, matched: false, probe_quality: 30 }
    );
    assert!(decide_match(&[40], 25).matched);
    assert_eq!(decide_match(&[], 25).score, 0);
}

fn stored_template(profile: &str) -> TemplateRecord {
    let minutiae: Vec<MinutiaRecord> = (0..12)
        .map(|i| MinutiaRecord { x: 10 + i * 9, y: 20 + i * 7, theta: (i * 30) % 360, quality: 50 })
        .collect();
    let sample = TemplateSample { mean_quality: 50, minutiae };
    TemplateRecord::HostImage(HostImageTemplate {
        schema_major: 2,
        engine_id: ENGINE_ID.to_owned(),
        engine_version: ENGINE_VERSION.to_owned(),
        capture_profile_id: profile.to_owned(),
        policy: POLICY_NAME.to_owned(),
        samples: vec![sample.clone(), sample.clone(), sample],
    })
}

#[test]
fn profile_mismatch_fails_closed_at_verification() {
    let template = stored_template("synthetic-gray8-200x240-500ppi-v1");
    let image = ridge_image(0);
    let metadata = metadata("different-profile");
    assert_eq!(
        verify(&template, &image, &metadata).err().unwrap().message(),
        "probe capture profile does not match the template"
    );
}

#[test]
fn the_host_path_refuses_match_on_chip_templates() {
    let template = TemplateRecord::MatchOnChip(DeviceTemplate {
        schema_major: 2,
        driver_id: "driver".to_owned(),
        device_profile_id: "model".to_owned(),
        policy: "device-match-v1".to_owned(),
        blob: vec![1; 16],
    });
    assert_eq!(
        verify(&template, &ridge_image(0), &metadata("p")).err().unwrap().message(),
        "this template matches on the device; verify it against a device, not a capture"
    );
}

#[test]
fn enrollment_needs_three_captures_of_one_profile() {
    assert_eq!(
        EnrollmentBuilder::new(2).err().unwrap().message(),
        "enrollment requires exactly 3 captures"
    );
    let mut builder = EnrollmentBuilder::new(3).unwrap();
    let image = ridge_image(0);
    if builder.add_capture(&image, &metadata("first")).is_ok() {
        assert_eq!(
            builder.add_capture(&image, &metadata("second")).err().unwrap().message(),
            "all enrollment captures must use the same capture profile"
        );
    }
    let empty = EnrollmentBuilder::new(3).unwrap();
    assert_eq!(empty.finish().err().unwrap().message(), "enrollment profile is unavailable");
    let mut refused = EnrollmentBuilder::new(3).unwrap();
    let uniform = CanonicalImage::new(200, 240, 500, 500, vec![128; 200 * 240]).unwrap();
    assert!(refused.add_capture(&uniform, &metadata("first")).is_err());
    assert!(refused.finish().is_err());
}

/// Vertical ridges with gaps: a different print from `ridge_image`.
fn crossing_image() -> CanonicalImage {
    let (width, height) = (200usize, 240usize);
    let pixels: Vec<u8> = (0..width * height)
        .map(|i| {
            let (x, y) = (i % width, i / width);
            let on_ridge = (x % 10) < 5;
            let band = x / 10;
            let gap_start = 30 + (band * 53) % 150;
            let gap = (gap_start..gap_start + 20).contains(&y) && band % 2 == 1;
            if on_ridge && !gap {
                32
            } else {
                224
            }
        })
        .collect();
    CanonicalImage::new(200, 240, 500, 500, pixels).unwrap()
}

#[test]
fn fixed_fixture_genuine_matches_and_impostor_does_not() {
    let metadata = metadata("ridge-profile");
    let summary = summarize_capture(&ridge_image(0), &metadata).unwrap();
    assert_eq!(summary.minutiae_count, 22);
    assert_eq!(summary.dynamic_range, 192);
    let mut builder = EnrollmentBuilder::new(3).unwrap();
    for offset in 0..3 {
        builder.add_capture(&ridge_image(offset), &metadata).unwrap();
    }
    let template = builder.finish().unwrap();
    match &template {
        TemplateRecord::HostImage(host) => {
            assert_eq!(host.schema_major, 2);
            assert_eq!(host.policy, POLICY_NAME);
            assert_eq!(host.capture_profile_id, "ridge-profile");
            assert_eq!(host.samples.len(), 3);
            assert_eq!(host.samples[0].minutiae.len(), 22);
        }
        TemplateRecord::MatchOnChip(_) => panic!("enrollment built a device template"),
    }
    assert!(fingerprint_kit::validate_template(&template).is_ok());
    let genuine = verify(&template, &ridge_image(3), &metadata).unwrap();
    assert!(genuine.score >= ACCEPT_THRESHOLD, "score={}", genuine.score);
    assert!(genuine.matched);
    let impostor = verify(&template, &crossing_image(), &metadata).unwrap();
    assert!(impostor.score < ACCEPT_THRESHOLD, "score={}", impostor.score);
    assert!(!impostor.matched);
}

#[test]
fn enrollment_entry_point_rejects_uniform_captures() {
    let metadata = metadata("test");
    let uniform = CanonicalImage::new(200, 240, 500, 500, vec![128; 200 * 240]).unwrap();
    let mut builder = EnrollmentBuilder::new(3).unwrap();
    assert!(builder.add_capture(&uniform, &metadata).is_err());
}
