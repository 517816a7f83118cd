use fingerprint_kit::domain::{checked_pixel_count, MAX_IMAGE_BYTES};
use fingerprint_kit::{
    CanonicalImage, CaptureKind, CaptureMetadata, DeviceTemplate, HostImageTemplate,
    MinutiaRecord, TemplateRecord, TemplateSample,
};

#[test]
fn canonical_image_rejects_invalid_geometry_without_panicking() {
    assert!(CanonicalImage::new(0, 1, 500, 500, Vec::new()).is_err());
    assert!(CanonicalImage::new(1, 0, 500, 500, Vec::new()).is_err());
    assert!(CanonicalImage::new(u32::MAX, u32::MAX, 500, 500, Vec::new()).is_err());
    assert!(CanonicalImage::new(2, 2, 500, 500, vec![0; 3]).is_err());
    assert!(CanonicalImage::new(4097, 4097, 500, 500, vec![0; MAX_IMAGE_BYTES + 1]).is_err());
    assert!(CanonicalImage::new(1, 1, 0, 500, vec![0]).is_err());
    assert!(CanonicalImage::new(1, 1, 500, 0, vec![0]).is_err());
}

#[test]
fn image_area_product_overflow_is_rejected_without_panicking() {
    assert!(checked_pixel_count(usize::MAX, 2).is_err());
}

#[test]
fn debug_redacts_pixels_and_minutiae() {
    let image = CanonicalImage::new(1, 1, 500, 500, vec![123]).unwrap();
    let rendered = image.debug_text();
    assert!(rendered.contains("<redacted>"));
    assert!(!rendered.contains("123"));

    let minutia = MinutiaRecord { x: 11, y: 22, theta: 33, quality: 44 };
    assert_eq!(minutia.debug_text(), "MinutiaRecord(<redacted>)");

    let sample = TemplateSample { mean_quality: 44, minutiae: vec![minutia] };
    let rendered_sample = sample.debug_text();
    assert!(rendered_sample.contains("<1 redacted>"));
    assert!(!rendered_sample.contains("x: 11"));

    let template = TemplateRecord::HostImage(HostImageTemplate {
        schema_major: 2,
        engine_id: "engine".to_owned(),
        engine_version: "version".to_owned(),
        capture_profile_id: "profile".to_owned(),
        policy: "policy".to_owned(),
        samples: vec![sample],
    });
    let rendered_template = template.debug_text();
    assert!(rendered_template.contains("<1 redacted>"));
    assert!(!rendered_template.contains("x: 11"));
}

#[test]
fn debug_redacts_the_device_template_blob() {
    let template = DeviceTemplate {
        schema_major: 2,
        driver_id: "driver".to_owned(),
        device_profile_id: "profile".to_owned(),
        policy: "policy".to_owned(),
        blob: vec![0xAB, 0xCD, 0xEF],
    };
    let rendered = template.debug_text();
    assert!(rendered.contains("<3 bytes redacted>"));
    assert!(!rendered.contains("171"));
    assert!(!rendered.contains("AB"));
}

#[test]
fn template_record_exposes_the_common_fields_from_either_arm() {
    let host = TemplateRecord::HostImage(HostImageTemplate {
        schema_major: 2,
        engine_id: String::new(),
        engine_version: String::new(),
        capture_profile_id: String::new(),
        policy: "host-policy".to_owned(),
        samples: Vec::new(),
    });
    let device = TemplateRecord::MatchOnChip(DeviceTemplate {
        schema_major: 2,
        driver_id: String::new(),
        device_profile_id: String::new(),
        policy: "device-policy".to_owned(),
        blob: Vec::new(),
    });
    assert_eq!(host.schema_major(), 2);
    assert_eq!(device.schema_major(), 2);
    assert_eq!(host.policy(), "host-policy");
    assert_eq!(device.policy(), "device-policy");
}

#[test]
fn image_errors_name_the_first_failed_check() {
    let message = |result: Result<CanonicalImage, fingerprint_kit::Error>| {
        result.err().unwrap().message().to_owned()
    };
    assert_eq!(message(CanonicalImage::new(0, 1, 500, 500, Vec::new())), "image dimensions must be non-zero");
    assert_eq!(
        message(CanonicalImage::new(1, 1, 0, 0, vec![0])),
        "image resolution must be known and non-zero"
    );
    assert_eq!(
        message(CanonicalImage::new(4097, 4097, 500, 500, Vec::new())),
        "image exceeds the 16 MiB limit"
    );
    assert_eq!(
        message(CanonicalImage::new(2, 2, 500, 500, vec![0; 3])),
        "pixel length does not match packed Gray8 dimensions"
    );
    assert_eq!(checked_pixel_count(1 << 20, 16), Ok(1 << 24));
}

#[test]
fn valid_images_keep_their_geometry_and_pixels() {
    let image = CanonicalImage::new(3, 2, 500, 400, vec![0, 10, 32, 100, 200, 255]).unwrap();
    assert_eq!(image.width(), 3);
    assert_eq!(image.height(), 2);
    assert_eq!(image.x_resolution_ppi(), 500);
    assert_eq!(image.y_resolution_ppi(), 400);
    assert_eq!(image.pixels(), &[0, 10, 32, 100, 200, 255]);
    let copy = image.clone();
    assert!(copy.same_as(&image));
    let other = CanonicalImage::new(3, 2, 500, 400, vec![0, 10, 32, 100, 200, 254]).unwrap();
    assert!(!other.same_as(&image));
}

#[test]
fn debug_renderings_are_exact() {
    let image = CanonicalImage::new(3, 2, 500, 400, vec![9; 6]).unwrap();
    assert_eq!(
        image.debug_text(),
        "CanonicalImage { width: 3, height: 2, x_resolution_ppi: 500, y_resolution_ppi: 400, pixels: \"<redacted>\" }"
    );
    let sample = TemplateSample { mean_quality: 44, minutiae: Vec::new() };
    assert_eq!(sample.debug_text(), "TemplateSample { mean_quality: 44, minutiae: <0 redacted> }");
    let device = TemplateRecord::MatchOnChip(DeviceTemplate {
        schema_major: 2,
        driver_id: "drv\"1".to_owned(),
        device_profile_id: "model".to_owned(),
        policy: "device-match-v1".to_owned(),
        blob: vec![1, 2],
    });
    assert_eq!(
        device.debug_text(),
        "MatchOnChip(DeviceTemplate { schema_major: 2, driver_id: \"drv\\\"1\", device_profile_id: \"model\", policy: \"device-match-v1\", blob: <2 bytes redacted> })"
    );
}

#[test]
fn metadata_validation_checks_profile_and_resolution() {
    let mut metadata = CaptureMetadata {
        capture_profile_id: "profile".to_owned(),
        capture_kind: CaptureKind::Swipe,
        partial: false,
        x_resolution_ppi: 500,
        y_resolution_ppi: 500,
    };
    assert!(metadata.validate().is_ok());
    metadata.capture_profile_id = "x".repeat(129);
    assert_eq!(
        metadata.validate().err().unwrap().message(),
        "capture profile ID is empty or too long"
    );
    metadata.capture_profile_id = "é".repeat(64);
    assert!(metadata.validate().is_ok());
    metadata.capture_profile_id = String::new();
    assert!(metadata.validate().is_err());
    metadata.capture_profile_id = "p".to_owned();
    metadata.y_resolution_ppi = 0;
    assert_eq!(
        metadata.validate().err().unwrap().message(),
        "capture resolution must be known and non-zero"
    );
}

#[test]
fn debug_renderings_depend_on_no_biometric_content() {
    let a = CanonicalImage::new(2, 1, 500, 500, vec![1, 2]).unwrap();
    let b = CanonicalImage::new(2, 1, 500, 500, vec![200, 201]).unwrap();
    assert_eq!(a.debug_text(), b.debug_text());
    let first = TemplateSample {
        mean_quality: 60,
        minutiae: vec![MinutiaRecord { x: 1, y: 2, theta: 3, quality: 60 }],
    };
    let second = TemplateSample {
        mean_quality: 60,
        minutiae: vec![MinutiaRecord { x: 90, y: 80, theta: 70, quality: 60 }],
    };
    assert_eq!(first.debug_text(), second.debug_text());
    let device = |blob: Vec<u8>| DeviceTemplate {
        schema_major: 2,
        driver_id: "d".to_owned(),
        device_profile_id: "m".to_owned(),
        policy: "device-match-v1".to_owned(),
        blob,
    };
    assert_eq!(device(vec![0; 4]).debug_text(), device(vec![9; 4]).debug_text());
}
