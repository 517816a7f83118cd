//! A hardware-free fingerprint pipeline: capture validation, PGM capture images, capture
//! analysis and verification over NBIS, versioned templates, the match-on-chip seam, and the
//! driver JSON Lines protocol with its session validator.

pub mod bundle;
pub mod domain;
pub mod engine;
pub mod error;
pub mod laws;
pub mod moc;
pub mod protocol;
pub mod synthetic;
pub mod template;
pub mod text;

pub use domain::{
    CanonicalImage, CaptureKind, CaptureMetadata, DeviceTemplate, HostImageTemplate, MatchVerdict,
    MinutiaRecord, TemplateRecord, TemplateSample, VerificationResult, MAX_DEVICE_TEMPLATE_BYTES,
};
pub use engine::{
    analyze_capture, decide_match, summarize_capture, summarize_detection, verify,
    CaptureSummary, EnrollmentBuilder, ACCEPT_THRESHOLD, DEVICE_POLICY_NAME, ENGINE_ID,
    ENGINE_VERSION, ENROLLMENT_SAMPLES, MIN_MEAN_MINUTIA_QUALITY, POLICY_NAME,
    TEMPLATE_SCHEMA_MAJOR,
};
pub use error::{Error, JsonErrorCategory};
pub use moc::{
    check_provenance, device_template_from, device_template_record, enroll_device, verify_device,
    MatchOnChipDevice,
};
pub use synthetic::{
    synthetic_capture, SYNTHETIC_CAPTURE_PROFILE, SYNTHETIC_HEIGHT, SYNTHETIC_PPI,
    SYNTHETIC_WIDTH,
};
pub use template::validate_template;
