use fingerprint_kit::{
    check_provenance, device_template_from, device_template_record, enroll_device, verify_device,
    DeviceTemplate, Error, HostImageTemplate, MatchOnChipDevice, MatchVerdict, TemplateRecord,
    DEVICE_POLICY_NAME,
};

/// A scripted stand-in for a match-on-chip sensor: enrollment reports `stages - 1` progress
/// callbacks and signals completion by returning the template.
struct MockDevice {
    driver_id: String,
    device_profile_id: String,
    stages: u32,
    enrolled_identity: u8,
    presented_identity: u8,
    fail_next: bool,
}

impl MockDevice {
    fn new(stages: u32) -> Self {
        Self {
            driver_id: "mock".to_owned(),
            device_profile_id: "mock-moc-sensor".to_owned(),
            stages,
            enrolled_identity: 1,
            presented_identity: 1,
            fail_next: false,
        }
    }

    fn with_driver(mut self, driver_id: &str) -> Self {
        self.driver_id = driver_id.to_owned();
        self
    }
}

impl MatchOnChipDevice for MockDevice {
    fn driver_id(&self) -> &str {
        &self.driver_id
    }

    fn device_profile_id(&self) -> &str {
        &self.device_profile_id
    }

    fn enroll_stages(&self) -> u32 {
        self.stages
    }

    fn enroll<F: FnMut(u32, u32)>(&mut self, on_progress: &mut F) -> Result<Vec<u8>, Error> {
        if self.fail_next {
            self.fail_next = false;
            return Err(Error::processing("mock device refused to enroll"));
        }
        for completed in 1..self.stages {
            on_progress(completed, self.stages);
        }
        Ok(vec![self.enrolled_identity; 32])
    }

    fn verify(&mut self, blob: &[u8]) -> Result<MatchVerdict, Error> {
        if self.fail_next {
            self.fail_next = false;
            return Err(Error::processing("mock device refused to verify"));
        }
        Ok(MatchVerdict { matched: blob.first() == Some(&self.presented_identity) })
    }
}

#[test]
fn enroll_then_verify_matches_the_same_finger_and_rejects_another() {
    let mut device = MockDevice::new(3);
    let mut stages_seen = Vec::new();
    let template =
        enroll_device(&mut device, &mut |done, total| stages_seen.push((done, total))).unwrap();

    assert_eq!(stages_seen, vec![(1, 3), (2, 3)]);
    assert_eq!(template.policy, DEVICE_POLICY_NAME);
    assert_eq!(template.driver_id, "mock");

    assert!(verify_device(&mut device, &template).unwrap().matched);

    device.presented_identity = 2;
    assert!(!verify_device(&mut device, &template).unwrap().matched);
}

#[test]
fn a_template_is_refused_by_a_device_that_did_not_produce_it() {
    let mut device = MockDevice::new(3);
    let template = enroll_device(&mut device, &mut |_, _| {}).unwrap();

    let mut other = MockDevice::new(3).with_driver("other-driver");
    let error = verify_device(&mut other, &template).err().unwrap();
    assert!(error.message().contains("different driver"));
}

#[test]
fn device_failures_surface_instead_of_becoming_a_non_match() {
    let mut device = MockDevice::new(3);
    device.fail_next = true;
    assert!(enroll_device(&mut device, &mut |_, _| {}).is_err());

    let template = enroll_device(&mut device, &mut |_, _| {}).unwrap();
    device.fail_next = true;
    assert!(verify_device(&mut device, &template).is_err());
}

struct EmptyDevice;

impl MatchOnChipDevice for EmptyDevice {
    fn driver_id(&self) -> &str {
        "empty"
    }
    fn device_profile_id(&self) -> &str {
        "empty"
    }
    fn enroll_stages(&self) -> u32 {
        1
    }
    fn enroll<F: FnMut(u32, u32)>(&mut self, _: &mut F) -> Result<Vec<u8>, Error> {
        Ok(Vec::new())
    }
    fn verify(&mut self, _: &[u8]) -> Result<MatchVerdict, Error> {
        Ok(MatchVerdict { matched: true })
    }
}

#[test]
fn an_empty_blob_is_rejected_at_enrollment() {
    assert!(enroll_device(&mut EmptyDevice, &mut |_, _| {}).is_err());
}

fn device_template(blob: Vec<u8>) -> DeviceTemplate {
    DeviceTemplate {
        schema_major: 2,
        driver_id: "mock".to_owned(),
        device_profile_id: "mock-moc-sensor".to_owned(),
        policy: "device-match-v1".to_owned(),
        blob,
    }
}

#[test]
fn device_templates_record_provenance_and_bound_the_blob() {
    let template = device_template_from("mock", "mock-moc-sensor", vec![5; 241]).unwrap();
    assert_eq!(template.schema_major, 2);
    assert_eq!(template.device_profile_id, "mock-moc-sensor");
    assert_eq!(template.blob, vec![5; 241]);
    assert_eq!(
        device_template_from("mock", "m", Vec::new()).err().unwrap().message(),
        "device template blob is empty"
    );
    assert_eq!(
        device_template_from("mock", "m", vec![0; 64 * 1024 + 1]).err().unwrap().message(),
        "device template blob exceeds the limit"
    );
    assert_eq!(
        device_template_from("", "m", vec![1]).err().unwrap().message(),
        "template driver ID is invalid"
    );
}

#[test]
fn provenance_is_checked_driver_first_then_model() {
    let template = device_template(vec![1; 8]);
    assert!(check_provenance(&template, "mock", "mock-moc-sensor").is_ok());
    assert_eq!(
        check_provenance(&template, "other", "other").err().unwrap().message(),
        "template was enrolled by a different driver"
    );
    assert_eq!(
        check_provenance(&template, "mock", "other").err().unwrap().message(),
        "template was enrolled on a different device model"
    );
    let mut stale = template.clone();
    stale.schema_major = 1;
    assert_eq!(
        check_provenance(&stale, "mock", "mock-moc-sensor").err().unwrap().message(),
        "unsupported template schema major version"
    );
}

#[test]
fn the_device_path_refuses_host_image_templates() {
    let host = TemplateRecord::HostImage(HostImageTemplate {
        schema_major: 2,
        engine_id: "nbis-mindtct-bozorth3".to_owned(),
        engine_version: "fprint-mindtct-0.1.0+fprint-bozorth3-0.1.0".to_owned(),
        capture_profile_id: "p".to_owned(),
        policy: "experimental-nbis-40-v1".to_owned(),
        samples: Vec::new(),
    });
    assert!(device_template_record(host).is_err());
    let device = device_template(vec![3; 4]);
    let record = TemplateRecord::MatchOnChip(device.clone());
    assert!(device_template_record(record).unwrap() == device);
}

#[test]
fn enrollment_records_the_devices_identity_and_blob() {
    let mut device = MockDevice::new(3);
    let mut stages_seen = Vec::new();
    let template =
        enroll_device(&mut device, &mut |done, total| stages_seen.push((done, total))).unwrap();
    assert_eq!(stages_seen, vec![(1, 3), (2, 3)]);
    assert_eq!(template.schema_major, 2);
    assert_eq!(template.driver_id, "mock");
    assert_eq!(template.device_profile_id, "mock-moc-sensor");
    assert_eq!(template.policy, DEVICE_POLICY_NAME);
    assert_eq!(template.blob, vec![1; 32]);
}

#[test]
fn a_foreign_template_is_refused_without_asking_the_device() {
    let template = enroll_device(&mut MockDevice::new(3), &mut |_, _| {}).unwrap();

    let mut other_driver = MockDevice::new(3).with_driver("other-driver");
    other_driver.fail_next = true;
    assert_eq!(
        verify_device(&mut other_driver, &template).err().unwrap().message(),
        "template was enrolled by a different driver"
    );
    assert!(other_driver.fail_next);

    let mut other_model = MockDevice::new(3);
    other_model.device_profile_id = "other-sensor".to_owned();
    other_model.fail_next = true;
    assert_eq!(
        verify_device(&mut other_model, &template).err().unwrap().message(),
        "template was enrolled on a different device model"
    );
    assert!(other_model.fail_next);
}

#[test]
fn device_errors_come_back_unchanged() {
    let mut device = MockDevice::new(3);
    device.fail_next = true;
    assert_eq!(
        enroll_device(&mut device, &mut |_, _| {}).err().unwrap().message(),
        "mock device refused to enroll"
    );
    let template = enroll_device(&mut device, &mut |_, _| {}).unwrap();
    device.fail_next = true;
    assert_eq!(
        verify_device(&mut device, &template).err().unwrap().message(),
        "mock device refused to verify"
    );
    assert!(!device.fail_next);
}

struct OversizeDevice;

impl MatchOnChipDevice for OversizeDevice {
    fn driver_id(&self) -> &str {
        "oversize"
    }
    fn device_profile_id(&self) -> &str {
        "oversize-sensor"
    }
    fn enroll_stages(&self) -> u32 {
        1
    }
    fn enroll<F: FnMut(u32, u32)>(&mut self, _: &mut F) -> Result<Vec<u8>, Error> {
        Ok(vec![7; 64 * 1024 + 1])
    }
    fn verify(&mut self, _: &[u8]) -> Result<MatchVerdict, Error> {
        Ok(MatchVerdict { matched: true })
    }
}

#[test]
fn an_oversize_blob_is_rejected_at_enrollment() {
    assert_eq!(
        enroll_device(&mut OversizeDevice, &mut |_, _| {}).err().unwrap().message(),
        "device template blob exceeds the limit"
    );
    assert_eq!(
        enroll_device(&mut EmptyDevice, &mut |_, _| {}).err().unwrap().message(),
        "device template blob is empty"
    );
}
