use fingerprint_kit::protocol::{
    encode_template_data, enumeration_reply, handshake_reply, request_label, select_device,
    unexpected, worker_failure, DeviceCapability, DeviceInfo, EnrollStep, EnrollmentEvents,
    Response, VerificationEvents,
};
use fingerprint_kit::MatchVerdict;

fn device(id: &str, capability: DeviceCapability, stages: u32) -> DeviceInfo {
    DeviceInfo {
        device_id: id.to_owned(),
        capture_profile_id: format!("{id}-driver"),
        capability,
        enroll_stages: stages,
    }
}

#[test]
fn the_first_match_on_chip_device_is_chosen() {
    let devices = vec![
        device("camera", DeviceCapability::HostImage, 0),
        device("sensor-a", DeviceCapability::MatchOnChip, 3),
        device("sensor-b", DeviceCapability::MatchOnChip, 5),
    ];
    let chosen = select_device(devices).unwrap();
    assert_eq!(chosen.device_id, "sensor-a");
    assert_eq!(chosen.capture_profile_id, "sensor-a-driver");
    assert_eq!(chosen.enroll_stages, 3);
}

#[test]
fn workers_without_a_usable_match_on_chip_device_are_refused() {
    let only_host = vec![device("camera", DeviceCapability::HostImage, 0)];
    assert_eq!(
        select_device(only_host).err().unwrap().message(),
        "the driver worker enumerated no match-on-chip device"
    );
    let cannot_enroll = vec![device("sensor", DeviceCapability::MatchOnChip, 0)];
    assert_eq!(
        select_device(cannot_enroll).err().unwrap().message(),
        "the driver worker reports a device that cannot enroll"
    );
    let reply = Response::Completed { operation_id: "op".to_owned() };
    assert_eq!(
        enumeration_reply(reply).err().unwrap().message(),
        "expected device list from the driver worker, got Response(\"completed\")"
    );
    let listed = Response::Devices {
        request_id: "enumerate-2".to_owned(),
        devices: vec![device("sensor", DeviceCapability::MatchOnChip, 3)],
    };
    assert_eq!(enumeration_reply(listed).unwrap().device_id, "sensor");
}

#[test]
fn the_handshake_needs_an_acknowledgement() {
    let ack = Response::HelloAck { request_id: "hello-1".to_owned(), protocol_version: 0 };
    assert!(handshake_reply(&ack).is_ok());
    let other = Response::FingerPresent { operation_id: "SENTINEL".to_owned() };
    let error = handshake_reply(&other).err().unwrap();
    assert_eq!(
        error.message(),
        "expected hello acknowledgement from the driver worker, got Response(\"finger_present\")"
    );
    assert!(!error.message().contains("SENTINEL"));
}

#[test]
fn labels_and_worker_failures_are_rendered_exactly() {
    assert_eq!(request_label("enroll", 12), "enroll-12");
    assert_eq!(request_label("hello", 0), "hello-0");
    let failure = Response::Error {
        request_id: None,
        operation_id: Some("op".to_owned()),
        code: "enroll".to_owned(),
        message: "sensor unplugged".to_owned(),
    };
    assert_eq!(
        worker_failure(&failure).unwrap().message(),
        "driver worker: enroll: sensor unplugged"
    );
    assert!(worker_failure(&Response::Completed { operation_id: "op".to_owned() }).is_none());
    assert_eq!(
        unexpected("a verdict", &Response::Completed { operation_id: "op".to_owned() }).message(),
        "expected a verdict from the driver worker, got Response(\"completed\")"
    );
}

#[test]
fn an_enrollment_finishes_with_the_template_not_with_the_last_stage() {
    let mut events = EnrollmentEvents::new();
    let started = Response::Started { request_id: "enroll-1".to_owned(), operation_id: "op".to_owned() };
    assert!(matches!(events.on_response(started), Ok(EnrollStep::Continue)));
    for completed in 1..=2 {
        let progress = Response::EnrollProgress {
            operation_id: "op".to_owned(),
            completed_stages: completed,
            total_stages: 3,
        };
        assert!(matches!(events.on_response(progress), Ok(EnrollStep::Progress(c, 3)) if c == completed));
    }
    let enrolled = Response::Enrolled {
        operation_id: "op".to_owned(),
        template_base64: encode_template_data(&[7; 241]).unwrap(),
    };
    assert!(matches!(events.on_response(enrolled), Ok(EnrollStep::Continue)));
    match events.on_response(Response::Completed { operation_id: "op".to_owned() }) {
        Ok(EnrollStep::Finished(blob)) => assert_eq!(blob, vec![7; 241]),
        _ => panic!("the enrollment did not finish with its template"),
    }
}

#[test]
fn an_enrollment_without_a_template_or_with_a_stray_event_fails() {
    let mut events = EnrollmentEvents::new();
    assert_eq!(
        events
            .on_response(Response::Completed { operation_id: "op".to_owned() })
            .err()
            .unwrap()
            .message(),
        "the driver worker completed enrollment without a template"
    );
    let mut events = EnrollmentEvents::new();
    let verdict = Response::MatchResult { operation_id: "op".to_owned(), matched: true };
    assert_eq!(
        events.on_response(verdict).err().unwrap().message(),
        "expected an enrollment event from the driver worker, got Response(\"match_result\")"
    );
    let mut events = EnrollmentEvents::new();
    let bad = Response::Enrolled { operation_id: "op".to_owned(), template_base64: "***".to_owned() };
    assert_eq!(
        events.on_response(bad).err().unwrap().message(),
        "protocol template contains invalid base64"
    );
}

#[test]
fn a_verification_finishes_with_the_device_verdict() {
    let mut events = VerificationEvents::new();
    for response in [
        Response::Started { request_id: "verify-1".to_owned(), operation_id: "op".to_owned() },
        Response::FingerPresent { operation_id: "op".to_owned() },
        Response::MatchResult { operation_id: "op".to_owned(), matched: false },
        Response::FingerRemoved { operation_id: "op".to_owned() },
    ] {
        assert_eq!(events.on_response(&response).unwrap(), None);
    }
    let done = events.on_response(&Response::Completed { operation_id: "op".to_owned() });
    assert_eq!(done.unwrap(), Some(MatchVerdict { matched: false }));

    let mut events = VerificationEvents::new();
    assert_eq!(
        events
            .on_response(&Response::Completed { operation_id: "op".to_owned() })
            .err().unwrap()
            .message(),
        "the driver worker completed verification without a verdict"
    );
}
