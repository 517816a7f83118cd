use fingerprint_kit::protocol::{
    admit_request, emit_line, malformed_reply, Admission,
    devices_reply, dispatch, encode_template_data, enrollment_replies, failure_reply,
    protocol_error, verification_replies, DeviceCapability, DeviceInfo, Dispatch, EnrollStep,
    EnrollmentEvents, Request, Response, SessionValidator, VerificationEvents, WorkerError,
    PROTOCOL_VERSION,
};
use fingerprint_kit::Error;

fn hello() -> Request {
    Request::Hello { request_id: "hello-1".to_owned(), protocol_version: PROTOCOL_VERSION }
}

#[test]
fn hello_is_acknowledged_only_at_this_protocol_version() {
    match dispatch(&hello()) {
        Ok(Dispatch::Reply(replies)) => {
            assert!(replies == vec![Response::HelloAck { request_id: "hello-1".to_owned(), protocol_version: 0 }])
        }
        _ => panic!("hello was not acknowledged"),
    }
    let newer = Request::Hello { request_id: "hello-1".to_owned(), protocol_version: 1 };
    let error = dispatch(&newer).err().unwrap();
    assert_eq!((error.code.as_str(), error.message.as_str()), ("version", "this worker speaks protocol 0"));
}

#[test]
fn captures_and_cancellations_are_unsupported_here() {
    let capture = Request::StartCapture {
        request_id: "r".to_owned(),
        operation_id: "o".to_owned(),
        device_id: "d".to_owned(),
    };
    let error = dispatch(&capture).err().unwrap();
    assert_eq!(error.code, "unsupported");
    assert_eq!(error.message, "this worker drives match-on-chip devices; it emits no frames");
    let cancel = Request::Cancel { request_id: "c".to_owned(), operation_id: "o".to_owned() };
    let error = dispatch(&cancel).err().unwrap();
    assert_eq!(error.message, "operations here are synchronous and cannot be cancelled mid-flight");
    let reply = failure_reply(&cancel, error);
    assert!(
        reply
            == Response::Error {
                request_id: Some("c".to_owned()),
                operation_id: Some("o".to_owned()),
                code: "unsupported".to_owned(),
                message: "operations here are synchronous and cannot be cancelled mid-flight".to_owned(),
            }
    );
    assert!(matches!(dispatch(&Request::Shutdown { request_id: "s".to_owned() }), Ok(Dispatch::Reply(r)) if r.is_empty()));
}

#[test]
fn operations_are_dispatched_with_their_identifiers() {
    let enroll = Request::StartEnroll {
        request_id: "enroll-2".to_owned(),
        operation_id: "operation-3".to_owned(),
        device_id: "sensor".to_owned(),
    };
    match dispatch(&enroll) {
        Ok(Dispatch::Enroll { request_id, operation_id, device_id }) => {
            assert_eq!((request_id.as_str(), operation_id.as_str(), device_id.as_str()), ("enroll-2", "operation-3", "sensor"));
        }
        _ => panic!("enrollment was not dispatched"),
    }
    let verify = Request::StartVerify {
        request_id: "verify-4".to_owned(),
        operation_id: "operation-5".to_owned(),
        device_id: "sensor".to_owned(),
        template_base64: encode_template_data(&[9; 5]).unwrap(),
    };
    match dispatch(&verify) {
        Ok(Dispatch::Verify { template, .. }) => assert_eq!(template, vec![9; 5]),
        _ => panic!("verification was not dispatched"),
    }
    let broken = Request::StartVerify {
        request_id: "verify-4".to_owned(),
        operation_id: "operation-5".to_owned(),
        device_id: "sensor".to_owned(),
        template_base64: "***".to_owned(),
    };
    let error = dispatch(&broken).err().unwrap();
    assert_eq!(error.code, "template");
    assert_eq!(error.message, "protocol template contains invalid base64");
    assert!(matches!(dispatch(&Request::Enumerate { request_id: "e".to_owned() }), Ok(Dispatch::Enumerate { request_id }) if request_id == "e"));
}

#[test]
fn enrollment_replies_drop_retries_and_end_with_the_template() {
    let replies = enrollment_replies("enroll-2", "operation-3", 3, &[(1, 3, false), (1, 3, true), (2, 2, false)], &[7; 241]).unwrap();
    assert_eq!(replies.len(), 5);
    assert!(replies[0] == Response::Started { request_id: "enroll-2".to_owned(), operation_id: "operation-3".to_owned() });
    assert!(replies[1] == Response::EnrollProgress { operation_id: "operation-3".to_owned(), completed_stages: 1, total_stages: 3 });
    assert!(replies[2] == Response::EnrollProgress { operation_id: "operation-3".to_owned(), completed_stages: 2, total_stages: 3 });
    assert!(replies[3] == Response::Enrolled { operation_id: "operation-3".to_owned(), template_base64: encode_template_data(&[7; 241]).unwrap() });
    assert!(replies[4] == Response::Completed { operation_id: "operation-3".to_owned() });
    let error = enrollment_replies("r", "o", 3, &[], &[]).err().unwrap();
    assert_eq!((error.code.as_str(), error.message.as_str()), ("serialize", "protocol template is empty"));
}

#[test]
fn a_workers_replies_satisfy_the_hosts_validator_and_client() {
    let mut host = SessionValidator::new();
    host.accept_request(&hello()).unwrap();
    let Ok(Dispatch::Reply(replies)) = dispatch(&hello()) else { panic!("no acknowledgement") };
    for reply in &replies {
        host.accept_response(reply).unwrap();
    }
    let devices = vec![DeviceInfo {
        device_id: "sensor".to_owned(),
        capture_profile_id: "upekts".to_owned(),
        capability: DeviceCapability::MatchOnChip,
        enroll_stages: 3,
    }];
    host.accept_request(&Request::Enumerate { request_id: "enumerate-2".to_owned() }).unwrap();
    host.accept_response(&devices_reply("enumerate-2", devices)).unwrap();

    let start = Request::StartEnroll {
        request_id: "enroll-3".to_owned(),
        operation_id: "operation-4".to_owned(),
        device_id: "sensor".to_owned(),
    };
    host.accept_request(&start).unwrap();
    let replies = enrollment_replies("enroll-3", "operation-4", 3, &[(1, 3, false), (2, 3, false)], &[5; 64]).unwrap();
    let mut events = EnrollmentEvents::new();
    let mut finished = None;
    for reply in replies {
        host.accept_response(&reply).unwrap();
        if let EnrollStep::Finished(blob) = events.on_response(reply).unwrap() {
            finished = Some(blob);
        }
    }
    assert_eq!(finished, Some(vec![5; 64]));

    let verify = Request::StartVerify {
        request_id: "verify-5".to_owned(),
        operation_id: "operation-6".to_owned(),
        device_id: "sensor".to_owned(),
        template_base64: encode_template_data(&[5; 64]).unwrap(),
    };
    host.accept_request(&verify).unwrap();
    let mut events = VerificationEvents::new();
    let mut verdict = None;
    for reply in verification_replies("verify-5", "operation-6", true) {
        host.accept_response(&reply).unwrap();
        verdict = events.on_response(&reply).unwrap();
    }
    assert!(verdict.unwrap().matched);
}

#[test]
fn protocol_errors_carry_what_they_are_given() {
    let error = protocol_error(None, None, "malformed", "JSON syntax error at line 1 column 2".to_owned());
    assert!(
        error
            == Response::Error {
                request_id: None,
                operation_id: None,
                code: "malformed".to_owned(),
                message: "JSON syntax error at line 1 column 2".to_owned(),
            }
    );
    let worker = WorkerError::new("open", "no such device");
    assert_eq!(worker.code, "open");
    let reply = failure_reply(&hello(), worker);
    assert!(
        reply
            == Response::Error {
                request_id: Some("hello-1".to_owned()),
                operation_id: None,
                code: "open".to_owned(),
                message: "no such device".to_owned(),
            }
    );
}

#[test]
fn a_worker_admits_requests_and_checks_its_own_replies() {
    let mut worker = SessionValidator::new();
    let early = Request::Enumerate { request_id: "enumerate-1".to_owned() };
    match admit_request(&mut worker, &early) {
        Admission::Refused(reply) => assert!(
            reply
                == Response::Error {
                    request_id: Some("enumerate-1".to_owned()),
                    operation_id: None,
                    code: "out_of_order".to_owned(),
                    message: "hello is required before any command".to_owned(),
                }
        ),
        _ => panic!("a command before hello was admitted"),
    }
    assert!(matches!(admit_request(&mut worker, &hello()), Admission::Serve));

    let stray = Response::Completed { operation_id: "op".to_owned() };
    let error = emit_line(&mut worker, &stray).err().unwrap();
    assert_eq!(error.code, "self_check");
    let ack = Response::HelloAck { request_id: "hello-1".to_owned(), protocol_version: 0 };
    assert_eq!(
        emit_line(&mut worker, &ack).unwrap(),
        b"{\"type\":\"hello_ack\",\"request_id\":\"hello-1\",\"protocol_version\":0}\n".to_vec()
    );
    let shutdown = Request::Shutdown { request_id: "shutdown-2".to_owned() };
    assert!(matches!(admit_request(&mut worker, &shutdown), Admission::Stop));

    let reply = malformed_reply(&Error::invalid("codec requires exactly one JSON line"));
    assert!(
        reply
            == Response::Error {
                request_id: None,
                operation_id: None,
                code: "malformed".to_owned(),
                message: "codec requires exactly one JSON line".to_owned(),
            }
    );
}
