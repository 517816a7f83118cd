use fingerprint_kit::protocol::message::OperationKind;
use fingerprint_kit::protocol::{
    decode_frame_data, decode_template_data, encode_frame_data, encode_line, encode_request,
    encode_response, validate_identifier, validate_request, validate_response,
    MAX_DECODED_FRAME_BYTES, MAX_LINE_BYTES,
    encode_template_data, json_line_body, DeviceCapability, DeviceInfo, Request, Response,
    SessionValidator, MAX_DECODED_TEMPLATE_BYTES, PROTOCOL_VERSION,
};

fn hello() -> Request {
    Request::Hello {
        request_id: "hello-1".to_owned(),
        protocol_version: PROTOCOL_VERSION,
    }
}

fn hello_ack() -> Response {
    Response::HelloAck {
        request_id: "hello-1".to_owned(),
        protocol_version: PROTOCOL_VERSION,
    }
}

fn start() -> Request {
    Request::StartCapture {
        request_id: "request-2".to_owned(),
        operation_id: "operation-7".to_owned(),
        device_id: "device-1".to_owned(),
    }
}

/// A validator that has negotiated hello and is ready for a command.
fn ready() -> SessionValidator {
    let mut validator = SessionValidator::new();
    validator.accept_request(&hello()).unwrap();
    validator.accept_response(&hello_ack()).unwrap();
    validator
}

fn started(request_id: &str, operation_id: &str) -> Response {
    Response::Started {
        request_id: request_id.to_owned(),
        operation_id: operation_id.to_owned(),
    }
}

#[test]
fn an_enrollment_completes_without_reporting_its_final_stage() {
    // The behaviour a real sensor taught us. upekts finishes a 3-stage enrollment having
    // reported two, because the poll after the last presentation says "complete" rather than
    // "one more". A validator that demanded 3 of 3 would reject an honest driver.
    let mut validator = ready();
    validator
        .accept_request(&Request::StartEnroll {
            request_id: "request-2".to_owned(),
            operation_id: "operation-7".to_owned(),
            device_id: "device-1".to_owned(),
        })
        .unwrap();
    validator
        .accept_response(&started("request-2", "operation-7"))
        .unwrap();
    for completed in 1..=2 {
        validator
            .accept_response(&Response::EnrollProgress {
                operation_id: "operation-7".to_owned(),
                completed_stages: completed,
                total_stages: 3,
            })
            .unwrap();
    }
    validator
        .accept_response(&Response::Enrolled {
            operation_id: "operation-7".to_owned(),
            template_base64: encode_template_data(&[7; 241]).unwrap(),
        })
        .unwrap();
    validator
        .accept_response(&Response::Completed {
            operation_id: "operation-7".to_owned(),
        })
        .unwrap();
}

#[test]
fn an_enrollment_cannot_complete_before_the_template_arrives() {
    let mut validator = ready();
    validator
        .accept_request(&Request::StartEnroll {
            request_id: "request-2".to_owned(),
            operation_id: "operation-7".to_owned(),
            device_id: "device-1".to_owned(),
        })
        .unwrap();
    validator
        .accept_response(&started("request-2", "operation-7"))
        .unwrap();
    // Completion with no template would leave the host with nothing to store.
    assert!(
        validator
            .accept_response(&Response::Completed {
                operation_id: "operation-7".to_owned(),
            })
            .is_err()
    );
}

#[test]
fn enrollment_progress_must_advance_and_stop_at_the_template() {
    let mut validator = ready();
    validator
        .accept_request(&Request::StartEnroll {
            request_id: "request-2".to_owned(),
            operation_id: "operation-7".to_owned(),
            device_id: "device-1".to_owned(),
        })
        .unwrap();
    validator
        .accept_response(&started("request-2", "operation-7"))
        .unwrap();
    let progress = |completed| Response::EnrollProgress {
        operation_id: "operation-7".to_owned(),
        completed_stages: completed,
        total_stages: 3,
    };
    validator.accept_response(&progress(2)).unwrap();
    assert!(validator.accept_response(&progress(2)).is_err());
    assert!(validator.accept_response(&progress(1)).is_err());
    // Out of range against the declared total.
    assert!(validator.accept_response(&progress(4)).is_err());

    validator
        .accept_response(&Response::Enrolled {
            operation_id: "operation-7".to_owned(),
            template_base64: encode_template_data(&[7; 8]).unwrap(),
        })
        .unwrap();
    assert!(validator.accept_response(&progress(3)).is_err());
}

#[test]
fn a_verification_runs_to_a_verdict_and_a_capture_cannot_produce_one() {
    let mut validator = ready();
    validator
        .accept_request(&Request::StartVerify {
            request_id: "request-2".to_owned(),
            operation_id: "operation-7".to_owned(),
            device_id: "device-1".to_owned(),
            template_base64: encode_template_data(&[7; 241]).unwrap(),
        })
        .unwrap();
    validator
        .accept_response(&started("request-2", "operation-7"))
        .unwrap();
    validator
        .accept_response(&Response::FingerPresent {
            operation_id: "operation-7".to_owned(),
        })
        .unwrap();
    validator
        .accept_response(&Response::MatchResult {
            operation_id: "operation-7".to_owned(),
            matched: true,
        })
        .unwrap();
    validator
        .accept_response(&Response::Completed {
            operation_id: "operation-7".to_owned(),
        })
        .unwrap();

    // The operation that was opened decides the events that may follow: a capture cannot
    // answer with a verdict, and an enrollment cannot answer with a frame.
    let mut validator = ready();
    validator.accept_request(&start()).unwrap();
    validator
        .accept_response(&started("request-2", "operation-7"))
        .unwrap();
    assert!(
        validator
            .accept_response(&Response::MatchResult {
                operation_id: "operation-7".to_owned(),
                matched: true,
            })
            .is_err()
    );
}

#[test]
fn template_payloads_are_bounded_and_never_empty() {
    assert!(encode_template_data(&[]).is_err());
    assert!(encode_template_data(&vec![0; MAX_DECODED_TEMPLATE_BYTES + 1]).is_err());
    assert!(decode_template_data("").is_err());
    assert!(decode_template_data("***").is_err());

    let boundary = vec![9_u8; MAX_DECODED_TEMPLATE_BYTES];
    let encoded = encode_template_data(&boundary).unwrap();
    assert_eq!(decode_template_data(&encoded).unwrap(), boundary);

    // A start-verify carrying an unusable template is refused at the codec, before any
    // device is asked to compare against it.
    assert!(
        encode_request(&Request::StartVerify {
            request_id: "r".to_owned(),
            operation_id: "o".to_owned(),
            device_id: "d".to_owned(),
            template_base64: String::new(),
        })
        .is_err()
    );
}

#[test]
fn validator_rejects_pre_hello_double_operation_and_cancel_order() {
    let mut validator = SessionValidator::new();
    assert!(validator.accept_request(&start()).is_err());
    assert!(validator.accept_request(&hello()).is_ok());
    assert!(validator.accept_response(&hello_ack()).is_ok());
    assert!(
        validator
            .accept_request(&Request::Cancel {
                request_id: "cancel-early".to_owned(),
                operation_id: "operation-7".to_owned(),
            })
            .is_err()
    );

    assert!(validator.accept_request(&start()).is_ok());
    assert!(validator.accept_request(&start()).is_err());
    assert!(
        validator
            .accept_response(&Response::Started {
                request_id: "request-2".to_owned(),
                operation_id: "operation-7".to_owned(),
            })
            .is_ok()
    );
    assert!(
        validator
            .accept_request(&Request::StartCapture {
                request_id: "request-3".to_owned(),
                operation_id: "operation-8".to_owned(),
                device_id: "device-1".to_owned(),
            })
            .is_err()
    );
    assert!(
        validator
            .accept_response(&Response::Frame {
                operation_id: "operation-7".to_owned(),
                sequence: 0,
                width: 1,
                height: 1,
                x_resolution_ppi: 500,
                y_resolution_ppi: 500,
                data_base64: encode_frame_data(&[0]).unwrap(),
            })
            .is_err()
    );

    assert!(
        validator
            .accept_request(&Request::Cancel {
                request_id: "cancel-1".to_owned(),
                operation_id: "operation-7".to_owned(),
            })
            .is_ok()
    );
    assert!(
        validator
            .accept_response(&Response::Completed {
                operation_id: "operation-7".to_owned(),
            })
            .is_err()
    );
    assert!(
        validator
            .accept_response(&Response::Cancelled {
                request_id: "cancel-1".to_owned(),
                operation_id: "operation-7".to_owned(),
            })
            .is_ok()
    );
}

#[test]
fn validator_accepts_complete_capture_sequence() {
    let mut validator = SessionValidator::new();
    validator.accept_request(&hello()).unwrap();
    validator.accept_response(&hello_ack()).unwrap();
    validator.accept_request(&start()).unwrap();
    validator
        .accept_response(&Response::Started {
            request_id: "request-2".to_owned(),
            operation_id: "operation-7".to_owned(),
        })
        .unwrap();
    validator
        .accept_response(&Response::FingerPresent {
            operation_id: "operation-7".to_owned(),
        })
        .unwrap();
    validator
        .accept_response(&Response::Frame {
            operation_id: "operation-7".to_owned(),
            sequence: 0,
            width: 2,
            height: 1,
            x_resolution_ppi: 500,
            y_resolution_ppi: 500,
            data_base64: encode_frame_data(&[1, 2]).unwrap(),
        })
        .unwrap();
    validator
        .accept_response(&Response::FingerRemoved {
            operation_id: "operation-7".to_owned(),
        })
        .unwrap();
    validator
        .accept_response(&Response::Completed {
            operation_id: "operation-7".to_owned(),
        })
        .unwrap();
}

#[test]
fn validator_rejects_non_monotonic_frames() {
    let mut validator = SessionValidator::new();
    validator.accept_request(&hello()).unwrap();
    validator.accept_response(&hello_ack()).unwrap();
    validator.accept_request(&start()).unwrap();
    validator
        .accept_response(&Response::Started {
            request_id: "request-2".to_owned(),
            operation_id: "operation-7".to_owned(),
        })
        .unwrap();
    validator
        .accept_response(&Response::FingerPresent {
            operation_id: "operation-7".to_owned(),
        })
        .unwrap();

    let frame = |sequence| Response::Frame {
        operation_id: "operation-7".to_owned(),
        sequence,
        width: 1,
        height: 1,
        x_resolution_ppi: 500,
        y_resolution_ppi: 500,
        data_base64: encode_frame_data(&[0]).unwrap(),
    };
    validator.accept_response(&frame(5)).unwrap();
    assert!(validator.accept_response(&frame(5)).is_err());
    assert!(validator.accept_response(&frame(4)).is_err());
    assert!(validator.accept_response(&frame(6)).is_ok());
}

#[test]
fn validator_correlates_error_responses_without_bypassing_hello() {
    let mut validator = SessionValidator::new();
    validator.accept_request(&hello()).unwrap();
    let unrelated = Response::Error {
        request_id: Some("other-request".to_owned()),
        operation_id: None,
        code: "failure".to_owned(),
        message: "redacted diagnostic".to_owned(),
    };
    assert!(validator.accept_response(&unrelated).is_err());
    assert!(validator.accept_request(&start()).is_err());
    validator.accept_response(&hello_ack()).unwrap();

    validator.accept_request(&start()).unwrap();
    validator
        .accept_response(&Response::Started {
            request_id: "request-2".to_owned(),
            operation_id: "operation-7".to_owned(),
        })
        .unwrap();
    let wrong_operation = Response::Error {
        request_id: None,
        operation_id: Some("operation-8".to_owned()),
        code: "failure".to_owned(),
        message: "redacted diagnostic".to_owned(),
    };
    assert!(validator.accept_response(&wrong_operation).is_err());
    let correlated = Response::Error {
        request_id: None,
        operation_id: Some("operation-7".to_owned()),
        code: "failure".to_owned(),
        message: "redacted diagnostic".to_owned(),
    };
    assert!(validator.accept_response(&correlated).is_ok());

    let mut failed_hello = SessionValidator::new();
    failed_hello.accept_request(&hello()).unwrap();
    let hello_error = Response::Error {
        request_id: Some("hello-1".to_owned()),
        operation_id: None,
        code: "version_rejected".to_owned(),
        message: "redacted diagnostic".to_owned(),
    };
    failed_hello.accept_response(&hello_error).unwrap();
    assert!(failed_hello.accept_request(&start()).is_err());
}

#[test]
fn validator_enforces_distinct_and_unique_identifiers() {
    let equal_identifiers = Request::StartCapture {
        request_id: "same".to_owned(),
        operation_id: "same".to_owned(),
        device_id: "device".to_owned(),
    };
    assert!(encode_request(&equal_identifiers).is_err());

    let mut validator = SessionValidator::new();
    validator.accept_request(&hello()).unwrap();
    validator.accept_response(&hello_ack()).unwrap();
    validator
        .accept_request(&Request::Enumerate {
            request_id: "enumerate-1".to_owned(),
        })
        .unwrap();
    validator
        .accept_response(&Response::Devices {
            request_id: "enumerate-1".to_owned(),
            devices: Vec::new(),
        })
        .unwrap();
    assert!(
        validator
            .accept_request(&Request::Shutdown {
                request_id: "enumerate-1".to_owned(),
            })
            .is_err()
    );
    assert!(
        validator
            .accept_request(&Request::Shutdown {
                request_id: "shutdown-1".to_owned(),
            })
            .is_ok()
    );
}

#[test]
fn protocol_debug_redacts_identifiers_and_frame_payload() {
    let response = Response::Frame {
        operation_id: "SENTINEL_OPERATION".to_owned(),
        sequence: 0,
        width: 1,
        height: 1,
        x_resolution_ppi: 500,
        y_resolution_ppi: 500,
        data_base64: encode_frame_data(b"S").unwrap(),
    };
    let rendered = response.debug_text();
    assert_eq!(rendered, "Response(\"frame\")");
    assert!(!rendered.contains("SENTINEL"));
}

#[test]
fn golden_json_lines_are_stable() {
    let requests = vec![
        (
            Request::Hello { request_id: "r1".to_owned(), protocol_version: 0 },
            "{\"type\":\"hello\",\"request_id\":\"r1\",\"protocol_version\":0}\n",
        ),
        (
            Request::Enumerate { request_id: "r2".to_owned() },
            "{\"type\":\"enumerate\",\"request_id\":\"r2\"}\n",
        ),
        (
            Request::StartCapture {
                request_id: "r3".to_owned(),
                operation_id: "op3".to_owned(),
                device_id: "d1".to_owned(),
            },
            "{\"type\":\"start_capture\",\"request_id\":\"r3\",\"operation_id\":\"op3\",\"device_id\":\"d1\"}\n",
        ),
        (
            Request::Cancel { request_id: "r4".to_owned(), operation_id: "op3".to_owned() },
            "{\"type\":\"cancel\",\"request_id\":\"r4\",\"operation_id\":\"op3\"}\n",
        ),
        (
            Request::Shutdown { request_id: "r5".to_owned() },
            "{\"type\":\"shutdown\",\"request_id\":\"r5\"}\n",
        ),
    ];
    for (message, golden) in requests {
        let line = encode_request(&message).unwrap();
        assert_eq!(line, golden.as_bytes());
        assert_eq!(json_line_body(&line).unwrap(), golden.trim_end().as_bytes());
    }

    let responses = vec![
        (
            Response::HelloAck { request_id: "r1".to_owned(), protocol_version: 0 },
            "{\"type\":\"hello_ack\",\"request_id\":\"r1\",\"protocol_version\":0}\n",
        ),
        (
            Response::Devices {
                request_id: "r2".to_owned(),
                devices: vec![DeviceInfo {
                    device_id: "d1".to_owned(),
                    capture_profile_id: "profile1".to_owned(),
                    capability: DeviceCapability::HostImage,
                    enroll_stages: 0,
                }],
            },
            "{\"type\":\"devices\",\"request_id\":\"r2\",\"devices\":[{\"device_id\":\"d1\",\"capture_profile_id\":\"profile1\",\"capability\":\"host_image\",\"enroll_stages\":0}]}\n",
        ),
        (
            Response::Started { request_id: "r3".to_owned(), operation_id: "op3".to_owned() },
            "{\"type\":\"started\",\"request_id\":\"r3\",\"operation_id\":\"op3\"}\n",
        ),
        (
            Response::FingerPresent { operation_id: "op3".to_owned() },
            "{\"type\":\"finger_present\",\"operation_id\":\"op3\"}\n",
        ),
        (
            Response::Frame {
                operation_id: "op3".to_owned(),
                sequence: 2,
                width: 2,
                height: 1,
                x_resolution_ppi: 500,
                y_resolution_ppi: 500,
                data_base64: encode_frame_data(&[0, 255]).unwrap(),
            },
            "{\"type\":\"frame\",\"operation_id\":\"op3\",\"sequence\":2,\"width\":2,\"height\":1,\"x_resolution_ppi\":500,\"y_resolution_ppi\":500,\"data_base64\":\"AP8=\"}\n",
        ),
        (
            Response::FingerRemoved { operation_id: "op3".to_owned() },
            "{\"type\":\"finger_removed\",\"operation_id\":\"op3\"}\n",
        ),
        (
            Response::Completed { operation_id: "op3".to_owned() },
            "{\"type\":\"completed\",\"operation_id\":\"op3\"}\n",
        ),
        (
            Response::Cancelled { request_id: "r4".to_owned(), operation_id: "op3".to_owned() },
            "{\"type\":\"cancelled\",\"request_id\":\"r4\",\"operation_id\":\"op3\"}\n",
        ),
        (
            Response::Error {
                request_id: Some("r4".to_owned()),
                operation_id: Some("op3".to_owned()),
                code: "capture_failed".to_owned(),
                message: "capture failed".to_owned(),
            },
            "{\"type\":\"error\",\"request_id\":\"r4\",\"operation_id\":\"op3\",\"code\":\"capture_failed\",\"message\":\"capture failed\"}\n",
        ),
    ];
    for (message, golden) in responses {
        let line = encode_response(&message).unwrap();
        assert_eq!(line, golden.as_bytes());
        assert_eq!(json_line_body(&line).unwrap(), golden.trim_end().as_bytes());
    }
}

#[test]
fn codec_rejects_base64_sizes_geometry_and_versions() {
    let too_large = vec![0_u8; MAX_DECODED_FRAME_BYTES + 1];
    assert!(encode_frame_data(&too_large).is_err());

    let boundary = vec![0_u8; MAX_DECODED_FRAME_BYTES];
    let boundary_response = Response::Frame {
        operation_id: "op".to_owned(),
        sequence: 0,
        width: 1024,
        height: 1024,
        x_resolution_ppi: 500,
        y_resolution_ppi: 500,
        data_base64: encode_frame_data(&boundary).unwrap(),
    };
    let boundary_line = encode_response(&boundary_response).unwrap();
    assert_eq!(boundary_line.last(), Some(&b'\n'));

    let wrong_length = Response::Frame {
        operation_id: "op".to_owned(),
        sequence: 0,
        width: 2,
        height: 2,
        x_resolution_ppi: 500,
        y_resolution_ppi: 500,
        data_base64: encode_frame_data(&[0]).unwrap(),
    };
    assert!(encode_response(&wrong_length).is_err());

    let mut validator = SessionValidator::new();
    let wrong_version = Request::Hello { request_id: "hello".to_owned(), protocol_version: 1 };
    assert!(validator.accept_request(&wrong_version).is_err());

    validator.accept_request(&hello()).unwrap();
    let wrong_ack = Response::HelloAck { request_id: "hello-1".to_owned(), protocol_version: 1 };
    assert!(validator.accept_response(&wrong_ack).is_err());
    assert!(validator.accept_response(&hello_ack()).is_ok());
}

#[test]
fn codec_rejects_oversized_or_multiple_lines() {
    assert!(json_line_body(b"{}\n{}\n").is_err());
    let oversized = vec![b' '; MAX_LINE_BYTES + 2];
    assert!(json_line_body(&oversized).is_err());

    let exact_json = format!("\"{}\"", "a".repeat(MAX_LINE_BYTES - 2));
    let body = json_line_body(exact_json.as_bytes()).unwrap();
    let encoded = encode_line(body).unwrap();
    assert_eq!(encoded.len(), MAX_LINE_BYTES + 1);
    assert_eq!(encoded.last(), Some(&b'\n'));
    assert!(encode_line(vec![b' '; MAX_LINE_BYTES + 1]).is_err());
}

#[test]
fn received_lines_lose_one_newline_and_one_carriage_return() {
    assert_eq!(json_line_body(b"{\"a\":1}\r\n").unwrap(), b"{\"a\":1}".to_vec());
    assert_eq!(json_line_body(b"{\"a\":1}").unwrap(), b"{\"a\":1}".to_vec());
    assert_eq!(
        json_line_body(b"{}\r\r\n").err().unwrap().message(),
        "codec requires exactly one JSON line"
    );
}

#[test]
fn encoded_strings_escape_as_json_requires_and_parse_back() {
    let request = Request::StartVerify {
        request_id: "r\"1".to_owned(),
        operation_id: "op\\7".to_owned(),
        device_id: "dé\u{1}".to_owned(),
        template_base64: encode_template_data(&[7; 241]).unwrap(),
    };
    let line = encode_request(&request).unwrap();
    let text = String::from_utf8(line.clone()).unwrap();
    assert!(text.contains("\"request_id\":\"r\\\"1\""));
    assert!(text.contains("\"operation_id\":\"op\\\\7\""));
    assert!(text.contains("\"device_id\":\"dé\\u0001\""));
    let value: serde_json::Value = serde_json::from_slice(&json_line_body(&line).unwrap()).unwrap();
    assert_eq!(value["type"], "start_verify");
    assert_eq!(value["request_id"], "r\"1");
    assert_eq!(value["operation_id"], "op\\7");
    assert_eq!(value["device_id"], "dé\u{1}");
}

#[test]
fn template_data_round_trips_and_reports_each_refusal() {
    let encoded = encode_template_data(&[1, 2, 3, 4]).unwrap();
    assert_eq!(encoded, "AQIDBA==");
    assert_eq!(decode_template_data(&encoded).unwrap(), vec![1, 2, 3, 4]);
    assert_eq!(encode_template_data(&[]).err().unwrap().message(), "protocol template is empty");
    assert_eq!(
        decode_template_data("***").err().unwrap().message(),
        "protocol template contains invalid base64"
    );
    assert_eq!(decode_frame_data("AP8=").unwrap(), vec![0, 255]);
    assert_eq!(decode_frame_data("").unwrap(), Vec::<u8>::new());
}

#[test]
fn request_and_response_accessors_report_identifiers_and_kinds() {
    let request = start();
    assert_eq!(request.request_id(), "request-2");
    assert_eq!(request.started_operation_id().map(|s| s.as_str()), Some("operation-7"));
    assert_eq!(request.starts(), Some(OperationKind::Capture));
    assert_eq!(request.kind(), "start_capture");
    assert_eq!(hello().started_operation_id(), None);
    assert_eq!(hello().debug_text(), "Request(\"hello\")");
    assert_eq!(hello_ack().kind(), "hello_ack");
}

#[test]
fn identifiers_and_messages_are_validated_before_encoding() {
    assert!(validate_identifier("request-1", "request").is_ok());
    assert!(validate_identifier("", "request").is_err());
    assert!(validate_identifier(&"x".repeat(129), "request").is_err());
    assert!(validate_request(&hello()).is_ok());
    assert!(validate_response(&hello_ack()).is_ok());
    let bad = Response::EnrollProgress {
        operation_id: "operation-7".to_owned(),
        completed_stages: 4,
        total_stages: 3,
    };
    assert!(validate_response(&bad).is_err());
}

#[test]
fn only_canonically_padded_base64_decodes() {
    assert_eq!(decode_frame_data("QQ==").unwrap(), vec![0x41]);
    assert_eq!(decode_frame_data("QUI=").unwrap(), vec![0x41, 0x42]);
    assert_eq!(
        decode_frame_data("QQ").err().unwrap().message(),
        "protocol frame contains invalid base64"
    );
    assert_eq!(
        decode_template_data("QUI").err().unwrap().message(),
        "protocol template contains invalid base64"
    );
}
