//! Field-level validation of protocol messages, independent of session state.

use vstd::prelude::*;

use super::data::{
    decode_frame_data, decode_template_data, frame_data_decoding, template_data_decoding,
};
use super::message::{DeviceInfo, Request, Response};
use crate::error::{err_text, first_problem, problem_of, utf8_len, Error};

verus! {

/// Most devices one enumeration may list.
pub const MAX_LISTED_DEVICES: usize = 256;

/// Longest diagnostic message, in bytes, that an error response may carry.
pub const MAX_ERROR_MESSAGE_BYTES: usize = 4096;

/// Longest identifier, in bytes.
pub const MAX_IDENTIFIER_BYTES: usize = 128;

/// An identifier is refused when it is empty or longer than 128 bytes; the reason names it by
/// `label`.
pub open spec fn identifier_problem(value: Seq<char>, label: Seq<char>) -> Option<Seq<char>> {
    if utf8_len(value) == 0 || utf8_len(value) > MAX_IDENTIFIER_BYTES {
        Some(label + " is empty or too long"@)
    } else {
        None
    }
}

/// Check one identifier.
pub fn validate_identifier(value: &str, label: &str) -> (res: Result<(), Error>)
    ensures
        err_text(res) == identifier_problem(value@, label@),
{
    if value.len() == 0 || value.len() > MAX_IDENTIFIER_BYTES {
        return Err(Error::labelled(label, " is empty or too long"));
    }
    Ok(())
}

/// The reason a request is malformed, or `None` when its fields are valid.
pub open spec fn request_problem(request: Request) -> Option<Seq<char>> {
    match request {
        Request::Hello { request_id, .. } => identifier_problem(request_id@, "request ID"@),
        Request::Enumerate { request_id } => identifier_problem(request_id@, "request ID"@),
        Request::Shutdown { request_id } => identifier_problem(request_id@, "request ID"@),
        Request::StartCapture { request_id, operation_id, device_id } => operation_start_problem(
            request_id@,
            operation_id@,
            device_id@,
        ),
        Request::StartEnroll { request_id, operation_id, device_id } => operation_start_problem(
            request_id@,
            operation_id@,
            device_id@,
        ),
        Request::StartVerify { request_id, operation_id, device_id, template_base64 } =>
            first_problem(
            operation_start_problem(request_id@, operation_id@, device_id@),
            problem_of(template_data_decoding(template_base64@)),
        ),
        Request::Cancel { request_id, operation_id } => distinct_pair_problem(
            request_id@,
            operation_id@,
        ),
    }
}

/// A request and operation identifier pair must both be valid and must differ.
pub open spec fn distinct_pair_problem(request_id: Seq<char>, operation_id: Seq<char>) -> Option<
    Seq<char>,
> {
    first_problem(
        identifier_problem(request_id, "request ID"@),
        first_problem(
            identifier_problem(operation_id, "operation ID"@),
            if request_id == operation_id {
                Some("request ID and operation ID must be distinct"@)
            } else {
                None
            },
        ),
    )
}

/// The identifiers of a request that starts an operation.
pub open spec fn operation_start_problem(
    request_id: Seq<char>,
    operation_id: Seq<char>,
    device_id: Seq<char>,
) -> Option<Seq<char>> {
    first_problem(
        distinct_pair_problem(request_id, operation_id),
        identifier_problem(device_id, "device ID"@),
    )
}

fn validate_distinct_pair(request_id: &String, operation_id: &String) -> (res: Result<(), Error>)
    ensures
        err_text(res) == distinct_pair_problem(request_id@, operation_id@),
{
    validate_identifier(request_id.as_str(), "request ID")?;
    validate_identifier(operation_id.as_str(), "operation ID")?;
    if *request_id == *operation_id {
        return Err(Error::invalid("request ID and operation ID must be distinct"));
    }
    Ok(())
}

fn validate_operation_start(request_id: &String, operation_id: &String, device_id: &String) -> (res:
    Result<(), Error>)
    ensures
        err_text(res) == operation_start_problem(request_id@, operation_id@, device_id@),
{
    validate_distinct_pair(request_id, operation_id)?;
    validate_identifier(device_id.as_str(), "device ID")
}

/// Check every field of a request.
pub fn validate_request(request: &Request) -> (res: Result<(), Error>)
    ensures
        err_text(res) == request_problem(*request),
{
    match request {
        Request::Hello { request_id, .. } => validate_identifier(request_id.as_str(), "request ID"),
        Request::Enumerate { request_id } => validate_identifier(request_id.as_str(), "request ID"),
        Request::Shutdown { request_id } => validate_identifier(request_id.as_str(), "request ID"),
        Request::StartCapture { request_id, operation_id, device_id } => validate_operation_start(
            request_id,
            operation_id,
            device_id,
        ),
        Request::StartEnroll { request_id, operation_id, device_id } => validate_operation_start(
            request_id,
            operation_id,
            device_id,
        ),
        Request::StartVerify { request_id, operation_id, device_id, template_base64 } => {
            validate_operation_start(request_id, operation_id, device_id)?;
            match decode_template_data(template_base64.as_str()) {
                Ok(_) => Ok(()),
                Err(e) => Err(e),
            }
        },
        Request::Cancel { request_id, operation_id } => validate_distinct_pair(
            request_id,
            operation_id,
        ),
    }
}

/// An optional identifier is checked only where present.
pub open spec fn optional_identifier_problem(value: Option<String>, label: Seq<char>) -> Option<
    Seq<char>,
> {
    match value {
        Some(v) => identifier_problem(v@, label),
        None => None,
    }
}

/// The stage counts of an enrollment progress event.
pub open spec fn stage_problem(completed_stages: u32, total_stages: u32) -> Option<Seq<char>> {
    if total_stages == 0 {
        Some("enrollment declares no stages"@)
    } else if completed_stages == 0 || completed_stages > total_stages {
        Some("enrollment stage count is out of range"@)
    } else {
        None
    }
}

/// The geometry and payload of a frame: non-zero sizes, a decodable payload, and exactly
/// `width * height` decoded bytes.
pub open spec fn frame_problem(
    width: u32,
    height: u32,
    x_resolution_ppi: u16,
    y_resolution_ppi: u16,
    data_base64: Seq<char>,
) -> Option<Seq<char>> {
    if width == 0 || height == 0 || x_resolution_ppi == 0 || y_resolution_ppi == 0 {
        Some("protocol frame geometry is invalid"@)
    } else {
        match frame_data_decoding(data_base64) {
            Err(m) => Some(m),
            Ok(d) => if d.len() != width * height {
                Some("decoded protocol frame length does not match geometry"@)
            } else {
                None
            },
        }
    }
}

/// The identifiers of one listed device.
pub open spec fn device_problem(device: DeviceInfo) -> Option<Seq<char>> {
    first_problem(
        identifier_problem(device.device_id@, "device ID"@),
        identifier_problem(device.capture_profile_id@, "capture profile ID"@),
    )
}

/// The first problem among the devices from index `i` on.
pub open spec fn devices_problem_from(devices: Seq<DeviceInfo>, i: int) -> Option<Seq<char>>
    decreases devices.len() - i,
{
    if i < 0 || i >= devices.len() {
        None
    } else {
        first_problem(device_problem(devices[i]), devices_problem_from(devices, i + 1))
    }
}

/// A device list may hold at most 256 devices, each with valid identifiers.
pub open spec fn device_list_problem(devices: Seq<DeviceInfo>) -> Option<Seq<char>> {
    if devices.len() > MAX_LISTED_DEVICES {
        Some("protocol device list is too large"@)
    } else {
        devices_problem_from(devices, 0)
    }
}

/// The reason a response is malformed, or `None` when its fields are valid.
#[verifier::opaque]
pub open spec fn response_problem(response: Response) -> Option<Seq<char>> {
    match response {
        Response::HelloAck { request_id, .. } => identifier_problem(request_id@, "request ID"@),
        Response::Devices { request_id, devices } => first_problem(
            identifier_problem(request_id@, "request ID"@),
            device_list_problem(devices@),
        ),
        Response::Started { request_id, operation_id } => first_problem(
            identifier_problem(request_id@, "request ID"@),
            identifier_problem(operation_id@, "operation ID"@),
        ),
        Response::Cancelled { request_id, operation_id } => first_problem(
            identifier_problem(request_id@, "request ID"@),
            identifier_problem(operation_id@, "operation ID"@),
        ),
        Response::FingerPresent { operation_id } => identifier_problem(
            operation_id@,
            "operation ID"@,
        ),
        Response::FingerRemoved { operation_id } => identifier_problem(
            operation_id@,
            "operation ID"@,
        ),
        Response::Completed { operation_id } => identifier_problem(operation_id@, "operation ID"@),
        Response::MatchResult { operation_id, .. } => identifier_problem(
            operation_id@,
            "operation ID"@,
        ),
        Response::EnrollProgress { operation_id, completed_stages, total_stages } =>
            first_problem(
            identifier_problem(operation_id@, "operation ID"@),
            stage_problem(completed_stages, total_stages),
        ),
        Response::Enrolled { operation_id, template_base64 } => first_problem(
            identifier_problem(operation_id@, "operation ID"@),
            problem_of(template_data_decoding(template_base64@)),
        ),
        Response::Frame {
            operation_id,
            width,
            height,
            x_resolution_ppi,
            y_resolution_ppi,
            data_base64,
            ..
        } => first_problem(
            identifier_problem(operation_id@, "operation ID"@),
            frame_problem(width, height, x_resolution_ppi, y_resolution_ppi, data_base64@),
        ),
        Response::Error { request_id, operation_id, code, message } => first_problem(
            optional_identifier_problem(request_id, "request ID"@),
            first_problem(
                optional_identifier_problem(operation_id, "operation ID"@),
                first_problem(
                    identifier_problem(code@, "error code"@),
                    if utf8_len(message@) > MAX_ERROR_MESSAGE_BYTES {
                        Some("protocol error message is too long"@)
                    } else {
                        None
                    },
                ),
            ),
        ),
    }
}

fn validate_optional_identifier(value: &Option<String>, label: &str) -> (res: Result<(), Error>)
    ensures
        err_text(res) == optional_identifier_problem(*value, label@),
{
    match value {
        Some(v) => validate_identifier(v.as_str(), label),
        None => Ok(()),
    }
}

fn validate_frame(
    width: u32,
    height: u32,
    x_resolution_ppi: u16,
    y_resolution_ppi: u16,
    data_base64: &String,
) -> (res: Result<(), Error>)
    ensures
        err_text(res) == frame_problem(
            width,
            height,
            x_resolution_ppi,
            y_resolution_ppi,
            data_base64@,
        ),
{
    if width == 0 || height == 0 || x_resolution_ppi == 0 || y_resolution_ppi == 0 {
        return Err(Error::invalid("protocol frame geometry is invalid"));
    }
    assert((width as u64) * (height as u64) <= u64::MAX) by (nonlinear_arith)
        requires
            width <= u32::MAX,
            height <= u32::MAX,
    ;
    let expected: u64 = (width as u64) * (height as u64);
    let decoded = decode_frame_data(data_base64.as_str())?;
    if decoded.len() as u64 != expected {
        return Err(Error::invalid("decoded protocol frame length does not match geometry"));
    }
    Ok(())
}

fn validate_device_list(devices: &Vec<DeviceInfo>) -> (res: Result<(), Error>)
    ensures
        err_text(res) == device_list_problem(devices@),
{
    if devices.len() > MAX_LISTED_DEVICES {
        return Err(Error::invalid("protocol device list is too large"));
    }
    let mut i: usize = 0;
    while i < devices.len()
        invariant
            0 <= i <= devices@.len(),
            devices@.len() <= MAX_LISTED_DEVICES,
            devices_problem_from(devices@, 0) == devices_problem_from(devices@, i as int),
        decreases devices@.len() - i,
    {
        let device = &devices[i];
        assert(devices_problem_from(devices@, i as int) == first_problem(
            device_problem(devices@[i as int]),
            devices_problem_from(devices@, i + 1),
        ));
        match validate_identifier(device.device_id.as_str(), "device ID") {
            Ok(()) => {},
            Err(e) => return Err(e),
        }
        match validate_identifier(device.capture_profile_id.as_str(), "capture profile ID") {
            Ok(()) => {},
            Err(e) => return Err(e),
        }
        i += 1;
    }
    Ok(())
}

/// Check every field of a response, including base64 payloads and frame geometry.
pub fn validate_response(response: &Response) -> (res: Result<(), Error>)
    ensures
        err_text(res) == response_problem(*response),
{
    reveal(response_problem);
    match response {
        Response::HelloAck { request_id, .. } => validate_identifier(
            request_id.as_str(),
            "request ID",
        ),
        Response::Devices { request_id, devices } => {
            validate_identifier(request_id.as_str(), "request ID")?;
            validate_device_list(devices)
        },
        Response::Started { request_id, operation_id } => {
            validate_identifier(request_id.as_str(), "request ID")?;
            validate_identifier(operation_id.as_str(), "operation ID")
        },
        Response::Cancelled { request_id, operation_id } => {
            validate_identifier(request_id.as_str(), "request ID")?;
            validate_identifier(operation_id.as_str(), "operation ID")
        },
        Response::FingerPresent { operation_id } => validate_identifier(
            operation_id.as_str(),
            "operation ID",
        ),
        Response::FingerRemoved { operation_id } => validate_identifier(
            operation_id.as_str(),
            "operation ID",
        ),
        Response::Completed { operation_id } => validate_identifier(
            operation_id.as_str(),
            "operation ID",
        ),
        Response::MatchResult { operation_id, .. } => validate_identifier(
            operation_id.as_str(),
            "operation ID",
        ),
        Response::EnrollProgress { operation_id, completed_stages, total_stages } => {
            validate_identifier(operation_id.as_str(), "operation ID")?;
            if *total_stages == 0 {
                return Err(Error::invalid("enrollment declares no stages"));
            }
            // `completed <= total` only: a driver may finish without reporting its last stage.
            if *completed_stages == 0 || *completed_stages > *total_stages {
                return Err(Error::invalid("enrollment stage count is out of range"));
            }
            Ok(())
        },
        Response::Enrolled { operation_id, template_base64 } => {
            validate_identifier(operation_id.as_str(), "operation ID")?;
            match decode_template_data(template_base64.as_str()) {
                Ok(_) => Ok(()),
                Err(e) => Err(e),
            }
        },
        Response::Frame {
            operation_id,
            width,
            height,
            x_resolution_ppi,
            y_resolution_ppi,
            data_base64,
            ..
        } => {
            validate_identifier(operation_id.as_str(), "operation ID")?;
            validate_frame(*width, *height, *x_resolution_ppi, *y_resolution_ppi, data_base64)
        },
        Response::Error { request_id, operation_id, code, message } => {
            validate_optional_identifier(request_id, "request ID")?;
            validate_optional_identifier(operation_id, "operation ID")?;
            validate_identifier(code.as_str(), "error code")?;
            if message.as_str().len() > MAX_ERROR_MESSAGE_BYTES {
                return Err(Error::invalid("protocol error message is too long"));
            }
            Ok(())
        },
    }
}

} // verus!
