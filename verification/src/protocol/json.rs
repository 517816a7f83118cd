//! The JSON Lines wire form of protocol messages, written byte for byte.
//!
//! A message is one compact JSON object: `"type"` first, holding the message's snake-case tag,
//! then its fields in declaration order; strings are escaped as JSON requires (`"` and `\` by a
//! backslash, the short escapes for backspace, tab, line feed, form feed and carriage return,
//! `\u00XX` with lower-case hex for the other control bytes); absent optional fields are `null`.

use vstd::prelude::*;
use vstd::utf8::encode_utf8;

use super::message::{DeviceCapability, DeviceInfo, Request, Response, MAX_LINE_BYTES};
use super::validate::{request_problem, response_problem, validate_request, validate_response};
use crate::error::{err_text, problem_of, Error};

verus! {

/// Lower-case hexadecimal digit for `n < 16`.
pub open spec fn hex_digit(n: int) -> u8 {
    if n < 10 {
        (48 + n) as u8
    } else {
        (97 + n - 10) as u8
    }
}

/// How one byte of a string's UTF-8 appears inside a JSON string literal.
pub open spec fn escaped_byte(b: u8) -> Seq<u8> {
    if b == 0x22 {
        seq![0x5cu8, 0x22u8]
    } else if b == 0x5c {
        seq![0x5cu8, 0x5cu8]
    } else if b == 0x08 {
        seq![0x5cu8, 0x62u8]
    } else if b == 0x09 {
        seq![0x5cu8, 0x74u8]
    } else if b == 0x0a {
        seq![0x5cu8, 0x6eu8]
    } else if b == 0x0c {
        seq![0x5cu8, 0x66u8]
    } else if b == 0x0d {
        seq![0x5cu8, 0x72u8]
    } else if b < 0x20 {
        seq![0x5cu8, 0x75u8, 0x30u8, 0x30u8, hex_digit(b as int / 16), hex_digit(b as int % 16)]
    } else {
        seq![b]
    }
}

/// The escaped form of a byte string.
pub open spec fn escaped_bytes(bytes: Seq<u8>) -> Seq<u8>
    decreases bytes.len(),
{
    if bytes.len() == 0 {
        seq![]
    } else {
        escaped_bytes(bytes.drop_last()) + escaped_byte(bytes.last())
    }
}

/// A JSON string literal holding `s`.
pub open spec fn json_string(s: Seq<char>) -> Seq<u8> {
    seq![0x22u8] + escaped_bytes(encode_utf8(s)) + seq![0x22u8]
}

/// The decimal digits of `n`, without sign or leading zeros.
pub open spec fn decimal(n: nat) -> Seq<u8>
    decreases n,
{
    if n < 10 {
        seq![(48 + n) as u8]
    } else {
        decimal(n / 10) + seq![(48 + n % 10) as u8]
    }
}

/// `true` or `false`.
pub open spec fn json_bool(b: bool) -> Seq<u8> {
    if b {
        seq![0x74u8, 0x72u8, 0x75u8, 0x65u8]
    } else {
        seq![0x66u8, 0x61u8, 0x6cu8, 0x73u8, 0x65u8]
    }
}

/// A string, or `null` when absent.
pub open spec fn json_optional_string(value: Option<String>) -> Seq<u8> {
    match value {
        Some(s) => json_string(s@),
        None => seq![0x6eu8, 0x75u8, 0x6cu8, 0x6cu8],
    }
}

/// One `"name":value` member.
pub open spec fn member(name: Seq<char>, value: Seq<u8>) -> Seq<u8> {
    json_string(name) + seq![0x3au8] + value
}

/// A member preceded by the separating comma.
pub open spec fn next_member(name: Seq<char>, value: Seq<u8>) -> Seq<u8> {
    seq![0x2cu8] + member(name, value)
}

/// A message object: the `"type"` member, the other members, and the closing brace.
pub open spec fn tagged_object(tag: Seq<char>, members: Seq<u8>) -> Seq<u8> {
    seq![0x7bu8] + member("type"@, json_string(tag)) + members + seq![0x7du8]
}

/// The snake-case name of a capability.
pub open spec fn capability_name(capability: DeviceCapability) -> Seq<char> {
    match capability {
        DeviceCapability::HostImage => "host_image"@,
        DeviceCapability::MatchOnChip => "match_on_chip"@,
    }
}

/// One device of an enumeration.
pub open spec fn device_json(device: DeviceInfo) -> Seq<u8> {
    seq![0x7bu8] + member("device_id"@, json_string(device.device_id@)) + next_member(
        "capture_profile_id"@,
        json_string(device.capture_profile_id@),
    ) + next_member("capability"@, json_string(capability_name(device.capability)))
        + next_member("enroll_stages"@, decimal(device.enroll_stages as nat)) + seq![0x7du8]
}

/// The comma-separated devices, without brackets.
pub open spec fn device_list_json(devices: Seq<DeviceInfo>) -> Seq<u8>
    decreases devices.len(),
{
    if devices.len() == 0 {
        seq![]
    } else if devices.len() == 1 {
        device_json(devices[0])
    } else {
        device_list_json(devices.drop_last()) + seq![0x2cu8] + device_json(devices.last())
    }
}

/// The JSON object of a request.
pub open spec fn request_json(request: Request) -> Seq<u8> {
    match request {
        Request::Hello { request_id, protocol_version } => tagged_object(
            "hello"@,
            next_member("request_id"@, json_string(request_id@)) + next_member(
                "protocol_version"@,
                decimal(protocol_version as nat),
            ),
        ),
        Request::Enumerate { request_id } => tagged_object(
            "enumerate"@,
            next_member("request_id"@, json_string(request_id@)),
        ),
        Request::StartCapture { request_id, operation_id, device_id } => tagged_object(
            "start_capture"@,
            next_member("request_id"@, json_string(request_id@)) + next_member(
                "operation_id"@,
                json_string(operation_id@),
            ) + next_member("device_id"@, json_string(device_id@)),
        ),
        Request::StartEnroll { request_id, operation_id, device_id } => tagged_object(
            "start_enroll"@,
            next_member("request_id"@, json_string(request_id@)) + next_member(
                "operation_id"@,
                json_string(operation_id@),
            ) + next_member("device_id"@, json_string(device_id@)),
        ),
        Request::StartVerify { request_id, operation_id, device_id, template_base64 } =>
            tagged_object(
            "start_verify"@,
            next_member("request_id"@, json_string(request_id@)) + next_member(
                "operation_id"@,
                json_string(operation_id@),
            ) + next_member("device_id"@, json_string(device_id@)) + next_member(
                "template_base64"@,
                json_string(template_base64@),
            ),
        ),
        Request::Cancel { request_id, operation_id } => tagged_object(
            "cancel"@,
            next_member("request_id"@, json_string(request_id@)) + next_member(
                "operation_id"@,
                json_string(operation_id@),
            ),
        ),
        Request::Shutdown { request_id } => tagged_object(
            "shutdown"@,
            next_member("request_id"@, json_string(request_id@)),
        ),
    }
}

/// The JSON object of a response.
pub open spec fn response_json(response: Response) -> Seq<u8> {
    match response {
        Response::HelloAck { request_id, protocol_version } => tagged_object(
            "hello_ack"@,
            next_member("request_id"@, json_string(request_id@)) + next_member(
                "protocol_version"@,
                decimal(protocol_version as nat),
            ),
        ),
        Response::Devices { request_id, devices } => tagged_object(
            "devices"@,
            next_member("request_id"@, json_string(request_id@)) + next_member(
                "devices"@,
                seq![0x5bu8] + device_list_json(devices@) + seq![0x5du8],
            ),
        ),
        Response::Started { request_id, operation_id } => tagged_object(
            "started"@,
            next_member("request_id"@, json_string(request_id@)) + next_member(
                "operation_id"@,
                json_string(operation_id@),
            ),
        ),
        Response::FingerPresent { operation_id } => tagged_object(
            "finger_present"@,
            next_member("operation_id"@, json_string(operation_id@)),
        ),
        Response::Frame {
            operation_id,
            sequence,
            width,
            height,
            x_resolution_ppi,
            y_resolution_ppi,
            data_base64,
        } => tagged_object(
            "frame"@,
            next_member("operation_id"@, json_string(operation_id@)) + next_member(
                "sequence"@,
                decimal(sequence as nat),
            ) + next_member("width"@, decimal(width as nat)) + next_member(
                "height"@,
                decimal(height as nat),
            ) + next_member("x_resolution_ppi"@, decimal(x_resolution_ppi as nat))
                + next_member("y_resolution_ppi"@, decimal(y_resolution_ppi as nat))
                + next_member("data_base64"@, json_string(data_base64@)),
        ),
        Response::FingerRemoved { operation_id } => tagged_object(
            "finger_removed"@,
            next_member("operation_id"@, json_string(operation_id@)),
        ),
        Response::EnrollProgress { operation_id, completed_stages, total_stages } =>
            tagged_object(
            "enroll_progress"@,
            next_member("operation_id"@, json_string(operation_id@)) + next_member(
                "completed_stages"@,
                decimal(completed_stages as nat),
            ) + next_member("total_stages"@, decimal(total_stages as nat)),
        ),
        Response::Enrolled { operation_id, template_base64 } => tagged_object(
            "enrolled"@,
            next_member("operation_id"@, json_string(operation_id@)) + next_member(
                "template_base64"@,
                json_string(template_base64@),
            ),
        ),
        Response::MatchResult { operation_id, matched } => tagged_object(
            "match_result"@,
            next_member("operation_id"@, json_string(operation_id@)) + next_member(
                "matched"@,
                json_bool(matched),
            ),
        ),
        Response::Completed { operation_id } => tagged_object(
            "completed"@,
            next_member("operation_id"@, json_string(operation_id@)),
        ),
        Response::Cancelled { request_id, operation_id } => tagged_object(
            "cancelled"@,
            next_member("request_id"@, json_string(request_id@)) + next_member(
                "operation_id"@,
                json_string(operation_id@),
            ),
        ),
        Response::Error { request_id, operation_id, code, message } => tagged_object(
            "error"@,
            next_member("request_id"@, json_optional_string(request_id)) + next_member(
                "operation_id"@,
                json_optional_string(operation_id),
            ) + next_member("code"@, json_string(code@)) + next_member(
                "message"@,
                json_string(message@),
            ),
        ),
    }
}

/// A JSON body as one line: refused beyond 2 MiB, otherwise followed by a newline.
pub open spec fn line_encoding(body: Seq<u8>) -> Result<Seq<u8>, Seq<char>> {
    if body.len() > MAX_LINE_BYTES {
        Err("protocol JSON line exceeds 2 MiB"@)
    } else {
        Ok(body.push(0x0au8))
    }
}

/// What encoding a request gives: its line, or the reason it is refused.
pub open spec fn request_encoding(request: Request) -> Result<Seq<u8>, Seq<char>> {
    match request_problem(request) {
        Some(reason) => Err(reason),
        None => line_encoding(request_json(request)),
    }
}

/// What encoding a response gives: its line, or the reason it is refused.
pub open spec fn response_encoding(response: Response) -> Result<Seq<u8>, Seq<char>> {
    match response_problem(response) {
        Some(reason) => Err(reason),
        None => line_encoding(response_json(response)),
    }
}

fn push_bytes(out: &mut Vec<u8>, bytes: &[u8])
    ensures
        final(out)@ == old(out)@ + bytes@,
{
    let mut i: usize = 0;
    while i < bytes.len()
        invariant
            0 <= i <= bytes@.len(),
            out@ == old(out)@ + bytes@.take(i as int),
        decreases bytes@.len() - i,
    {
        out.push(bytes[i]);
        i += 1;
        assert(bytes@.take(i as int) == bytes@.take(i - 1).push(bytes@[i - 1]));
    }
    assert(bytes@.take(i as int) == bytes@);
}

fn hex(n: u8) -> (digit: u8)
    requires
        n < 16,
    ensures
        digit == hex_digit(n as int),
{
    if n < 10 {
        48 + n
    } else {
        87 + n
    }
}

fn push_escaped_byte(out: &mut Vec<u8>, b: u8)
    ensures
        final(out)@ == old(out)@ + escaped_byte(b),
{
    let ghost start = out@;
    if b == 0x22 {
        out.push(0x5c);
        out.push(0x22);
    } else if b == 0x5c {
        out.push(0x5c);
        out.push(0x5c);
    } else if b == 0x08 {
        out.push(0x5c);
        out.push(0x62);
    } else if b == 0x09 {
        out.push(0x5c);
        out.push(0x74);
    } else if b == 0x0a {
        out.push(0x5c);
        out.push(0x6e);
    } else if b == 0x0c {
        out.push(0x5c);
        out.push(0x66);
    } else if b == 0x0d {
        out.push(0x5c);
        out.push(0x72);
    } else if b < 0x20 {
        out.push(0x5c);
        out.push(0x75);
        out.push(0x30);
        out.push(0x30);
        out.push(hex(b / 16));
        out.push(hex(b % 16));
    } else {
        out.push(b);
    }
    assert(out@ =~= start + escaped_byte(b));
}

/// Append `s` as a JSON string literal.
fn push_json_string(out: &mut Vec<u8>, s: &str)
    ensures
        final(out)@ == old(out)@ + json_string(s@),
{
    let bytes = s.as_bytes();
    let ghost start = out@;
    out.push(0x22);
    let mut i: usize = 0;
    while i < bytes.len()
        invariant
            0 <= i <= bytes@.len(),
            bytes@ == encode_utf8(s@),
            out@ == start + seq![0x22u8] + escaped_bytes(bytes@.take(i as int)),
        decreases bytes@.len() - i,
    {
        push_escaped_byte(out, bytes[i]);
        i += 1;
        assert(bytes@.take(i as int).drop_last() == bytes@.take(i - 1));
    }
    assert(bytes@.take(i as int) == bytes@);
    out.push(0x22);
    assert(out@ =~= start + json_string(s@));
}

/// Append the decimal digits of `n`.
pub fn push_decimal(out: &mut Vec<u8>, n: u64)
    ensures
        final(out)@ == old(out)@ + decimal(n as nat),
    decreases n,
{
    let ghost start = out@;
    if n >= 10 {
        push_decimal(out, n / 10);
    }
    out.push(48 + (n % 10) as u8);
    assert(out@ =~= start + decimal(n as nat));
}

fn push_member_name(out: &mut Vec<u8>, name: &str, first: bool)
    ensures
        final(out)@ == old(out)@ + (if first {
            Seq::<u8>::empty()
        } else {
            seq![0x2cu8]
        }) + json_string(name@) + seq![0x3au8],
{
    let ghost start = out@;
    if !first {
        out.push(0x2c);
    }
    push_json_string(out, name);
    out.push(0x3a);
    assert(out@ =~= start + (if first {
        Seq::<u8>::empty()
    } else {
        seq![0x2cu8]
    }) + json_string(name@) + seq![0x3au8]);
}

/// Append `,"name":"value"`.
fn push_string_member(out: &mut Vec<u8>, name: &str, value: &str)
    ensures
        final(out)@ == old(out)@ + next_member(name@, json_string(value@)),
{
    let ghost start = out@;
    push_member_name(out, name, false);
    push_json_string(out, value);
    assert(out@ =~= start + next_member(name@, json_string(value@)));
}

/// Append `,"name":n`.
fn push_number_member(out: &mut Vec<u8>, name: &str, n: u64)
    ensures
        final(out)@ == old(out)@ + next_member(name@, decimal(n as nat)),
{
    let ghost start = out@;
    push_member_name(out, name, false);
    push_decimal(out, n);
    assert(out@ =~= start + next_member(name@, decimal(n as nat)));
}

/// Append `,"name":` and the string or `null`.
fn push_optional_member(out: &mut Vec<u8>, name: &str, value: &Option<String>)
    ensures
        final(out)@ == old(out)@ + next_member(name@, json_optional_string(*value)),
{
    let ghost start = out@;
    push_member_name(out, name, false);
    match value {
        Some(s) => push_json_string(out, s.as_str()),
        None => {
            out.push(0x6e);
            out.push(0x75);
            out.push(0x6c);
            out.push(0x6c);
        },
    }
    assert(out@ =~= start + next_member(name@, json_optional_string(*value)));
}

/// Start an object with its `"type"` member.
fn open_object(tag: &str) -> (out: Vec<u8>)
    ensures
        out@ == seq![0x7bu8] + member("type"@, json_string(tag@)),
{
    let mut out = Vec::new();
    out.push(0x7b);
    push_member_name(&mut out, "type", true);
    push_json_string(&mut out, tag);
    assert(out@ =~= seq![0x7bu8] + member("type"@, json_string(tag@)));
    out
}

fn push_device(out: &mut Vec<u8>, device: &DeviceInfo)
    ensures
        final(out)@ == old(out)@ + device_json(*device),
{
    let ghost start = out@;
    out.push(0x7b);
    push_member_name(out, "device_id", true);
    push_json_string(out, device.device_id.as_str());
    push_string_member(out, "capture_profile_id", device.capture_profile_id.as_str());
    let capability = match device.capability {
        DeviceCapability::HostImage => "host_image",
        DeviceCapability::MatchOnChip => "match_on_chip",
    };
    push_string_member(out, "capability", capability);
    push_number_member(out, "enroll_stages", device.enroll_stages as u64);
    out.push(0x7d);
    assert(out@ =~= start + device_json(*device));
}

fn push_device_list(out: &mut Vec<u8>, devices: &Vec<DeviceInfo>)
    ensures
        final(out)@ == old(out)@ + seq![0x5bu8] + device_list_json(devices@) + seq![0x5du8],
{
    let ghost start = out@;
    out.push(0x5b);
    let mut i: usize = 0;
    while i < devices.len()
        invariant
            0 <= i <= devices@.len(),
            out@ == start + seq![0x5bu8] + device_list_json(devices@.take(i as int)),
        decreases devices@.len() - i,
    {
        if i > 0 {
            out.push(0x2c);
        }
        push_device(out, &devices[i]);
        i += 1;
        assert(devices@.take(i as int).drop_last() == devices@.take(i - 1));
        assert(devices@.take(i as int).last() == devices@[i - 1]);
        if i == 1 {
            assert(devices@.take(i as int) == seq![devices@[0]]);
        }
    }
    assert(devices@.take(i as int) == devices@);
    out.push(0x5d);
    assert(out@ =~= start + seq![0x5bu8] + device_list_json(devices@) + seq![0x5du8]);
}

fn close_object(out: &mut Vec<u8>)
    ensures
        final(out)@ == old(out)@.push(0x7du8),
{
    out.push(0x7d);
}

fn object_s(tag: &str, n1: &str, v1: &str) -> (out: Vec<u8>)
    ensures
        out@ == tagged_object(tag@, next_member(n1@, json_string(v1@))),
{
    let mut out = open_object(tag);
    push_string_member(&mut out, n1, v1);
    close_object(&mut out);
    assert(out@ =~= tagged_object(tag@, next_member(n1@, json_string(v1@))));
    out
}

fn object_ss(tag: &str, n1: &str, v1: &str, n2: &str, v2: &str) -> (out: Vec<u8>)
    ensures
        out@ == tagged_object(
            tag@,
            next_member(n1@, json_string(v1@)) + next_member(n2@, json_string(v2@)),
        ),
{
    let mut out = open_object(tag);
    push_string_member(&mut out, n1, v1);
    push_string_member(&mut out, n2, v2);
    close_object(&mut out);
    assert(out@ =~= tagged_object(
        tag@,
        next_member(n1@, json_string(v1@)) + next_member(n2@, json_string(v2@)),
    ));
    out
}

fn object_sss(tag: &str, n1: &str, v1: &str, n2: &str, v2: &str, n3: &str, v3: &str) -> (out:
    Vec<u8>)
    ensures
        out@ == tagged_object(
            tag@,
            next_member(n1@, json_string(v1@)) + next_member(n2@, json_string(v2@))
                + next_member(n3@, json_string(v3@)),
        ),
{
    let mut out = open_object(tag);
    push_string_member(&mut out, n1, v1);
    push_string_member(&mut out, n2, v2);
    push_string_member(&mut out, n3, v3);
    close_object(&mut out);
    assert(out@ =~= tagged_object(
        tag@,
        next_member(n1@, json_string(v1@)) + next_member(n2@, json_string(v2@)) + next_member(
            n3@,
            json_string(v3@),
        ),
    ));
    out
}

fn object_ssss(
    tag: &str,
    n1: &str,
    v1: &str,
    n2: &str,
    v2: &str,
    n3: &str,
    v3: &str,
    n4: &str,
    v4: &str,
) -> (out: Vec<u8>)
    ensures
        out@ == tagged_object(
            tag@,
            next_member(n1@, json_string(v1@)) + next_member(n2@, json_string(v2@))
                + next_member(n3@, json_string(v3@)) + next_member(n4@, json_string(v4@)),
        ),
{
    let mut out = open_object(tag);
    push_string_member(&mut out, n1, v1);
    push_string_member(&mut out, n2, v2);
    push_string_member(&mut out, n3, v3);
    push_string_member(&mut out, n4, v4);
    close_object(&mut out);
    assert(out@ =~= tagged_object(
        tag@,
        next_member(n1@, json_string(v1@)) + next_member(n2@, json_string(v2@)) + next_member(
            n3@,
            json_string(v3@),
        ) + next_member(n4@, json_string(v4@)),
    ));
    out
}

fn object_sn(tag: &str, n1: &str, v1: &str, n2: &str, x2: u64) -> (out: Vec<u8>)
    ensures
        out@ == tagged_object(
            tag@,
            next_member(n1@, json_string(v1@)) + next_member(n2@, decimal(x2 as nat)),
        ),
{
    let mut out = open_object(tag);
    push_string_member(&mut out, n1, v1);
    push_number_member(&mut out, n2, x2);
    close_object(&mut out);
    assert(out@ =~= tagged_object(
        tag@,
        next_member(n1@, json_string(v1@)) + next_member(n2@, decimal(x2 as nat)),
    ));
    out
}

fn object_snn(tag: &str, n1: &str, v1: &str, n2: &str, x2: u64, n3: &str, x3: u64) -> (out:
    Vec<u8>)
    ensures
        out@ == tagged_object(
            tag@,
            next_member(n1@, json_string(v1@)) + next_member(n2@, decimal(x2 as nat))
                + next_member(n3@, decimal(x3 as nat)),
        ),
{
    let mut out = open_object(tag);
    push_string_member(&mut out, n1, v1);
    push_number_member(&mut out, n2, x2);
    push_number_member(&mut out, n3, x3);
    close_object(&mut out);
    assert(out@ =~= tagged_object(
        tag@,
        next_member(n1@, json_string(v1@)) + next_member(n2@, decimal(x2 as nat)) + next_member(
            n3@,
            decimal(x3 as nat),
        ),
    ));
    out
}

fn devices_object(request_id: &str, devices: &Vec<DeviceInfo>) -> (out: Vec<u8>)
    ensures
        out@ == tagged_object(
            "devices"@,
            next_member("request_id"@, json_string(request_id@)) + next_member(
                "devices"@,
                seq![0x5bu8] + device_list_json(devices@) + seq![0x5du8],
            ),
        ),
{
    let mut out = open_object("devices");
    push_string_member(&mut out, "request_id", request_id);
    push_member_name(&mut out, "devices", false);
    push_device_list(&mut out, devices);
    close_object(&mut out);
    assert(out@ =~= tagged_object(
        "devices"@,
        next_member("request_id"@, json_string(request_id@)) + next_member(
            "devices"@,
            seq![0x5bu8] + device_list_json(devices@) + seq![0x5du8],
        ),
    ));
    out
}

fn frame_object(
    operation_id: &str,
    sequence: u64,
    width: u32,
    height: u32,
    x_resolution_ppi: u16,
    y_resolution_ppi: u16,
    data_base64: &str,
) -> (out: Vec<u8>)
    ensures
        out@ == tagged_object(
            "frame"@,
            next_member("operation_id"@, json_string(operation_id@)) + next_member(
                "sequence"@,
                decimal(sequence as nat),
            ) + next_member("width"@, decimal(width as nat)) + next_member(
                "height"@,
                decimal(height as nat),
            ) + next_member("x_resolution_ppi"@, decimal(x_resolution_ppi as nat))
                + next_member("y_resolution_ppi"@, decimal(y_resolution_ppi as nat))
                + next_member("data_base64"@, json_string(data_base64@)),
        ),
{
    let mut out = open_object("frame");
    push_string_member(&mut out, "operation_id", operation_id);
    push_number_member(&mut out, "sequence", sequence);
    push_number_member(&mut out, "width", width as u64);
    push_number_member(&mut out, "height", height as u64);
    push_number_member(&mut out, "x_resolution_ppi", x_resolution_ppi as u64);
    push_number_member(&mut out, "y_resolution_ppi", y_resolution_ppi as u64);
    push_string_member(&mut out, "data_base64", data_base64);
    close_object(&mut out);
    assert(out@ =~= tagged_object(
        "frame"@,
        next_member("operation_id"@, json_string(operation_id@)) + next_member(
            "sequence"@,
            decimal(sequence as nat),
        ) + next_member("width"@, decimal(width as nat)) + next_member(
            "height"@,
            decimal(height as nat),
        ) + next_member("x_resolution_ppi"@, decimal(x_resolution_ppi as nat)) + next_member(
            "y_resolution_ppi"@,
            decimal(y_resolution_ppi as nat),
        ) + next_member("data_base64"@, json_string(data_base64@)),
    ));
    out
}

fn match_result_object(operation_id: &str, matched: bool) -> (out: Vec<u8>)
    ensures
        out@ == tagged_object(
            "match_result"@,
            next_member("operation_id"@, json_string(operation_id@)) + next_member(
                "matched"@,
                json_bool(matched),
            ),
        ),
{
    let mut out = open_object("match_result");
    push_string_member(&mut out, "operation_id", operation_id);
    push_member_name(&mut out, "matched", false);
    if matched {
        out.push(0x74);
        out.push(0x72);
        out.push(0x75);
        out.push(0x65);
    } else {
        out.push(0x66);
        out.push(0x61);
        out.push(0x6c);
        out.push(0x73);
        out.push(0x65);
    }
    close_object(&mut out);
    assert(out@ =~= tagged_object(
        "match_result"@,
        next_member("operation_id"@, json_string(operation_id@)) + next_member(
            "matched"@,
            json_bool(matched),
        ),
    ));
    out
}

fn error_object(
    request_id: &Option<String>,
    operation_id: &Option<String>,
    code: &str,
    message: &str,
) -> (out: Vec<u8>)
    ensures
        out@ == tagged_object(
            "error"@,
            next_member("request_id"@, json_optional_string(*request_id)) + next_member(
                "operation_id"@,
                json_optional_string(*operation_id),
            ) + next_member("code"@, json_string(code@)) + next_member(
                "message"@,
                json_string(message@),
            ),
        ),
{
    let mut out = open_object("error");
    push_optional_member(&mut out, "request_id", request_id);
    push_optional_member(&mut out, "operation_id", operation_id);
    push_string_member(&mut out, "code", code);
    push_string_member(&mut out, "message", message);
    close_object(&mut out);
    assert(out@ =~= tagged_object(
        "error"@,
        next_member("request_id"@, json_optional_string(*request_id)) + next_member(
            "operation_id"@,
            json_optional_string(*operation_id),
        ) + next_member("code"@, json_string(code@)) + next_member(
            "message"@,
            json_string(message@),
        ),
    ));
    out
}

/// The JSON object of a request, unframed.
pub fn request_json_bytes(request: &Request) -> (out: Vec<u8>)
    ensures
        out@ == request_json(*request),
{
    match request {
        Request::Hello { request_id, protocol_version } => object_sn(
            "hello",
            "request_id",
            request_id.as_str(),
            "protocol_version",
            *protocol_version as u64,
        ),
        Request::Enumerate { request_id } => object_s(
            "enumerate",
            "request_id",
            request_id.as_str(),
        ),
        Request::StartCapture { request_id, operation_id, device_id } => object_sss(
            "start_capture",
            "request_id",
            request_id.as_str(),
            "operation_id",
            operation_id.as_str(),
            "device_id",
            device_id.as_str(),
        ),
        Request::StartEnroll { request_id, operation_id, device_id } => object_sss(
            "start_enroll",
            "request_id",
            request_id.as_str(),
            "operation_id",
            operation_id.as_str(),
            "device_id",
            device_id.as_str(),
        ),
        Request::StartVerify { request_id, operation_id, device_id, template_base64 } =>
            object_ssss(
            "start_verify",
            "request_id",
            request_id.as_str(),
            "operation_id",
            operation_id.as_str(),
            "device_id",
            device_id.as_str(),
            "template_base64",
            template_base64.as_str(),
        ),
        Request::Cancel { request_id, operation_id } => object_ss(
            "cancel",
            "request_id",
            request_id.as_str(),
            "operation_id",
            operation_id.as_str(),
        ),
        Request::Shutdown { request_id } => object_s(
            "shutdown",
            "request_id",
            request_id.as_str(),
        ),
    }
}

/// The JSON object of a response, unframed.
pub fn response_json_bytes(response: &Response) -> (out: Vec<u8>)
    ensures
        out@ == response_json(*response),
{
    match response {
        Response::HelloAck { request_id, protocol_version } => object_sn(
            "hello_ack",
            "request_id",
            request_id.as_str(),
            "protocol_version",
            *protocol_version as u64,
        ),
        Response::Devices { request_id, devices } => devices_object(request_id.as_str(), devices),
        Response::Started { request_id, operation_id } => object_ss(
            "started",
            "request_id",
            request_id.as_str(),
            "operation_id",
            operation_id.as_str(),
        ),
        Response::FingerPresent { operation_id } => object_s(
            "finger_present",
            "operation_id",
            operation_id.as_str(),
        ),
        Response::Frame {
            operation_id,
            sequence,
            width,
            height,
            x_resolution_ppi,
            y_resolution_ppi,
            data_base64,
        } => frame_object(
            operation_id.as_str(),
            *sequence,
            *width,
            *height,
            *x_resolution_ppi,
            *y_resolution_ppi,
            data_base64.as_str(),
        ),
        Response::FingerRemoved { operation_id } => object_s(
            "finger_removed",
            "operation_id",
            operation_id.as_str(),
        ),
        Response::EnrollProgress { operation_id, completed_stages, total_stages } => object_snn(
            "enroll_progress",
            "operation_id",
            operation_id.as_str(),
            "completed_stages",
            *completed_stages as u64,
            "total_stages",
            *total_stages as u64,
        ),
        Response::Enrolled { operation_id, template_base64 } => object_ss(
            "enrolled",
            "operation_id",
            operation_id.as_str(),
            "template_base64",
            template_base64.as_str(),
        ),
        Response::MatchResult { operation_id, matched } => match_result_object(
            operation_id.as_str(),
            *matched,
        ),
        Response::Completed { operation_id } => object_s(
            "completed",
            "operation_id",
            operation_id.as_str(),
        ),
        Response::Cancelled { request_id, operation_id } => object_ss(
            "cancelled",
            "request_id",
            request_id.as_str(),
            "operation_id",
            operation_id.as_str(),
        ),
        Response::Error { request_id, operation_id, code, message } => error_object(
            request_id,
            operation_id,
            code.as_str(),
            message.as_str(),
        ),
    }
}

/// Frame one JSON body as a line: refused beyond 2 MiB, otherwise a newline is appended.
pub fn encode_line(body: Vec<u8>) -> (res: Result<Vec<u8>, Error>)
    ensures
        err_text(res) == problem_of(line_encoding(body@)),
        res matches Ok(line) ==> line_encoding(body@) == Ok::<Seq<u8>, Seq<char>>(line@),
{
    if body.len() > MAX_LINE_BYTES {
        return Err(Error::invalid("protocol JSON line exceeds 2 MiB"));
    }
    let mut line = body;
    line.push(0x0a);
    Ok(line)
}

/// A received line without at most one trailing `\n`, then at most one trailing `\r`.
pub open spec fn stripped_line(line: Seq<u8>) -> Seq<u8> {
    let without_newline = if line.len() > 0 && line.last() == 0x0au8 {
        line.drop_last()
    } else {
        line
    };
    if without_newline.len() > 0 && without_newline.last() == 0x0du8 {
        without_newline.drop_last()
    } else {
        without_newline
    }
}

/// The JSON body of one received line: the stripped line, which must fit in 2 MiB and hold no
/// other line break.
pub open spec fn line_body(line: Seq<u8>) -> Result<Seq<u8>, Seq<char>> {
    if line.len() > MAX_LINE_BYTES + 1 {
        Err("protocol JSON line exceeds 2 MiB"@)
    } else {
        let body = stripped_line(line);
        if body.len() > MAX_LINE_BYTES || body.contains(0x0au8) || body.contains(0x0du8) {
            Err("codec requires exactly one JSON line"@)
        } else {
            Ok(body)
        }
    }
}

/// Take the JSON body out of exactly one bounded line.
pub fn json_line_body(line: &[u8]) -> (res: Result<Vec<u8>, Error>)
    ensures
        err_text(res) == problem_of(line_body(line@)),
        res matches Ok(body) ==> line_body(line@) == Ok::<Seq<u8>, Seq<char>>(body@),
{
    if line.len() > MAX_LINE_BYTES + 1 {
        return Err(Error::invalid("protocol JSON line exceeds 2 MiB"));
    }
    let mut end = line.len();
    if end > 0 && line[end - 1] == 0x0a {
        end = end - 1;
    }
    assert(line@.take(end as int) =~= (if line@.len() > 0 && line@.last() == 0x0au8 {
        line@.drop_last()
    } else {
        line@
    }));
    if end > 0 && line[end - 1] == 0x0d {
        end = end - 1;
    }
    let ghost body = line@.take(end as int);
    assert(body =~= stripped_line(line@));
    if end > MAX_LINE_BYTES {
        return Err(Error::invalid("codec requires exactly one JSON line"));
    }
    let mut copy: Vec<u8> = Vec::new();
    let mut i: usize = 0;
    while i < end
        invariant
            0 <= i <= end <= line@.len(),
            copy@ == line@.take(i as int),
            forall|j: int| 0 <= j < i ==> line@[j] != 0x0au8 && line@[j] != 0x0du8,
            body == line@.take(end as int),
            body == stripped_line(line@),
            line@.len() <= MAX_LINE_BYTES + 1,
            end <= MAX_LINE_BYTES,
        decreases end - i,
    {
        if line[i] == 0x0a || line[i] == 0x0d {
            assert(body[i as int] == line@[i as int]);
            return Err(Error::invalid("codec requires exactly one JSON line"));
        }
        copy.push(line[i]);
        i += 1;
        assert(copy@ =~= line@.take(i as int));
    }
    assert(!body.contains(0x0au8) && !body.contains(0x0du8)) by {
        assert forall|j: int| 0 <= j < body.len() implies body[j] != 0x0au8 && body[j]
            != 0x0du8 by {
            assert(body[j] == line@[j]);
        }
    }
    assert(copy@ =~= body);
    Ok(copy)
}

/// Encode one bounded request and append a JSON Lines newline.
pub fn encode_request(request: &Request) -> (res: Result<Vec<u8>, Error>)
    ensures
        err_text(res) == problem_of(request_encoding(*request)),
        res matches Ok(line) ==> request_encoding(*request) == Ok::<Seq<u8>, Seq<char>>(line@),
{
    validate_request(request)?;
    encode_line(request_json_bytes(request))
}

/// Encode one bounded response and append a JSON Lines newline.
pub fn encode_response(response: &Response) -> (res: Result<Vec<u8>, Error>)
    ensures
        err_text(res) == problem_of(response_encoding(*response)),
        res matches Ok(line) ==> response_encoding(*response) == Ok::<Seq<u8>, Seq<char>>(
            line@,
        ),
{
    validate_response(response)?;
    encode_line(response_json_bytes(response))
}

/// A JSON body framed as a line is read back unchanged, as long as it fits and holds no line
/// break of its own.
pub proof fn lemma_line_round_trip(body: Seq<u8>)
    requires
        body.len() <= MAX_LINE_BYTES,
        !body.contains(0x0au8),
        !body.contains(0x0du8),
    ensures
        line_encoding(body) matches Ok(line) && line_body(line) == Ok::<Seq<u8>, Seq<char>>(
            body,
        ),
{
    let line = body.push(0x0au8);
    assert(line.drop_last() =~= body);
    if body.len() > 0 {
        assert(body.contains(body.last()));
    }
}

/// No byte of `bytes` is a line feed or a carriage return.
pub open spec fn single_line(bytes: Seq<u8>) -> bool {
    forall|i: int| 0 <= i < bytes.len() ==> #[trigger] bytes[i] != 0x0au8 && bytes[i] != 0x0du8
}

proof fn lemma_single_line_concat(a: Seq<u8>, b: Seq<u8>)
    requires
        single_line(a),
        single_line(b),
    ensures
        single_line(a + b),
{
    assert forall|i: int| 0 <= i < (a + b).len() implies #[trigger] (a + b)[i] != 0x0au8 && (a
        + b)[i] != 0x0du8 by {
        if i < a.len() {
            assert((a + b)[i] == a[i]);
        } else {
            assert((a + b)[i] == b[i - a.len()]);
        }
    }
}

proof fn lemma_escaped_bytes_single_line(bytes: Seq<u8>)
    ensures
        single_line(escaped_bytes(bytes)),
    decreases bytes.len(),
{
    if bytes.len() > 0 {
        lemma_escaped_bytes_single_line(bytes.drop_last());
        let b = bytes.last();
        assert(single_line(escaped_byte(b))) by {
            if b < 0x20 && b != 0x08 && b != 0x09 && b != 0x0a && b != 0x0c && b != 0x0d {
                assert(b as int / 16 < 2);
                assert(b as int % 16 < 16);
            }
        }
        lemma_single_line_concat(escaped_bytes(bytes.drop_last()), escaped_byte(b));
    }
}

proof fn lemma_json_string_single_line(s: Seq<char>)
    ensures
        single_line(json_string(s)),
{
    lemma_escaped_bytes_single_line(encode_utf8(s));
    lemma_single_line_concat(seq![0x22u8], escaped_bytes(encode_utf8(s)));
    lemma_single_line_concat(seq![0x22u8] + escaped_bytes(encode_utf8(s)), seq![0x22u8]);
}

proof fn lemma_decimal_single_line(n: nat)
    ensures
        single_line(decimal(n)),
    decreases n,
{
    if n >= 10 {
        lemma_decimal_single_line(n / 10);
        lemma_single_line_concat(decimal(n / 10), seq![(48 + n % 10) as u8]);
    }
}

proof fn lemma_member_single_line(name: Seq<char>, value: Seq<u8>)
    requires
        single_line(value),
    ensures
        single_line(member(name, value)),
        single_line(next_member(name, value)),
{
    lemma_json_string_single_line(name);
    lemma_single_line_concat(json_string(name), seq![0x3au8]);
    lemma_single_line_concat(json_string(name) + seq![0x3au8], value);
    lemma_single_line_concat(seq![0x2cu8], member(name, value));
}

proof fn lemma_tagged_object_single_line(tag: Seq<char>, members: Seq<u8>)
    requires
        single_line(members),
    ensures
        single_line(tagged_object(tag, members)),
{
    lemma_json_string_single_line(tag);
    lemma_member_single_line("type"@, json_string(tag));
    lemma_single_line_concat(seq![0x7bu8], member("type"@, json_string(tag)));
    lemma_single_line_concat(seq![0x7bu8] + member("type"@, json_string(tag)), members);
    lemma_single_line_concat(
        seq![0x7bu8] + member("type"@, json_string(tag)) + members,
        seq![0x7du8],
    );
}

proof fn lemma_string_member(name: Seq<char>, s: Seq<char>)
    ensures
        single_line(next_member(name, json_string(s))),
{
    lemma_json_string_single_line(s);
    lemma_member_single_line(name, json_string(s));
}

proof fn lemma_number_member(name: Seq<char>, n: nat)
    ensures
        single_line(next_member(name, decimal(n))),
{
    lemma_decimal_single_line(n);
    lemma_member_single_line(name, decimal(n));
}

proof fn lemma_device_single_line(device: DeviceInfo)
    ensures
        single_line(device_json(device)),
{
    lemma_json_string_single_line(device.device_id@);
    lemma_member_single_line("device_id"@, json_string(device.device_id@));
    lemma_string_member("capture_profile_id"@, device.capture_profile_id@);
    lemma_string_member("capability"@, capability_name(device.capability));
    lemma_number_member("enroll_stages"@, device.enroll_stages as nat);
    let a = seq![0x7bu8];
    let b = member("device_id"@, json_string(device.device_id@));
    let c = next_member("capture_profile_id"@, json_string(device.capture_profile_id@));
    let d = next_member("capability"@, json_string(capability_name(device.capability)));
    let e = next_member("enroll_stages"@, decimal(device.enroll_stages as nat));
    lemma_single_line_concat(a, b);
    lemma_single_line_concat(a + b, c);
    lemma_single_line_concat(a + b + c, d);
    lemma_single_line_concat(a + b + c + d, e);
    lemma_single_line_concat(a + b + c + d + e, seq![0x7du8]);
}

proof fn lemma_device_list_single_line(devices: Seq<DeviceInfo>)
    ensures
        single_line(device_list_json(devices)),
    decreases devices.len(),
{
    if devices.len() == 1 {
        lemma_device_single_line(devices[0]);
    } else if devices.len() > 1 {
        lemma_device_list_single_line(devices.drop_last());
        lemma_device_single_line(devices.last());
        lemma_single_line_concat(device_list_json(devices.drop_last()), seq![0x2cu8]);
        lemma_single_line_concat(
            device_list_json(devices.drop_last()) + seq![0x2cu8],
            device_json(devices.last()),
        );
    }
}

proof fn lemma_single_line_body(body: Seq<u8>)
    requires
        single_line(body),
    ensures
        !body.contains(0x0au8),
        !body.contains(0x0du8),
{
}

/// Every request encodes to exactly one line: reading the line back gives the request's JSON
/// object.
pub proof fn lemma_requests_are_one_line(request: Request)
    ensures
        request_encoding(request) matches Ok(line) ==> line_body(line) == Ok::<
            Seq<u8>,
            Seq<char>,
        >(request_json(request)),
{
    match request {
        Request::Hello { request_id, protocol_version } => {
            lemma_string_member("request_id"@, request_id@);
            lemma_number_member("protocol_version"@, protocol_version as nat);
            lemma_single_line_concat(
                next_member("request_id"@, json_string(request_id@)),
                next_member("protocol_version"@, decimal(protocol_version as nat)),
            );
            lemma_tagged_object_single_line(
                "hello"@,
                next_member("request_id"@, json_string(request_id@)) + next_member(
                    "protocol_version"@,
                    decimal(protocol_version as nat),
                ),
            );
        },
        Request::Enumerate { request_id } => {
            lemma_string_member("request_id"@, request_id@);
            lemma_tagged_object_single_line(
                "enumerate"@,
                next_member("request_id"@, json_string(request_id@)),
            );
        },
        Request::StartCapture { request_id, operation_id, device_id } => {
            let a = next_member("request_id"@, json_string(request_id@));
            let b = next_member("operation_id"@, json_string(operation_id@));
            let c = next_member("device_id"@, json_string(device_id@));
            lemma_string_member("request_id"@, request_id@);
            lemma_string_member("operation_id"@, operation_id@);
            lemma_string_member("device_id"@, device_id@);
            lemma_single_line_concat(a, b);
            lemma_single_line_concat(a + b, c);
            lemma_tagged_object_single_line("start_capture"@, a + b + c);
        },
        Request::StartEnroll { request_id, operation_id, device_id } => {
            let a = next_member("request_id"@, json_string(request_id@));
            let b = next_member("operation_id"@, json_string(operation_id@));
            let c = next_member("device_id"@, json_string(device_id@));
            lemma_string_member("request_id"@, request_id@);
            lemma_string_member("operation_id"@, operation_id@);
            lemma_string_member("device_id"@, device_id@);
            lemma_single_line_concat(a, b);
            lemma_single_line_concat(a + b, c);
            lemma_tagged_object_single_line("start_enroll"@, a + b + c);
        },
        Request::StartVerify { request_id, operation_id, device_id, template_base64 } => {
            let a = next_member("request_id"@, json_string(request_id@));
            let b = next_member("operation_id"@, json_string(operation_id@));
            let c = next_member("device_id"@, json_string(device_id@));
            let d = next_member("template_base64"@, json_string(template_base64@));
            lemma_string_member("request_id"@, request_id@);
            lemma_string_member("operation_id"@, operation_id@);
            lemma_string_member("device_id"@, device_id@);
            lemma_string_member("template_base64"@, template_base64@);
            lemma_single_line_concat(a, b);
            lemma_single_line_concat(a + b, c);
            lemma_single_line_concat(a + b + c, d);
            lemma_tagged_object_single_line("start_verify"@, a + b + c + d);
        },
        Request::Cancel { request_id, operation_id } => {
            let a = next_member("request_id"@, json_string(request_id@));
            let b = next_member("operation_id"@, json_string(operation_id@));
            lemma_string_member("request_id"@, request_id@);
            lemma_string_member("operation_id"@, operation_id@);
            lemma_single_line_concat(a, b);
            lemma_tagged_object_single_line("cancel"@, a + b);
        },
        Request::Shutdown { request_id } => {
            lemma_string_member("request_id"@, request_id@);
            lemma_tagged_object_single_line(
                "shutdown"@,
                next_member("request_id"@, json_string(request_id@)),
            );
        },
    }
    lemma_single_line_body(request_json(request));
    if request_json(request).len() <= MAX_LINE_BYTES {
        lemma_line_round_trip(request_json(request));
    }
}

proof fn lemma_optional_member(name: Seq<char>, value: Option<String>)
    ensures
        single_line(next_member(name, json_optional_string(value))),
{
    match value {
        Some(s) => lemma_json_string_single_line(s@),
        None => {},
    }
    lemma_member_single_line(name, json_optional_string(value));
}

proof fn lemma_bool_member(value: bool)
    ensures
        single_line(next_member("matched"@, json_bool(value))),
{
    lemma_member_single_line("matched"@, json_bool(value));
}

proof fn lemma_devices_member(devices: Seq<DeviceInfo>)
    ensures
        single_line(next_member("devices"@, seq![0x5bu8] + device_list_json(devices) + seq![0x5du8])),
{
    lemma_device_list_single_line(devices);
    lemma_single_line_concat(seq![0x5bu8], device_list_json(devices));
    lemma_single_line_concat(seq![0x5bu8] + device_list_json(devices), seq![0x5du8]);
    lemma_member_single_line(
        "devices"@,
        seq![0x5bu8] + device_list_json(devices) + seq![0x5du8]);
}

/// Every response encodes to exactly one line: reading the line back gives the response's JSON
/// object.
pub proof fn lemma_responses_are_one_line(response: Response)
    ensures
        response_encoding(response) matches Ok(line) ==> line_body(line) == Ok::<
            Seq<u8>,
            Seq<char>,
        >(response_json(response)),
{
    match response {
        Response::HelloAck { request_id, protocol_version } => {
            let a = next_member("request_id"@, json_string(request_id@));
            let b = next_member("protocol_version"@, decimal(protocol_version as nat));
            lemma_string_member("request_id"@, request_id@);
            lemma_number_member("protocol_version"@, protocol_version as nat);
            lemma_single_line_concat(a, b);
            lemma_tagged_object_single_line("hello_ack"@, a + b);
        },
        Response::Devices { request_id, devices } => {
            let a = next_member("request_id"@, json_string(request_id@));
            let b = next_member("devices"@, seq![0x5bu8] + device_list_json(devices@) + seq![0x5du8]);
            lemma_string_member("request_id"@, request_id@);
            lemma_devices_member(devices@);
            lemma_single_line_concat(a, b);
            lemma_tagged_object_single_line("devices"@, a + b);
        },
        Response::Started { request_id, operation_id } => {
            let a = next_member("request_id"@, json_string(request_id@));
            let b = next_member("operation_id"@, json_string(operation_id@));
            lemma_string_member("request_id"@, request_id@);
            lemma_string_member("operation_id"@, operation_id@);
            lemma_single_line_concat(a, b);
            lemma_tagged_object_single_line("started"@, a + b);
        },
        Response::FingerPresent { operation_id } => {
            let a = next_member("operation_id"@, json_string(operation_id@));
            lemma_string_member("operation_id"@, operation_id@);
            lemma_tagged_object_single_line("finger_present"@, a);
        },
        Response::Frame { operation_id, sequence, width, height, x_resolution_ppi, y_resolution_ppi, data_base64 } => {
            let a = next_member("operation_id"@, json_string(operation_id@));
            let b = next_member("sequence"@, decimal(sequence as nat));
            let c = next_member("width"@, decimal(width as nat));
            let d = next_member("height"@, decimal(height as nat));
            let e = next_member("x_resolution_ppi"@, decimal(x_resolution_ppi as nat));
            let f = next_member("y_resolution_ppi"@, decimal(y_resolution_ppi as nat));
            let g = next_member("data_base64"@, json_string(data_base64@));
            lemma_string_member("operation_id"@, operation_id@);
            lemma_number_member("sequence"@, sequence as nat);
            lemma_number_member("width"@, width as nat);
            lemma_number_member("height"@, height as nat);
            lemma_number_member("x_resolution_ppi"@, x_resolution_ppi as nat);
            lemma_number_member("y_resolution_ppi"@, y_resolution_ppi as nat);
            lemma_string_member("data_base64"@, data_base64@);
            lemma_single_line_concat(a, b);
            lemma_single_line_concat(a + b, c);
            lemma_single_line_concat(a + b + c, d);
            lemma_single_line_concat(a + b + c + d, e);
            lemma_single_line_concat(a + b + c + d + e, f);
            lemma_single_line_concat(a + b + c + d + e + f, g);
            lemma_tagged_object_single_line("frame"@, a + b + c + d + e + f + g);
        },
        Response::FingerRemoved { operation_id } => {
            let a = next_member("operation_id"@, json_string(operation_id@));
            lemma_string_member("operation_id"@, operation_id@);
            lemma_tagged_object_single_line("finger_removed"@, a);
        },
        Response::EnrollProgress { operation_id, completed_stages, total_stages } => {
            let a = next_member("operation_id"@, json_string(operation_id@));
            let b = next_member("completed_stages"@, decimal(completed_stages as nat));
            let c = next_member("total_stages"@, decimal(total_stages as nat));
            lemma_string_member("operation_id"@, operation_id@);
            lemma_number_member("completed_stages"@, completed_stages as nat);
            lemma_number_member("total_stages"@, total_stages as nat);
            lemma_single_line_concat(a, b);
            lemma_single_line_concat(a + b, c);
            lemma_tagged_object_single_line("enroll_progress"@, a + b + c);
        },
        Response::Enrolled { operation_id, template_base64 } => {
            let a = next_member("operation_id"@, json_string(operation_id@));
            let b = next_member("template_base64"@, json_string(template_base64@));
            lemma_string_member("operation_id"@, operation_id@);
            lemma_string_member("template_base64"@, template_base64@);
            lemma_single_line_concat(a, b);
            lemma_tagged_object_single_line("enrolled"@, a + b);
        },
        Response::MatchResult { operation_id, matched } => {
            let a = next_member("operation_id"@, json_string(operation_id@));
            let b = next_member("matched"@, json_bool(matched));
            lemma_string_member("operation_id"@, operation_id@);
            lemma_bool_member(matched);
            lemma_single_line_concat(a, b);
            lemma_tagged_object_single_line("match_result"@, a + b);
        },
        Response::Completed { operation_id } => {
            let a = next_member("operation_id"@, json_string(operation_id@));
            lemma_string_member("operation_id"@, operation_id@);
            lemma_tagged_object_single_line("completed"@, a);
        },
        Response::Cancelled { request_id, operation_id } => {
            let a = next_member("request_id"@, json_string(request_id@));
            let b = next_member("operation_id"@, json_string(operation_id@));
            lemma_string_member("request_id"@, request_id@);
            lemma_string_member("operation_id"@, operation_id@);
            lemma_single_line_concat(a, b);
            lemma_tagged_object_single_line("cancelled"@, a + b);
        },
        Response::Error { request_id, operation_id, code, message } => {
            let a = next_member("request_id"@, json_optional_string(request_id));
            let b = next_member("operation_id"@, json_optional_string(operation_id));
            let c = next_member("code"@, json_string(code@));
            let d = next_member("message"@, json_string(message@));
            lemma_optional_member("request_id"@, request_id);
            lemma_optional_member("operation_id"@, operation_id);
            lemma_string_member("code"@, code@);
            lemma_string_member("message"@, message@);
            lemma_single_line_concat(a, b);
            lemma_single_line_concat(a + b, c);
            lemma_single_line_concat(a + b + c, d);
            lemma_tagged_object_single_line("error"@, a + b + c + d);
        },
    }
    lemma_single_line_body(response_json(response));
    if response_json(response).len() <= MAX_LINE_BYTES {
        lemma_line_round_trip(response_json(response));
    }
}

/// The bytes of an ASCII text, one per character.
pub open spec fn ascii(text: Seq<char>) -> Seq<u8> {
    Seq::new(text.len(), |i: int| text[i] as u8)
}

/// Printable ASCII other than the quote and the backslash: what a JSON string holds verbatim.
pub open spec fn plain_json_text(text: Seq<char>) -> bool {
    forall|i: int|
        0 <= i < text.len() ==> ' ' <= #[trigger] text[i] <= '~' && text[i] != '"' && text[i]
            != '\\'
}

proof fn lemma_plain_bytes_are_not_escaped(bytes: Seq<u8>)
    requires
        forall|i: int|
            0 <= i < bytes.len() ==> 0x20 <= #[trigger] bytes[i] < 0x7f && bytes[i] != 0x22
                && bytes[i] != 0x5c,
    ensures
        escaped_bytes(bytes) == bytes,
    decreases bytes.len(),
{
    if bytes.len() > 0 {
        let rest = bytes.drop_last();
        assert forall|i: int| 0 <= i < rest.len() implies 0x20 <= #[trigger] rest[i] < 0x7f
            && rest[i] != 0x22 && rest[i] != 0x5c by {
            assert(rest[i] == bytes[i]);
        }
        lemma_plain_bytes_are_not_escaped(rest);
        assert(bytes[bytes.len() - 1] == bytes.last());
        assert(rest.push(bytes.last()) =~= bytes);
    }
}

/// A plain text is written between quotes exactly as it reads.
proof fn lemma_plain_json_string(text: Seq<char>)
    requires
        plain_json_text(text),
    ensures
        json_string(text) == seq![0x22u8] + ascii(text) + seq![0x22u8],
{
    assert forall|i: int| 0 <= i < text.len() implies '\0' <= #[trigger] text[i] <= '\u{7f}' by {
        assert(' ' <= text[i] <= '~');
    }
    assert(vstd::utf8::is_ascii_chars(text));
    vstd::utf8::is_ascii_chars_encode_utf8(text);
    assert(encode_utf8(text) =~= ascii(text));
    let bytes = ascii(text);
    assert forall|i: int| 0 <= i < bytes.len() implies 0x20 <= #[trigger] bytes[i] < 0x7f
        && bytes[i] != 0x22 && bytes[i] != 0x5c by {
        assert(' ' <= text[i] <= '~' && text[i] != '"' && text[i] != '\\');
    }
    lemma_plain_bytes_are_not_escaped(bytes);
}

proof fn lemma_verdict_tail(matched: bool)
    ensures
        (if matched {
            ascii(",\"matched\":true}\n"@)
        } else {
            ascii(",\"matched\":false}\n"@)
        }) == next_member("matched"@, json_bool(matched)) + seq![0x7du8, 0x0au8],
{
    reveal_strlit("matched");
    reveal_strlit(",\"matched\":true}\n");
    reveal_strlit(",\"matched\":false}\n");
    lemma_plain_json_string("matched"@);
    if matched {
        assert(ascii(",\"matched\":true}\n"@) =~= next_member("matched"@, json_bool(matched))
            + seq![0x7du8, 0x0au8]);
    } else {
        assert(ascii(",\"matched\":false}\n"@) =~= next_member("matched"@, json_bool(matched))
            + seq![0x7du8, 0x0au8]);
    }
}

/// A verdict goes on the wire as the device gave it: the line of an encoded match result ends
/// with `"matched":true}` when the finger was recognised and with `"matched":false}` when it
/// was not.
pub proof fn lemma_match_results_carry_the_verdict(operation_id: String, matched: bool)
    ensures
        response_encoding(Response::MatchResult { operation_id, matched }) matches Ok(line) ==> {
            let tail = if matched {
                ascii(",\"matched\":true}\n"@)
            } else {
                ascii(",\"matched\":false}\n"@)
            };
            &&& line.len() >= tail.len()
            &&& line.subrange(line.len() - tail.len(), line.len() as int) == tail
        },
{
    let r = Response::MatchResult { operation_id, matched };
    if let Ok(line) = response_encoding(r) {
        lemma_verdict_tail(matched);
        let tail = next_member("matched"@, json_bool(matched)) + seq![0x7du8, 0x0au8];
        let head = seq![0x7bu8] + member("type"@, json_string("match_result"@)) + next_member(
            "operation_id"@,
            json_string(operation_id@),
        );
        assert(line =~= head + tail);
        assert(line.subrange(line.len() - tail.len(), line.len() as int) =~= tail);
    }
}

/// The number an ASCII digit string denotes, most significant digit first.
pub open spec fn digits_value(digits: Seq<u8>) -> nat
    decreases digits.len(),
{
    if digits.len() == 0 {
        0
    } else {
        digits_value(digits.drop_last()) * 10 + (digits.last() - 0x30u8) as nat
    }
}

/// A number is written in plain decimal and reads back as itself: only the digits `0` to
/// `9`, no leading zero, denoting exactly `n`.
pub proof fn lemma_decimal_reads_back(n: nat)
    ensures
        forall|i: int| 0 <= i < decimal(n).len() ==> 0x30 <= #[trigger] decimal(n)[i] <= 0x39,
        decimal(n).len() >= 1,
        decimal(n).len() > 1 ==> decimal(n)[0] != 0x30,
        digits_value(decimal(n)) == n,
    decreases n,
{
    if n >= 10 {
        lemma_decimal_reads_back(n / 10);
        let d = decimal(n);
        let head = decimal(n / 10);
        assert(d.drop_last() =~= head);
        assert forall|i: int| 0 <= i < d.len() implies 0x30 <= #[trigger] d[i] <= 0x39 by {
            if i < head.len() {
                assert(d[i] == head[i]);
            }
        }
        assert(d[0] == head[0]);
        if n / 10 < 10 {
            assert(head =~= seq![(48 + n / 10) as u8]);
        } else {
            lemma_decimal_reads_back(n / 10 / 10);
            assert(head == decimal(n / 10 / 10) + seq![(48 + n / 10 % 10) as u8]);
            assert(head.len() > 1);
        }
        assert(d.last() == (48 + n % 10) as u8);
        assert(digits_value(d) == digits_value(head) * 10 + n % 10);
    } else {
        let d = decimal(n);
        assert(d =~= seq![(48 + n) as u8]);
        assert(d.drop_last() =~= Seq::<u8>::empty());
        assert(digits_value(d) == digits_value(d.drop_last()) * 10 + n);
    }
}

/// The value of a lower-case hexadecimal digit, or `None`.
pub open spec fn lower_hex_value(c: u8) -> Option<int> {
    if 0x30 <= c <= 0x39 {
        Some(c - 0x30)
    } else if 0x61 <= c <= 0x66 {
        Some(c - 0x61 + 10)
    } else {
        None
    }
}

/// The byte that one JSON string element stands for, as a JSON reader takes it: a byte that
/// needs no escape stands for itself; `\"`, `\\`, `\b`, `\t`, `\n`, `\f`, `\r` for the quote,
/// the backslash and the five control bytes; `\u00XX` (lower-case hex) for any byte below
/// 0x80. Anything else is `None`.
pub open spec fn json_string_element(element: Seq<u8>) -> Option<u8> {
    if element.len() == 1 {
        if element[0] == 0x22 || element[0] == 0x5c || element[0] < 0x20 {
            None
        } else {
            Some(element[0])
        }
    } else if element.len() == 2 && element[0] == 0x5c {
        let c = element[1];
        if c == 0x22 {
            Some(0x22u8)
        } else if c == 0x5c {
            Some(0x5cu8)
        } else if c == 0x62 {
            Some(0x08u8)
        } else if c == 0x74 {
            Some(0x09u8)
        } else if c == 0x6e {
            Some(0x0au8)
        } else if c == 0x66 {
            Some(0x0cu8)
        } else if c == 0x72 {
            Some(0x0du8)
        } else {
            None
        }
    } else if element.len() == 6 && element[0] == 0x5c && element[1] == 0x75 && element[2] == 0x30
        && element[3] == 0x30 {
        match (lower_hex_value(element[4]), lower_hex_value(element[5])) {
            (Some(h), Some(l)) if h < 8 => Some((h * 16 + l) as u8),
            _ => None,
        }
    } else {
        None
    }
}

/// Every byte of a string is written so that a JSON reader takes it back as that byte: the
/// quote, the backslash and every control byte are escaped, everything else is written as is.
pub proof fn lemma_escapes_read_back(b: u8)
    ensures
        json_string_element(escaped_byte(b)) == Some(b),
        escaped_byte(b).len() == 1 <==> (b != 0x22 && b != 0x5c && b >= 0x20),
{
    if b < 0x20 && b != 0x08 && b != 0x09 && b != 0x0a && b != 0x0c && b != 0x0d {
        let h = b as int / 16;
        let l = b as int % 16;
        assert(h < 2);
        assert(lower_hex_value(hex_digit(h)) == Some(h));
        assert(lower_hex_value(hex_digit(l)) == Some(l));
        assert((h * 16 + l) as u8 == b);
    }
}

} // verus!
