//! The host's decisions in a session with a driver worker: what each reply means, which device
//! to bind to, and when an enrollment or a verification has finished.
//!
//! The worker runs in another process; reading and writing its pipe is left to the caller, which
//! hands each decoded and validated response to these functions and acts on what they return.

use vstd::prelude::*;

use super::data::{decode_template_data, template_data_decoding};
use super::message::{DeviceCapability, DeviceInfo, Response};
use crate::domain::MatchVerdict;
use crate::error::{err_text, Error};
use crate::text::{append_decimal, decimal_text};

verus! {

/// The text of the error for a reply of the wrong kind.
pub open spec fn unexpected_text(expected: Seq<char>, got: Response) -> Seq<char> {
    "expected "@ + expected + " from the driver worker, got "@ + got.spec_debug_text()
}

/// The error for a reply that is not the one the host waits for. It names the reply's kind
/// only, so it cannot leak a frame or a template.
pub fn unexpected(expected: &str, got: &Response) -> (e: Error)
    ensures
        e.text() == unexpected_text(expected@, *got),
{
    let mut text = "expected ".to_string();
    text.append(expected);
    text.append(" from the driver worker, got ");
    let rendered = got.debug_text();
    text.append(rendered.as_str());
    Error::from_text(text)
}

/// A request or operation identifier: `prefix`, a hyphen, and the decimal counter.
pub fn request_label(prefix: &str, counter: u64) -> (label: String)
    ensures
        label@ == prefix@ + "-"@ + decimal_text(counter as nat),
{
    let mut label = prefix.to_string();
    label.append("-");
    append_decimal(&mut label, counter);
    label
}

/// The error a worker's structured failure becomes on the host, if `response` is one.
pub fn worker_failure(response: &Response) -> (failure: Option<Error>)
    ensures
        match response {
            Response::Error { code, message, .. } => failure matches Some(e) && e.text()
                == "driver worker: "@ + code@ + ": "@ + message@,
            _ => failure is None,
        },
{
    match response {
        Response::Error { code, message, .. } => {
            let mut text = "driver worker: ".to_string();
            text.append(code.as_str());
            text.append(": ");
            text.append(message.as_str());
            Some(Error::from_text(text))
        },
        _ => None,
    }
}

/// Accept the worker's reply to `Hello`.
pub fn handshake_reply(response: &Response) -> (res: Result<(), Error>)
    ensures
        match res {
            Ok(()) => response is HelloAck,
            Err(e) => !(response is HelloAck) && e.text() == unexpected_text(
                "hello acknowledgement"@,
                *response,
            ),
        },
{
    match response {
        Response::HelloAck { .. } => Ok(()),
        _ => Err(unexpected("hello acknowledgement", response)),
    }
}

/// The position of the first match-on-chip device in the list, if there is one.
pub open spec fn first_match_on_chip(devices: Seq<DeviceInfo>) -> Option<int>
    decreases devices.len(),
{
    if devices.len() == 0 {
        None
    } else {
        match first_match_on_chip(devices.drop_last()) {
            Some(i) => Some(i),
            None => if devices.last().capability == DeviceCapability::MatchOnChip {
                Some(devices.len() - 1)
            } else {
                None
            },
        }
    }
}

proof fn lemma_first_match_on_chip(devices: Seq<DeviceInfo>, k: int)
    requires
        0 <= k <= devices.len(),
        forall|j: int| 0 <= j < k ==> devices[j].capability != DeviceCapability::MatchOnChip,
    ensures
        first_match_on_chip(devices.take(k)) is None,
        k < devices.len() && devices[k].capability == DeviceCapability::MatchOnChip
            ==> first_match_on_chip(devices.take(k + 1)) == Some(k),
    decreases k,
{
    if k > 0 {
        lemma_first_match_on_chip(devices, k - 1);
        assert(devices.take(k).drop_last() =~= devices.take(k - 1));
    }
    if k < devices.len() {
        assert(devices.take(k + 1).drop_last() =~= devices.take(k));
    }
}

proof fn lemma_first_match_prefix(devices: Seq<DeviceInfo>, k: int)
    requires
        0 <= k <= devices.len(),
        first_match_on_chip(devices.take(k)) is Some,
    ensures
        first_match_on_chip(devices) == first_match_on_chip(devices.take(k)),
    decreases devices.len() - k,
{
    if k < devices.len() {
        assert(devices.take(k + 1).drop_last() =~= devices.take(k));
        lemma_first_match_prefix(devices, k + 1);
    } else {
        assert(devices.take(k) =~= devices);
    }
}

/// Bind to the first match-on-chip device a worker enumerated.
///
/// A worker that offers only host-image devices is refused here rather than later: it cannot
/// serve an enrollment, and finding that out mid-operation would waste a user's finger.
pub fn select_device(devices: Vec<DeviceInfo>) -> (res: Result<DeviceInfo, Error>)
    ensures
        match first_match_on_chip(devices@) {
            None => res matches Err(e) && e.text()
                == "the driver worker enumerated no match-on-chip device"@,
            Some(i) => if devices@[i].enroll_stages == 0 {
                res matches Err(e) && e.text()
                    == "the driver worker reports a device that cannot enroll"@
            } else {
                res == Ok::<DeviceInfo, Error>(devices@[i])
            },
        },
{
    let mut i: usize = 0;
    while i < devices.len()
        invariant
            0 <= i <= devices@.len(),
            forall|j: int| 0 <= j < i ==> devices@[j].capability != DeviceCapability::MatchOnChip,
        decreases devices@.len() - i,
    {
        if devices[i].capability == DeviceCapability::MatchOnChip {
            proof {
                lemma_first_match_on_chip(devices@, i as int);
                lemma_first_match_prefix(devices@, i + 1);
            }
            if devices[i].enroll_stages == 0 {
                return Err(Error::processing("the driver worker reports a device that cannot enroll"));
            }
            let mut devices = devices;
            return Ok(devices.remove(i));
        }
        i += 1;
    }
    proof {
        lemma_first_match_on_chip(devices@, i as int);
        assert(devices@.take(i as int) =~= devices@);
    }
    Err(Error::processing("the driver worker enumerated no match-on-chip device"))
}

/// Accept the worker's reply to `Enumerate` and bind to the device it offers.
pub fn enumeration_reply(response: Response) -> (res: Result<DeviceInfo, Error>)
    ensures
        match response {
            Response::Devices { devices, .. } => match first_match_on_chip(devices@) {
                None => res matches Err(e) && e.text()
                    == "the driver worker enumerated no match-on-chip device"@,
                Some(i) => if devices@[i].enroll_stages == 0 {
                    res matches Err(e) && e.text()
                        == "the driver worker reports a device that cannot enroll"@
                } else {
                    res == Ok::<DeviceInfo, Error>(devices@[i])
                },
            },
            _ => res matches Err(e) && e.text() == unexpected_text("device list"@, response),
        },
{
    match response {
        Response::Devices { devices, .. } => select_device(devices),
        _ => Err(unexpected("device list", &response)),
    }
}

/// Why the host refuses the next reply of an enrollment that has received `template` so far,
/// or `None` when it takes it.
pub open spec fn enrollment_refusal(template: Option<Seq<u8>>, response: Response) -> Option<
    Seq<char>,
> {
    match response {
        Response::Started { .. } => None,
        Response::EnrollProgress { .. } => None,
        Response::Enrolled { template_base64, .. } => match template_data_decoding(
            template_base64@,
        ) {
            Ok(_) => None,
            Err(problem) => Some(problem),
        },
        Response::Completed { .. } => if template is None {
            Some("the driver worker completed enrollment without a template"@)
        } else {
            None
        },
        _ => Some(unexpected_text("an enrollment event"@, response)),
    }
}

/// The template an enrollment holds after it takes the next reply.
pub open spec fn template_after(template: Option<Seq<u8>>, response: Response) -> Option<
    Seq<u8>,
> {
    match response {
        Response::Enrolled { template_base64, .. } => match template_data_decoding(
            template_base64@,
        ) {
            Ok(blob) => Some(blob),
            Err(_) => template,
        },
        Response::Completed { .. } => None,
        _ => template,
    }
}

/// What an enrollment's next reply asks of the host.
pub enum EnrollStep {
    /// Nothing to do; read the next reply.
    Continue,
    /// Report progress as `(completed_stages, total_stages)`, then read the next reply.
    Progress(u32, u32),
    /// The enrollment completed with the device's template.
    Finished(Vec<u8>),
}

/// The events of one enrollment, as they arrive.
///
/// `Completed` ends the operation, not the last progress event: a driver need not report its
/// final stage, and the template is what completes an enrollment.
pub struct EnrollmentEvents {
    template: Option<Vec<u8>>,
}

impl EnrollmentEvents {
    /// The template received so far, if any.
    pub closed spec fn template(&self) -> Option<Seq<u8>> {
        match self.template {
            Some(t) => Some(t@),
            None => None,
        }
    }

    /// Events of an enrollment that has not yet delivered its template.
    pub fn new() -> (events: EnrollmentEvents)
        ensures
            events.template() is None,
    {
        EnrollmentEvents { template: None }
    }

    /// Take the next reply of the enrollment.
    pub fn on_response(&mut self, response: Response) -> (res: Result<EnrollStep, Error>)
        ensures
            err_text(res) == enrollment_refusal(old(self).template(), response),
            res is Ok ==> final(self).template() == template_after(old(self).template(), response),
            match response {
                Response::Started { .. } => res matches Ok(EnrollStep::Continue)
                    && final(self).template() == old(self).template(),
                Response::EnrollProgress { completed_stages, total_stages, .. } => res matches Ok(
                    EnrollStep::Progress(c, t),
                ) && c == completed_stages && t == total_stages && final(self).template() == old(
                    self,
                ).template(),
                Response::Enrolled { template_base64, .. } => match template_data_decoding(
                    template_base64@,
                ) {
                    Ok(blob) => res matches Ok(EnrollStep::Continue) && final(self).template()
                        == Some(blob),
                    Err(problem) => res matches Err(e) && e.text() == problem,
                },
                Response::Completed { .. } => match old(self).template() {
                    Some(blob) => res matches Ok(EnrollStep::Finished(t)) && t@ == blob,
                    None => res matches Err(e) && e.text()
                        == "the driver worker completed enrollment without a template"@,
                },
                _ => res matches Err(e) && e.text() == unexpected_text(
                    "an enrollment event"@,
                    response,
                ),
            },
    {
        match response {
            Response::Started { .. } => Ok(EnrollStep::Continue),
            Response::EnrollProgress { completed_stages, total_stages, .. } => Ok(
                EnrollStep::Progress(completed_stages, total_stages),
            ),
            Response::Enrolled { template_base64, .. } => {
                let blob = decode_template_data(template_base64.as_str())?;
                self.template = Some(blob);
                Ok(EnrollStep::Continue)
            },
            Response::Completed { .. } => {
                match self.template.take() {
                    Some(blob) => Ok(EnrollStep::Finished(blob)),
                    None => Err(
                        Error::processing(
                            "the driver worker completed enrollment without a template",
                        ),
                    ),
                }
            },
            _ => Err(unexpected("an enrollment event", &response)),
        }
    }
}

/// The events of one verification, as they arrive.
pub struct VerificationEvents {
    verdict: Option<MatchVerdict>,
}

impl VerificationEvents {
    /// The verdict received so far, if any.
    pub closed spec fn verdict(&self) -> Option<MatchVerdict> {
        self.verdict
    }

    /// Events of a verification that has not yet delivered its verdict.
    pub fn new() -> (events: VerificationEvents)
        ensures
            events.verdict() is None,
    {
        VerificationEvents { verdict: None }
    }

    /// Take the next reply of the verification: `Some` with the verdict once it completed,
    /// `None` while more replies are due.
    pub fn on_response(&mut self, response: &Response) -> (res: Result<Option<MatchVerdict>, Error>)
        ensures
            match *response {
                Response::Started { .. } | Response::FingerPresent { .. }
                | Response::FingerRemoved { .. } => res == Ok::<Option<MatchVerdict>, Error>(None)
                    && final(self).verdict() == old(self).verdict(),
                Response::MatchResult { matched, .. } => res == Ok::<Option<MatchVerdict>, Error>(
                    None,
                ) && final(self).verdict() == Some(MatchVerdict { matched }),
                Response::Completed { .. } => match old(self).verdict() {
                    Some(verdict) => res == Ok::<Option<MatchVerdict>, Error>(Some(verdict)),
                    None => res matches Err(e) && e.text()
                        == "the driver worker completed verification without a verdict"@,
                },
                _ => res matches Err(e) && e.text() == unexpected_text(
                    "a verification event"@,
                    *response,
                ),
            },
    {
        match response {
            Response::Started { .. } | Response::FingerPresent { .. }
            | Response::FingerRemoved { .. } => Ok(None),
            Response::MatchResult { matched, .. } => {
                self.verdict = Some(MatchVerdict { matched: *matched });
                Ok(None)
            },
            Response::Completed { .. } => match self.verdict {
                Some(verdict) => Ok(Some(verdict)),
                None => Err(
                    Error::processing("the driver worker completed verification without a verdict"),
                ),
            },
            _ => Err(unexpected("a verification event", response)),
        }
    }
}

} // verus!
