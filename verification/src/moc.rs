//! The match-on-chip seam.
//!
//! A match-on-chip sensor holds the matcher: the host never sees a finger, receives an opaque
//! template it cannot read, and hands that template back at verification time for the device to
//! compare against a live scan. There is an enrollment that yields a blob and a verification
//! that yields a verdict; no image, no minutiae, no score.

use vstd::prelude::*;

use crate::domain::{DeviceTemplate, MatchVerdict, TemplateRecord};
use crate::engine::{DEVICE_POLICY_NAME, TEMPLATE_SCHEMA_MAJOR};
use crate::error::{err_text, Error};
use crate::template::{
    device_fields_problem, device_template_problem, template_problem, validate_device_template,
    validate_template,
};
use crate::text::str_eq;

verus! {

/// A sensor that enrolls and matches internally.
///
/// The enrollment callback reports progress as `(completed_stages, total_stages)`.
///
/// A driver is not obliged to report the final stage: a driver may report a stage only once the
/// following poll asks for another presentation, so the poll after the last presentation hands
/// over the template and reports nothing. Treat the returned template as the completion signal;
/// waiting for `completed == total` hangs.
///
/// The spec functions name what a device is and does, for contracts to speak of. Verified
/// callers never see their default bodies: for a device type they are known only through the
/// methods' `ensures`, which every implementation promises.
pub trait MatchOnChipDevice {
    /// The identifier of the driver that backs this device.
    open spec fn spec_driver_id(&self) -> Seq<char> {
        arbitrary()
    }

    /// The identifier of the device model.
    open spec fn spec_device_profile_id(&self) -> Seq<char> {
        arbitrary()
    }

    /// Whether this device may answer an enrollment that reports progress through
    /// `on_progress` with `outcome`: its template, or its failure.
    open spec fn enrolls_as<F>(&self, on_progress: F, outcome: Result<Seq<u8>, Error>) -> bool {
        arbitrary()
    }

    /// Whether this device may answer a comparison of a live finger against `blob` with
    /// `outcome`: its verdict, or its failure.
    open spec fn verifies_as(&self, blob: Seq<u8>, outcome: Result<MatchVerdict, Error>) -> bool {
        arbitrary()
    }

    /// The driver that backs this device. Recorded in every template it produces.
    fn driver_id(&self) -> (id: &str)
        ensures
            id@ == self.spec_driver_id(),
    ;

    /// The device model. Recorded in every template it produces.
    fn device_profile_id(&self) -> (id: &str)
        ensures
            id@ == self.spec_device_profile_id(),
    ;

    /// How many presentations a full enrollment needs, as the device reports it.
    fn enroll_stages(&self) -> u32;

    /// Enroll a finger and return the device's own template.
    fn enroll<F: FnMut(u32, u32)>(&mut self, on_progress: &mut F) -> (res: Result<Vec<u8>, Error>)
        ensures
            old(self).enrolls_as(*old(on_progress), blob_outcome(res)),
    ;

    /// Ask the device to compare a live finger against a template it previously produced.
    fn verify(&mut self, blob: &[u8]) -> (res: Result<MatchVerdict, Error>)
        ensures
            old(self).verifies_as(blob@, res),
    ;
}

/// An enrollment's outcome with the template taken by its bytes.
pub open spec fn blob_outcome(res: Result<Vec<u8>, Error>) -> Result<Seq<u8>, Error> {
    match res {
        Ok(blob) => Ok(blob@),
        Err(e) => Err(e),
    }
}

/// Build the storable template for a blob that a device returned, and check it.
pub fn device_template_from(driver_id: &str, device_profile_id: &str, blob: Vec<u8>) -> (res:
    Result<DeviceTemplate, Error>)
    ensures
        match res {
            Ok(template) => {
                &&& template.schema_major == TEMPLATE_SCHEMA_MAJOR
                &&& template.driver_id@ == driver_id@
                &&& template.device_profile_id@ == device_profile_id@
                &&& template.policy@ == DEVICE_POLICY_NAME@
                &&& template.blob@ == blob@
                &&& device_template_problem(template) is None
            },
            Err(e) => Some(e.text()) == device_fields_problem(
                TEMPLATE_SCHEMA_MAJOR,
                DEVICE_POLICY_NAME@,
                driver_id@,
                device_profile_id@,
                blob@.len(),
            ),
        },
{
    let template = DeviceTemplate {
        schema_major: TEMPLATE_SCHEMA_MAJOR,
        driver_id: driver_id.to_string(),
        device_profile_id: device_profile_id.to_string(),
        policy: DEVICE_POLICY_NAME.to_string(),
        blob,
    };
    validate_device_template(&template)?;
    Ok(template)
}

/// The reason a stored device template cannot be handed to a device backed by `driver_id`
/// and of model `device_profile_id`, in the order checked, or `None`.
pub open spec fn provenance_problem(
    template: DeviceTemplate,
    driver_id: Seq<char>,
    device_profile_id: Seq<char>,
) -> Option<Seq<char>> {
    if device_template_problem(template) is Some {
        device_template_problem(template)
    } else if template.driver_id@ != driver_id {
        Some("template was enrolled by a different driver"@)
    } else if template.device_profile_id@ != device_profile_id {
        Some("template was enrolled on a different device model"@)
    } else {
        None
    }
}

/// Check that a stored template is valid and was produced by this driver and device model.
///
/// A blob is a reference into one particular sensor's world; handing it to a different driver
/// or model is not a comparison that can fail honestly, so it is refused rather than attempted.
pub fn check_provenance(template: &DeviceTemplate, driver_id: &str, device_profile_id: &str) -> (res:
    Result<(), Error>)
    ensures
        err_text(res) == provenance_problem(*template, driver_id@, device_profile_id@),
{
    validate_device_template(template)?;
    if !str_eq(template.driver_id.as_str(), driver_id) {
        return Err(Error::invalid("template was enrolled by a different driver"));
    }
    if !str_eq(template.device_profile_id.as_str(), device_profile_id) {
        return Err(Error::invalid("template was enrolled on a different device model"));
    }
    Ok(())
}

/// Enroll through a device and build a validated, storable template.
///
/// The progress callback is handed to the device as it is. A device failure is returned as it
/// came; a blob the device returns is recorded with the driver and device model the device
/// reported before enrolling, and refused when it is empty or too large.
pub fn enroll_device<D: MatchOnChipDevice, F: FnMut(u32, u32)>(
    device: &mut D,
    on_progress: &mut F,
) -> (res: Result<DeviceTemplate, Error>)
    ensures
        match res {
            Ok(template) => {
                &&& old(device).enrolls_as(*old(on_progress), Ok(template.blob@))
                &&& template.schema_major == TEMPLATE_SCHEMA_MAJOR
                &&& template.driver_id@ == old(device).spec_driver_id()
                &&& template.device_profile_id@ == old(device).spec_device_profile_id()
                &&& template.policy@ == DEVICE_POLICY_NAME@
                &&& device_template_problem(template) is None
            },
            Err(e) => {
                ||| old(device).enrolls_as(*old(on_progress), Err(e))
                ||| exists|blob: Seq<u8>|
                    #![trigger old(device).enrolls_as(*old(on_progress), Ok(blob))]
                    old(device).enrolls_as(*old(on_progress), Ok(blob)) && device_fields_problem(
                        TEMPLATE_SCHEMA_MAJOR,
                        DEVICE_POLICY_NAME@,
                        old(device).spec_driver_id(),
                        old(device).spec_device_profile_id(),
                        blob.len(),
                    ) == Some(e.text())
            },
        },
{
    let driver_id = device.driver_id().to_string();
    let device_profile_id = device.device_profile_id().to_string();
    let blob = device.enroll(on_progress)?;
    device_template_from(driver_id.as_str(), device_profile_id.as_str(), blob)
}

/// Verify a live finger against a stored device template.
///
/// The template's validity and provenance are checked first, without asking the device; only a
/// template this device produced is handed to it, as its stored blob, and the device's verdict
/// or failure is returned unchanged, never turned into a non-match.
pub fn verify_device<D: MatchOnChipDevice>(device: &mut D, template: &DeviceTemplate) -> (res:
    Result<MatchVerdict, Error>)
    ensures
        match provenance_problem(
            *template,
            old(device).spec_driver_id(),
            old(device).spec_device_profile_id(),
        ) {
            Some(problem) => res matches Err(e) && e.text() == problem && *final(device) == *old(
                device,
            ),
            None => old(device).verifies_as(template.blob@, res),
        },
{
    let driver_id = device.driver_id().to_string();
    let device_profile_id = device.device_profile_id().to_string();
    check_provenance(template, driver_id.as_str(), device_profile_id.as_str())?;
    device.verify(template.blob.as_slice())
}

/// The reason a stored template cannot go to a match-on-chip device, or `None` for a valid
/// device template.
pub open spec fn device_record_problem(record: TemplateRecord) -> Option<Seq<char>> {
    if template_problem(record) is Some {
        template_problem(record)
    } else {
        match record {
            TemplateRecord::HostImage(_) => Some(
                "this template matches on the host; verify it against a capture, not a device"@,
            ),
            TemplateRecord::MatchOnChip(_) => None,
        }
    }
}

/// The device template a stored record holds, refused when the record is invalid or matches on
/// the host: a host-image template is matched from pixels and means nothing to a sensor that
/// expects its own blob back.
pub fn device_template_record(record: TemplateRecord) -> (res: Result<DeviceTemplate, Error>)
    ensures
        err_text(res) == device_record_problem(record),
        res matches Ok(template) ==> record == TemplateRecord::MatchOnChip(template),
{
    validate_template(&record)?;
    match record {
        TemplateRecord::MatchOnChip(template) => Ok(template),
        TemplateRecord::HostImage(_) => Err(
            Error::invalid(
                "this template matches on the host; verify it against a capture, not a device",
            ),
        ),
    }
}

} // verus!
