//! The capture and template domain: validated images, capture metadata, minutiae, and the two
//! kinds of stored template.

use vstd::prelude::*;

use crate::error::{err_text, utf8_len, Error};
use crate::text::{append_decimal, debug_quoted, decimal_text, str_debug};

verus! {

/// Maximum packed Gray8 image size accepted by the host pipeline.
pub const MAX_IMAGE_BYTES: usize = 16 * 1024 * 1024;

/// Upper bound on one device-held template blob, before base64 expansion.
///
/// A match-on-chip blob is small by nature: the sensor keeps the biometric and hands the host
/// a reference it cannot interpret.
pub const MAX_DEVICE_TEMPLATE_BYTES: usize = 64 * 1024;

/// Longest capture profile identifier, in bytes.
pub const MAX_PROFILE_ID_BYTES: usize = 128;

/// The abstract content of a canonical image.
pub struct ImageView {
    pub width: u32,
    pub height: u32,
    pub x_resolution_ppi: u16,
    pub y_resolution_ppi: u16,
    pub pixels: Seq<u8>,
}

/// A valid image: non-zero geometry and resolution, and exactly `width * height` packed pixels
/// within the 16 MiB limit.
pub open spec fn image_wf(v: ImageView) -> bool {
    &&& v.width > 0
    &&& v.height > 0
    &&& v.x_resolution_ppi > 0
    &&& v.y_resolution_ppi > 0
    &&& v.pixels.len() == v.width * v.height
    &&& v.pixels.len() <= MAX_IMAGE_BYTES
}

/// The reason the given geometry and pixel count do not form an image, checked in this order,
/// or `None` when they do.
pub open spec fn image_problem(
    width: u32,
    height: u32,
    x_resolution_ppi: u16,
    y_resolution_ppi: u16,
    pixel_count: nat,
) -> Option<Seq<char>> {
    if width == 0 || height == 0 {
        Some("image dimensions must be non-zero"@)
    } else if x_resolution_ppi == 0 || y_resolution_ppi == 0 {
        Some("image resolution must be known and non-zero"@)
    } else if width * height > usize::MAX {
        Some("image dimensions overflow"@)
    } else if width * height > MAX_IMAGE_BYTES {
        Some("image exceeds the 16 MiB limit"@)
    } else if pixel_count != width * height {
        Some("pixel length does not match packed Gray8 dimensions"@)
    } else {
        None
    }
}

/// A validated packed Gray8 image.
///
/// Pixels are row-major with a top-left origin, X rightward, Y downward, and dark ridges.
#[derive(PartialEq, Eq)]
pub struct CanonicalImage {
    width: u32,
    height: u32,
    x_resolution_ppi: u16,
    y_resolution_ppi: u16,
    pixels: Vec<u8>,
}

/// The area `width * height`, refused when it overflows `usize`.
pub fn checked_pixel_count(width: usize, height: usize) -> (res: Result<usize, Error>)
    ensures
        match res {
            Ok(area) => width * height <= usize::MAX && area == width * height,
            Err(e) => width * height > usize::MAX && e.text() == "image dimensions overflow"@,
        },
{
    match width.checked_mul(height) {
        Some(area) => Ok(area),
        None => Err(Error::invalid("image dimensions overflow")),
    }
}

impl View for CanonicalImage {
    type V = ImageView;

    closed spec fn view(&self) -> ImageView {
        ImageView {
            width: self.width,
            height: self.height,
            x_resolution_ppi: self.x_resolution_ppi,
            y_resolution_ppi: self.y_resolution_ppi,
            pixels: self.pixels@,
        }
    }
}

impl Clone for CanonicalImage {
    fn clone(&self) -> (copy: CanonicalImage)
        ensures
            copy@ == self@,
    {
        proof {
            use_type_invariant(self);
        }
        let pixels = self.pixels.clone();
        assert(pixels@ =~= self.pixels@);
        CanonicalImage {
            width: self.width,
            height: self.height,
            x_resolution_ppi: self.x_resolution_ppi,
            y_resolution_ppi: self.y_resolution_ppi,
            pixels,
        }
    }
}

impl CanonicalImage {
    #[verifier::type_invariant]
    spec fn well_formed(&self) -> bool {
        image_wf(self@)
    }

    /// Validate dimensions, resolution, area, and exact packed pixel length.
    pub fn new(
        width: u32,
        height: u32,
        x_resolution_ppi: u16,
        y_resolution_ppi: u16,
        pixels: Vec<u8>,
    ) -> (res: Result<CanonicalImage, Error>)
        ensures
            err_text(res) == image_problem(
                width,
                height,
                x_resolution_ppi,
                y_resolution_ppi,
                pixels@.len(),
            ),
            res matches Ok(image) ==> image@ == (ImageView {
                width,
                height,
                x_resolution_ppi,
                y_resolution_ppi,
                pixels: pixels@,
            }),
    {
        if width == 0 || height == 0 {
            return Err(Error::invalid("image dimensions must be non-zero"));
        }
        if x_resolution_ppi == 0 || y_resolution_ppi == 0 {
            return Err(Error::invalid("image resolution must be known and non-zero"));
        }
        let area = checked_pixel_count(width as usize, height as usize)?;
        if area > MAX_IMAGE_BYTES {
            return Err(Error::invalid("image exceeds the 16 MiB limit"));
        }
        if pixels.len() != area {
            return Err(Error::invalid("pixel length does not match packed Gray8 dimensions"));
        }
        Ok(CanonicalImage { width, height, x_resolution_ppi, y_resolution_ppi, pixels })
    }

    /// Image width in pixels.
    pub fn width(&self) -> (w: u32)
        ensures
            w == self@.width,
            image_wf(self@),
    {
        proof {
            use_type_invariant(self);
        }
        self.width
    }

    /// Image height in pixels.
    pub fn height(&self) -> (h: u32)
        ensures
            h == self@.height,
            image_wf(self@),
    {
        proof {
            use_type_invariant(self);
        }
        self.height
    }

    /// Horizontal scan resolution in pixels per inch.
    pub fn x_resolution_ppi(&self) -> (ppi: u16)
        ensures
            ppi == self@.x_resolution_ppi,
            image_wf(self@),
    {
        proof {
            use_type_invariant(self);
        }
        self.x_resolution_ppi
    }

    /// Vertical scan resolution in pixels per inch.
    pub fn y_resolution_ppi(&self) -> (ppi: u16)
        ensures
            ppi == self@.y_resolution_ppi,
            image_wf(self@),
    {
        proof {
            use_type_invariant(self);
        }
        self.y_resolution_ppi
    }

    /// Borrow the packed pixels. Callers must treat them as sensitive biometric data.
    pub fn pixels(&self) -> (p: &[u8])
        ensures
            p@ == self@.pixels,
            image_wf(self@),
    {
        proof {
            use_type_invariant(self);
        }
        self.pixels.as_slice()
    }

    /// Whether two images hold the same geometry, resolution and pixels.
    pub fn same_as(&self, other: &CanonicalImage) -> (same: bool)
        ensures
            same == (self@ == other@),
    {
        if self.width != other.width || self.height != other.height || self.x_resolution_ppi
            != other.x_resolution_ppi || self.y_resolution_ppi != other.y_resolution_ppi
            || self.pixels.len() != other.pixels.len() {
            return false;
        }
        let mut i: usize = 0;
        while i < self.pixels.len()
            invariant
                0 <= i <= self.pixels@.len(),
                self.pixels@.len() == other.pixels@.len(),
                forall|j: int| 0 <= j < i ==> self.pixels@[j] == other.pixels@[j],
            decreases self.pixels@.len() - i,
        {
            if self.pixels[i] != other.pixels[i] {
                return false;
            }
            i += 1;
        }
        assert(self.pixels@ =~= other.pixels@);
        true
    }
}

/// Capture interaction shape.
#[derive(Clone, Copy, Debug, PartialEq, Eq, Structural)]
pub enum CaptureKind {
    /// A stationary finger press.
    Press,
    /// A swipe capture.
    Swipe,
    /// The capture shape is not known.
    Unknown,
}

/// Non-identifying metadata required to interpret a capture.
#[derive(Clone, Debug, PartialEq, Eq)]
pub struct CaptureMetadata {
    /// Sensor/capture geometry profile identifier.
    pub capture_profile_id: String,
    /// Press, swipe, or unknown capture shape.
    pub capture_kind: CaptureKind,
    /// Whether the source reports an incomplete capture.
    pub partial: bool,
    /// Horizontal scan resolution in pixels per inch.
    pub x_resolution_ppi: u16,
    /// Vertical scan resolution in pixels per inch.
    pub y_resolution_ppi: u16,
}

/// The reason capture metadata is refused, or `None` when it is valid.
pub open spec fn metadata_problem(metadata: CaptureMetadata) -> Option<Seq<char>> {
    if utf8_len(metadata.capture_profile_id@) == 0 || utf8_len(metadata.capture_profile_id@)
        > MAX_PROFILE_ID_BYTES {
        Some("capture profile ID is empty or too long"@)
    } else if metadata.x_resolution_ppi == 0 || metadata.y_resolution_ppi == 0 {
        Some("capture resolution must be known and non-zero"@)
    } else {
        None
    }
}

impl CaptureMetadata {
    /// Check the profile identifier and the resolution.
    pub fn validate(&self) -> (res: Result<(), Error>)
        ensures
            err_text(res) == metadata_problem(*self),
    {
        let length = self.capture_profile_id.as_str().len();
        if length == 0 || length > MAX_PROFILE_ID_BYTES {
            return Err(Error::invalid("capture profile ID is empty or too long"));
        }
        if self.x_resolution_ppi == 0 || self.y_resolution_ppi == 0 {
            return Err(Error::invalid("capture resolution must be known and non-zero"));
        }
        Ok(())
    }
}

/// One quality-bearing minutia stored in a versioned template.
#[derive(Clone, Copy, PartialEq, Eq, Structural)]
pub struct MinutiaRecord {
    /// NIST X coordinate, bottom-left origin.
    pub x: i32,
    /// NIST Y coordinate, bottom-left origin.
    pub y: i32,
    /// NIST ridge orientation in degrees.
    pub theta: i32,
    /// MINDTCT reliability, 0 through 100.
    pub quality: u8,
}

/// One enrollment capture's quality-bearing minutiae.
#[derive(Clone, PartialEq, Eq)]
pub struct TemplateSample {
    /// Mean minutia quality for policy validation.
    pub mean_quality: u8,
    /// Detected minutiae. This payload is sensitive biometric data.
    pub minutiae: Vec<MinutiaRecord>,
}

/// A host-image template: the host holds the pixels, extracts minutiae, and does the matching.
#[derive(Clone, PartialEq, Eq)]
pub struct HostImageTemplate {
    /// Template schema major version.
    pub schema_major: u32,
    /// Extraction/matching engine identifier.
    pub engine_id: String,
    /// Extraction/matching engine version.
    pub engine_version: String,
    /// Capture profile shared by all enrollment samples.
    pub capture_profile_id: String,
    /// Experimental fixed matching policy name.
    pub policy: String,
    /// Quality-bearing enrollment samples.
    pub samples: Vec<TemplateSample>,
}

/// A match-on-chip template: an opaque blob the device produced and only the device can read.
///
/// `driver_id` and `device_profile_id` record where the blob came from, because a blob is
/// meaningless to any other driver or model.
#[derive(Clone, PartialEq, Eq)]
pub struct DeviceTemplate {
    /// Template schema major version.
    pub schema_major: u32,
    /// The driver that produced the blob. A blob is not portable across drivers.
    pub driver_id: String,
    /// The device model that produced the blob.
    pub device_profile_id: String,
    /// Experimental fixed matching policy name.
    pub policy: String,
    /// The device's own template. Opaque here, and sensitive biometric data.
    pub blob: Vec<u8>,
}

/// A stored template, discriminated by where the matching happens.
#[derive(Clone, PartialEq, Eq)]
pub enum TemplateRecord {
    /// Matching runs on the host over NBIS minutiae.
    HostImage(HostImageTemplate),
    /// Matching runs on the sensor over its own opaque template.
    MatchOnChip(DeviceTemplate),
}

impl TemplateRecord {
    /// The schema major version this record declares, whichever arm it is.
    pub open spec fn spec_schema_major(&self) -> u32 {
        match self {
            TemplateRecord::HostImage(template) => template.schema_major,
            TemplateRecord::MatchOnChip(template) => template.schema_major,
        }
    }

    /// The matching policy this record declares, whichever arm it is.
    pub open spec fn spec_policy(&self) -> Seq<char> {
        match self {
            TemplateRecord::HostImage(template) => template.policy@,
            TemplateRecord::MatchOnChip(template) => template.policy@,
        }
    }

    /// The schema major version this record declares, whichever arm it is.
    pub fn schema_major(&self) -> (major: u32)
        ensures
            major == self.spec_schema_major(),
    {
        match self {
            TemplateRecord::HostImage(template) => template.schema_major,
            TemplateRecord::MatchOnChip(template) => template.schema_major,
        }
    }

    /// The matching policy this record declares, whichever arm it is.
    pub fn policy(&self) -> (policy: &str)
        ensures
            policy@ == self.spec_policy(),
    {
        match self {
            TemplateRecord::HostImage(template) => template.policy.as_str(),
            TemplateRecord::MatchOnChip(template) => template.policy.as_str(),
        }
    }
}

/// Result of one host-side, fixed-policy verification.
#[derive(Clone, Copy, Debug, PartialEq, Eq, Structural)]
pub struct VerificationResult {
    /// Maximum BOZORTH3 score across enrollment samples.
    pub score: u32,
    /// Fixed experimental acceptance threshold.
    pub threshold: u32,
    /// Whether `score >= threshold`.
    pub matched: bool,
    /// Probe's mean MINDTCT minutia quality.
    pub probe_quality: u8,
}

/// Result of one on-device comparison: just the verdict, since the sensor publishes no score.
#[derive(Clone, Copy, Debug, PartialEq, Eq, Structural)]
pub struct MatchVerdict {
    /// Whether the device recognised the presented finger.
    pub matched: bool,
}

impl CanonicalImage {
    /// The redacted debug rendering: geometry and resolution, never a pixel.
    pub open spec fn spec_debug_text(&self) -> Seq<char> {
        "CanonicalImage { width: "@ + decimal_text(self@.width as nat) + ", height: "@
            + decimal_text(self@.height as nat) + ", x_resolution_ppi: "@ + decimal_text(
            self@.x_resolution_ppi as nat,
        ) + ", y_resolution_ppi: "@ + decimal_text(self@.y_resolution_ppi as nat)
            + ", pixels: \"<redacted>\" }"@
    }

    /// The redacted debug rendering: geometry and resolution, never a pixel.
    pub fn debug_text(&self) -> (text: String)
        ensures
            text@ == self.spec_debug_text(),
    {
        let mut text = "CanonicalImage { width: ".to_string();
        append_decimal(&mut text, self.width as u64);
        text.append(", height: ");
        append_decimal(&mut text, self.height as u64);
        text.append(", x_resolution_ppi: ");
        append_decimal(&mut text, self.x_resolution_ppi as u64);
        text.append(", y_resolution_ppi: ");
        append_decimal(&mut text, self.y_resolution_ppi as u64);
        text.append(", pixels: \"<redacted>\" }");
        text
    }
}

impl MinutiaRecord {
    /// The redacted debug rendering, the same for every minutia.
    pub fn debug_text(&self) -> (text: String)
        ensures
            text@ == "MinutiaRecord(<redacted>)"@,
    {
        "MinutiaRecord(<redacted>)".to_string()
    }
}

impl TemplateSample {
    /// The redacted debug rendering: the mean quality and the number of minutiae.
    pub open spec fn spec_debug_text(&self) -> Seq<char> {
        "TemplateSample { mean_quality: "@ + decimal_text(self.mean_quality as nat)
            + ", minutiae: <"@ + decimal_text(self.minutiae@.len()) + " redacted> }"@
    }

    /// The redacted debug rendering: the mean quality and the number of minutiae.
    pub fn debug_text(&self) -> (text: String)
        ensures
            text@ == self.spec_debug_text(),
    {
        let mut text = "TemplateSample { mean_quality: ".to_string();
        append_decimal(&mut text, self.mean_quality as u64);
        text.append(", minutiae: <");
        append_decimal(&mut text, self.minutiae.len() as u64);
        text.append(" redacted> }");
        text
    }
}

impl HostImageTemplate {
    /// The redacted debug rendering: the descriptive fields and the number of samples.
    pub open spec fn spec_debug_text(&self) -> Seq<char> {
        "HostImageTemplate { schema_major: "@ + decimal_text(self.schema_major as nat)
            + ", engine_id: "@ + str_debug(self.engine_id@) + ", engine_version: "@ + str_debug(
            self.engine_version@,
        ) + ", capture_profile_id: "@ + str_debug(self.capture_profile_id@) + ", policy: "@
            + str_debug(self.policy@) + ", samples: <"@ + decimal_text(self.samples@.len())
            + " redacted> }"@
    }

    /// The redacted debug rendering: the descriptive fields and the number of samples.
    pub fn debug_text(&self) -> (text: String)
        ensures
            text@ == self.spec_debug_text(),
    {
        let mut text = "HostImageTemplate { schema_major: ".to_string();
        append_decimal(&mut text, self.schema_major as u64);
        text.append(", engine_id: ");
        text.append(debug_quoted(self.engine_id.as_str()).as_str());
        text.append(", engine_version: ");
        text.append(debug_quoted(self.engine_version.as_str()).as_str());
        text.append(", capture_profile_id: ");
        text.append(debug_quoted(self.capture_profile_id.as_str()).as_str());
        text.append(", policy: ");
        text.append(debug_quoted(self.policy.as_str()).as_str());
        text.append(", samples: <");
        append_decimal(&mut text, self.samples.len() as u64);
        text.append(" redacted> }");
        text
    }
}

impl DeviceTemplate {
    /// The redacted debug rendering: the descriptive fields and the blob's length only.
    pub open spec fn spec_debug_text(&self) -> Seq<char> {
        "DeviceTemplate { schema_major: "@ + decimal_text(self.schema_major as nat)
            + ", driver_id: "@ + str_debug(self.driver_id@) + ", device_profile_id: "@ + str_debug(
            self.device_profile_id@,
        ) + ", policy: "@ + str_debug(self.policy@) + ", blob: <"@ + decimal_text(
            self.blob@.len(),
        ) + " bytes redacted> }"@
    }

    /// The redacted debug rendering: the descriptive fields and the blob's length only.
    pub fn debug_text(&self) -> (text: String)
        ensures
            text@ == self.spec_debug_text(),
    {
        let mut text = "DeviceTemplate { schema_major: ".to_string();
        append_decimal(&mut text, self.schema_major as u64);
        text.append(", driver_id: ");
        text.append(debug_quoted(self.driver_id.as_str()).as_str());
        text.append(", device_profile_id: ");
        text.append(debug_quoted(self.device_profile_id.as_str()).as_str());
        text.append(", policy: ");
        text.append(debug_quoted(self.policy.as_str()).as_str());
        text.append(", blob: <");
        append_decimal(&mut text, self.blob.len() as u64);
        text.append(" bytes redacted> }");
        text
    }
}

impl TemplateRecord {
    /// The redacted debug rendering: the arm, around its own redacted rendering.
    pub open spec fn spec_debug_text(&self) -> Seq<char> {
        match self {
            TemplateRecord::HostImage(t) => "HostImage("@ + t.spec_debug_text() + ")"@,
            TemplateRecord::MatchOnChip(t) => "MatchOnChip("@ + t.spec_debug_text() + ")"@,
        }
    }

    /// The redacted debug rendering: the arm, around its own redacted rendering.
    pub fn debug_text(&self) -> (text: String)
        ensures
            text@ == self.spec_debug_text(),
    {
        let (mut text, inner) = match self {
            TemplateRecord::HostImage(t) => ("HostImage(".to_string(), t.debug_text()),
            TemplateRecord::MatchOnChip(t) => ("MatchOnChip(".to_string(), t.debug_text()),
        };
        text.append(inner.as_str());
        text.append(")");
        text
    }
}

} // verus!
