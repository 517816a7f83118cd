//! The fixed host-image matching engine: its policy constants, capture analysis over MINDTCT,
//! enrollment, and verification over BOZORTH3.

use vstd::prelude::*;

use crate::domain::{
    metadata_problem, CanonicalImage, CaptureMetadata, HostImageTemplate, ImageView,
    MinutiaRecord, TemplateRecord, TemplateSample, VerificationResult,
};
use crate::error::{err_text, Error};
use crate::template::{quality_sum, rounded_mean, template_problem, validate_template};
use crate::text::{append_decimal, decimal_text, str_eq};

verus! {

/// Fixed enrollment sample count.
pub const ENROLLMENT_SAMPLES: usize = 3;

/// Minimum accepted mean MINDTCT minutia quality on the 0–100 scale.
pub const MIN_MEAN_MINUTIA_QUALITY: u8 = 25;

/// Fixed experimental BOZORTH3 acceptance threshold.
pub const ACCEPT_THRESHOLD: u32 = 40;

/// Template schema major version written and accepted by this build.
pub const TEMPLATE_SCHEMA_MAJOR: u32 = 2;

/// Fixed, explicitly experimental host matching policy name.
pub const POLICY_NAME: &'static str = "experimental-nbis-40-v1";

/// Matching policy of match-on-chip templates: the device decides.
pub const DEVICE_POLICY_NAME: &'static str = "device-match-v1";

/// Engine identifier persisted in host-image templates.
pub const ENGINE_ID: &'static str = "nbis-mindtct-bozorth3";

/// Engine version persisted in host-image templates.
pub const ENGINE_VERSION: &'static str = "fprint-mindtct-0.1.0+fprint-bozorth3-0.1.0";

/// Fewest minutiae a capture or a stored sample must carry: the matcher's own minimum.
pub const MIN_MINUTIAE: usize = 10;

/// Reads `fprint_bozorth3::MIN_COMPUTABLE_BOZORTH_MINUTIAE`, below which the matcher cannot
/// score a print. Claimed: its value is 10, as the crate's source declares it.
#[verifier::external_body]
pub(crate) fn bozorth_minimum_minutiae() -> (minimum: usize)
    ensures
        minimum == MIN_MINUTIAE,
{
    fprint_bozorth3::MIN_COMPUTABLE_BOZORTH_MINUTIAE
}

/// Smallest image side MINDTCT can process: `fprint_mindtct::MIN_DETECTABLE_DIM`.
pub const MINDTCT_MIN_DIMENSION: usize = 25;

/// The minutiae MINDTCT detects in a row-major Gray8 buffer of the given geometry and scan
/// resolution, each as `(x, y, theta, quality)` in its NIST `xyt` form.
pub uninterp spec fn mindtct_minutiae(
    pixels: Seq<u8>,
    width: usize,
    height: usize,
    ppi: u16,
) -> Seq<(i32, i32, i32, i32)>;

/// Whether MINDTCT accepts a buffer of `len` bytes as a `width` by `height` image.
pub open spec fn mindtct_accepts(len: nat, width: nat, height: nat) -> bool {
    &&& width <= i32::MAX && height <= i32::MAX
    &&& width * height <= i32::MAX
    &&& width >= MINDTCT_MIN_DIMENSION && height >= MINDTCT_MIN_DIMENSION
    &&& len >= width * height
}

/// The text of MINDTCT's refusal of a buffer of `len` bytes as a `width` by `height` image.
pub open spec fn mindtct_refusal(len: nat, width: nat, height: nat) -> Seq<char> {
    let size = decimal_text(width) + "x"@ + decimal_text(height);
    if width > i32::MAX || height > i32::MAX || width * height > i32::MAX {
        "image "@ + size + " is too large: each dimension must be at most 2147483647"@
    } else if width < MINDTCT_MIN_DIMENSION || height < MINDTCT_MIN_DIMENSION {
        "image "@ + size + " is too small to detect minutiae: each dimension must be at least 25 pixels"@
    } else {
        "grayscale buffer holds "@ + decimal_text(len) + " bytes, need "@ + decimal_text(
            width * height,
        ) + " for a "@ + size + " image"@
    }
}

/// Runs `fprint_mindtct::detect_minutiae` on the buffer, first wrapping it in the
/// `fprint_mindtct::GrayImage` that the detector takes, through `GrayImage::new`.
///
/// Claimed, from the crate's source: `GrayImage::new` accepts exactly the geometry that
/// `mindtct_accepts` describes, and otherwise fails with the text `mindtct_refusal` gives; the
/// detected minutiae are a function of the pixels, the geometry and the resolution alone.
#[verifier::external_body]
fn mindtct_detect(pixels: &[u8], width: usize, height: usize, ppi: u16) -> (res: Result<
    Vec<(i32, i32, i32, i32)>,
    String,
>)
    ensures
        match res {
            Ok(detected) => mindtct_accepts(pixels@.len(), width as nat, height as nat)
                && detected@ == mindtct_minutiae(pixels@, width, height, ppi),
            Err(text) => !mindtct_accepts(pixels@.len(), width as nat, height as nat) && text@
                == mindtct_refusal(pixels@.len(), width as nat, height as nat),
        },
{
    match fprint_mindtct::GrayImage::new(pixels, width, height, ppi) {
        Ok(image) => Ok(
            fprint_mindtct::detect_minutiae(image).iter().map(
                |m| (m.x, m.y, m.theta, m.quality),
            ).collect(),
        ),
        Err(error) => Err(error.to_string()),
    }
}

/// Integer summary of one analysed capture; it holds no pixel and no minutia.
#[derive(Clone, Copy, Debug, PartialEq, Eq, Structural)]
pub struct CaptureSummary {
    /// Validated image width.
    pub width: u32,
    /// Validated image height.
    pub height: u32,
    /// Validated horizontal resolution.
    pub x_resolution_ppi: u16,
    /// Validated vertical resolution.
    pub y_resolution_ppi: u16,
    /// Darkest-to-lightest pixel range.
    pub dynamic_range: u8,
    /// Number of MINDTCT minutiae.
    pub minutiae_count: usize,
    /// Sum of the MINDTCT qualities, each on the 0–100 scale.
    pub quality_sum: u128,
}

/// The darkest pixel, or 255 when there is none.
pub open spec fn darkest(pixels: Seq<u8>) -> u8
    decreases pixels.len(),
{
    if pixels.len() == 0 {
        255
    } else {
        let rest = darkest(pixels.drop_last());
        if pixels.last() < rest {
            pixels.last()
        } else {
            rest
        }
    }
}

/// The lightest pixel, or 0 when there is none.
pub open spec fn lightest(pixels: Seq<u8>) -> u8
    decreases pixels.len(),
{
    if pixels.len() == 0 {
        0
    } else {
        let rest = lightest(pixels.drop_last());
        if pixels.last() > rest {
            pixels.last()
        } else {
            rest
        }
    }
}

/// Lightest minus darkest pixel, or 0 when that is negative.
pub open spec fn dynamic_range(pixels: Seq<u8>) -> u8 {
    if lightest(pixels) >= darkest(pixels) {
        (lightest(pixels) - darkest(pixels)) as u8
    } else {
        0
    }
}

/// A detected minutia as stored: its quality taken as a byte.
pub open spec fn record_of(m: (i32, i32, i32, i32)) -> MinutiaRecord {
    MinutiaRecord { x: m.0, y: m.1, theta: m.2, quality: m.3 as u8 }
}

/// The detected minutiae as stored records.
pub open spec fn records_of(detected: Seq<(i32, i32, i32, i32)>) -> Seq<MinutiaRecord> {
    Seq::new(detected.len(), |i: int| record_of(detected[i]))
}

/// Every detected quality fits a byte.
pub open spec fn qualities_fit(detected: Seq<(i32, i32, i32, i32)>) -> bool {
    forall|i: int| 0 <= i < detected.len() ==> 0 <= #[trigger] detected[i].3 <= 255
}

/// The summary of an image and the minutiae detected in it.
pub open spec fn summary_of(image: ImageView, detected: Seq<(i32, i32, i32, i32)>) -> CaptureSummary {
    CaptureSummary {
        width: image.width,
        height: image.height,
        x_resolution_ppi: image.x_resolution_ppi,
        y_resolution_ppi: image.y_resolution_ppi,
        dynamic_range: dynamic_range(image.pixels),
        minutiae_count: detected.len() as usize,
        quality_sum: quality_sum(records_of(detected)) as u128,
    }
}

/// The mean quality stored with a sample: the rounded mean, or 0 when nothing was detected.
pub open spec fn sample_mean(detected: Seq<(i32, i32, i32, i32)>) -> u8 {
    if detected.len() == 0 {
        0
    } else {
        rounded_mean(quality_sum(records_of(detected)), detected.len()) as u8
    }
}

/// The reason the capture's metadata or resolution rules out analysis, in the order checked.
pub open spec fn resolution_problem(image: ImageView, metadata: CaptureMetadata) -> Option<
    Seq<char>,
> {
    if metadata_problem(metadata) is Some {
        metadata_problem(metadata)
    } else if metadata.partial {
        Some("partial captures are not accepted by the M0 policy"@)
    } else if image.x_resolution_ppi != metadata.x_resolution_ppi || image.y_resolution_ppi
        != metadata.y_resolution_ppi {
        Some("image and capture metadata resolutions differ"@)
    } else if image.x_resolution_ppi != image.y_resolution_ppi {
        Some("M0 NBIS processing requires equal X and Y resolution"@)
    } else {
        None
    }
}

/// What MINDTCT finds in the image.
pub open spec fn image_minutiae(image: ImageView) -> Seq<(i32, i32, i32, i32)> {
    mindtct_minutiae(
        image.pixels,
        image.width as usize,
        image.height as usize,
        image.x_resolution_ppi,
    )
}

/// The minutiae detected in a capture, or the reason there are none to use.
pub open spec fn detection_outcome(image: ImageView, metadata: CaptureMetadata) -> Result<
    Seq<(i32, i32, i32, i32)>,
    Seq<char>,
> {
    match resolution_problem(image, metadata) {
        Some(problem) => Err(problem),
        None => if !mindtct_accepts(image.pixels.len(), image.width as nat, image.height as nat) {
            Err(
                "MINDTCT rejected image geometry: "@ + mindtct_refusal(
                    image.pixels.len(),
                    image.width as nat,
                    image.height as nat,
                ),
            )
        } else if !qualities_fit(image_minutiae(image)) {
            Err("MINDTCT emitted invalid quality"@)
        } else {
            Ok(image_minutiae(image))
        },
    }
}

/// The minutiae of a capture that the enrollment and probe policy accepts, or the reason it
/// refuses the capture.
pub open spec fn analysis_outcome(image: ImageView, metadata: CaptureMetadata) -> Result<
    Seq<(i32, i32, i32, i32)>,
    Seq<char>,
> {
    match detection_outcome(image, metadata) {
        Err(problem) => Err(problem),
        Ok(detected) => if detected.len() < MIN_MINUTIAE {
            Err(
                "capture has "@ + decimal_text(detected.len()) + " minutiae; at least 10 are required"@,
            )
        } else if quality_sum(records_of(detected)) < MIN_MEAN_MINUTIA_QUALITY * detected.len() {
            Err("capture mean minutia quality is below 25"@)
        } else {
            Ok(detected)
        },
    }
}

proof fn lemma_quality_sum_bound(records: Seq<MinutiaRecord>)
    ensures
        quality_sum(records) <= 255 * records.len(),
    decreases records.len(),
{
    if records.len() > 0 {
        lemma_quality_sum_bound(records.drop_last());
    }
}

/// Summarise an image and the minutiae MINDTCT detected in it, and keep those minutiae as a
/// template sample; fails when a detected quality does not fit a byte.
pub fn summarize_detection(image: &CanonicalImage, detected: &Vec<(i32, i32, i32, i32)>) -> (res:
    Result<(CaptureSummary, TemplateSample), Error>)
    ensures
        match res {
            Ok((summary, sample)) => qualities_fit(detected@) && summary == summary_of(
                image@,
                detected@,
            ) && summary.minutiae_count == detected@.len() && summary.quality_sum == quality_sum(
                records_of(detected@),
            ) && sample.minutiae@ == records_of(detected@) && sample.mean_quality == sample_mean(
                detected@,
            ),
            Err(e) => !qualities_fit(detected@) && e.text() == "MINDTCT emitted invalid quality"@,
        },
{
    let mut records: Vec<MinutiaRecord> = Vec::new();
    let mut sum: u128 = 0;
    let mut i: usize = 0;
    while i < detected.len()
        invariant
            0 <= i <= detected@.len(),
            records@ =~= records_of(detected@.take(i as int)),
            sum == quality_sum(records@),
            sum <= 255 * i,
            forall|j: int| 0 <= j < i ==> 0 <= #[trigger] detected@[j].3 <= 255,
        decreases detected@.len() - i,
    {
        let (x, y, theta, quality) = detected[i];
        if quality < 0 || quality > 255 {
            return Err(Error::processing("MINDTCT emitted invalid quality"));
        }
        let record = MinutiaRecord { x, y, theta, quality: quality as u8 };
        let ghost before = records@;
        records.push(record);
        assert(records@.drop_last() =~= before);
        sum = sum + quality as u128;
        i += 1;
        assert(records@ =~= records_of(detected@.take(i as int)));
    }
    assert(detected@.take(i as int) =~= detected@);
    let count = detected.len();
    let mean: u8 = if count == 0 {
        0
    } else {
        proof {
            lemma_quality_sum_bound(records@);
            assert((sum + count / 2) / (count as int) <= 255) by (nonlinear_arith)
                requires
                    sum <= 255 * count,
                    count > 0,
            ;
        }
        ((sum + (count as u128) / 2) / (count as u128)) as u8
    };
    let pixels = image.pixels();
    let mut darkest_seen: u8 = 255;
    let mut lightest_seen: u8 = 0;
    let mut k: usize = 0;
    while k < pixels.len()
        invariant
            0 <= k <= pixels@.len(),
            darkest_seen == darkest(pixels@.take(k as int)),
            lightest_seen == lightest(pixels@.take(k as int)),
        decreases pixels@.len() - k,
    {
        assert(pixels@.take(k + 1).drop_last() =~= pixels@.take(k as int));
        if pixels[k] < darkest_seen {
            darkest_seen = pixels[k];
        }
        if pixels[k] > lightest_seen {
            lightest_seen = pixels[k];
        }
        k += 1;
    }
    assert(pixels@.take(k as int) =~= pixels@);
    let range = if lightest_seen >= darkest_seen {
        lightest_seen - darkest_seen
    } else {
        0
    };
    let summary = CaptureSummary {
        width: image.width(),
        height: image.height(),
        x_resolution_ppi: image.x_resolution_ppi(),
        y_resolution_ppi: image.y_resolution_ppi(),
        dynamic_range: range,
        minutiae_count: count,
        quality_sum: sum,
    };
    Ok((summary, TemplateSample { mean_quality: mean, minutiae: records }))
}

fn resolution_check(image: &CanonicalImage, metadata: &CaptureMetadata) -> (res: Result<(), Error>)
    ensures
        err_text(res) == resolution_problem(image@, *metadata),
{
    metadata.validate()?;
    if metadata.partial {
        return Err(Error::invalid("partial captures are not accepted by the M0 policy"));
    }
    if image.x_resolution_ppi() != metadata.x_resolution_ppi || image.y_resolution_ppi()
        != metadata.y_resolution_ppi {
        return Err(Error::invalid("image and capture metadata resolutions differ"));
    }
    if image.x_resolution_ppi() != image.y_resolution_ppi() {
        return Err(Error::invalid("M0 NBIS processing requires equal X and Y resolution"));
    }
    Ok(())
}

fn detect_capture(image: &CanonicalImage, metadata: &CaptureMetadata) -> (res: Result<
    (CaptureSummary, TemplateSample),
    Error,
>)
    ensures
        match res {
            Ok((summary, sample)) => detection_outcome(image@, *metadata) matches Ok(detected)
                && summary == summary_of(image@, detected) && summary.minutiae_count
                == detected.len() && summary.quality_sum == quality_sum(records_of(detected))
                && sample.minutiae@ == records_of(detected) && sample.mean_quality == sample_mean(
                detected,
            ),
            Err(e) => detection_outcome(image@, *metadata) == Err::<
                Seq<(i32, i32, i32, i32)>,
                Seq<char>,
            >(e.text()),
        },
{
    resolution_check(image, metadata)?;
    let width = image.width() as usize;
    let height = image.height() as usize;
    let detected = match mindtct_detect(image.pixels(), width, height, image.x_resolution_ppi()) {
        Ok(detected) => detected,
        Err(text) => {
            return Err(Error::labelled("MINDTCT rejected image geometry: ", text.as_str()));
        },
    };
    summarize_detection(image, &detected)
}

/// Validate one capture and summarise it without keeping any minutia.
pub fn summarize_capture(image: &CanonicalImage, metadata: &CaptureMetadata) -> (res: Result<
    CaptureSummary,
    Error,
>)
    ensures
        match res {
            Ok(summary) => detection_outcome(image@, *metadata) matches Ok(detected) && summary
                == summary_of(image@, detected),
            Err(e) => detection_outcome(image@, *metadata) == Err::<
                Seq<(i32, i32, i32, i32)>,
                Seq<char>,
            >(e.text()),
        },
{
    let (summary, _) = detect_capture(image, metadata)?;
    Ok(summary)
}

/// Analyse one capture under the enrollment and probe policy: at least the matcher's minimum
/// of minutiae, and a mean quality of at least 25.
pub fn analyze_capture(image: &CanonicalImage, metadata: &CaptureMetadata) -> (res: Result<
    TemplateSample,
    Error,
>)
    ensures
        match res {
            Ok(sample) => analysis_outcome(image@, *metadata) matches Ok(detected)
                && sample.minutiae@ == records_of(detected) && sample.mean_quality == sample_mean(
                detected,
            ),
            Err(e) => analysis_outcome(image@, *metadata) == Err::<
                Seq<(i32, i32, i32, i32)>,
                Seq<char>,
            >(e.text()),
        },
{
    let (summary, sample) = detect_capture(image, metadata)?;
    let count = summary.minutiae_count;
    if count < bozorth_minimum_minutiae() {
        let mut message = "capture has ".to_string();
        append_decimal(&mut message, count as u64);
        message.append(" minutiae; at least 10 are required");
        return Err(Error::from_text(message));
    }
    if summary.quality_sum < (MIN_MEAN_MINUTIA_QUALITY as u128) * (count as u128) {
        return Err(Error::processing("capture mean minutia quality is below 25"));
    }
    Ok(sample)
}

/// The BOZORTH3 similarity score of a probe against a gallery print, each given as its
/// `(x, y, theta)` triples.
pub uninterp spec fn bozorth3_score(probe: Seq<(i32, i32, i32)>, gallery: Seq<(i32, i32, i32)>) -> u32;

/// The `(x, y, theta)` triples of stored minutiae, qualities dropped.
pub open spec fn xyt_of(records: Seq<MinutiaRecord>) -> Seq<(i32, i32, i32)> {
    Seq::new(records.len(), |i: int| (records[i].x, records[i].y, records[i].theta))
}

/// Scores a probe against one enrollment sample with `fprint_bozorth3::match_score`, each
/// triple handed over as `fprint_bozorth3::Minutia { x, y, theta }`.
///
/// Claimed: the score is a function of the two triple sequences alone.
#[verifier::external_body]
fn bozorth_match_score(probe: &[(i32, i32, i32)], gallery: &[(i32, i32, i32)]) -> (score: u32)
    ensures
        score == bozorth3_score(probe@, gallery@),
{
    let probe: Vec<fprint_bozorth3::Minutia> = probe.iter().map(
        |&(x, y, theta)| fprint_bozorth3::Minutia { x, y, theta },
    ).collect();
    let gallery: Vec<fprint_bozorth3::Minutia> = gallery.iter().map(
        |&(x, y, theta)| fprint_bozorth3::Minutia { x, y, theta },
    ).collect();
    fprint_bozorth3::match_score(&probe, &gallery)
}

/// The `(x, y, theta)` triples of stored minutiae, in order.
fn xyt_triples(records: &[MinutiaRecord]) -> (triples: Vec<(i32, i32, i32)>)
    ensures
        triples@ == xyt_of(records@),
{
    let mut triples: Vec<(i32, i32, i32)> = Vec::new();
    let mut i: usize = 0;
    while i < records.len()
        invariant
            0 <= i <= records@.len(),
            triples@ =~= xyt_of(records@.take(i as int)),
        decreases records@.len() - i,
    {
        triples.push((records[i].x, records[i].y, records[i].theta));
        i += 1;
    }
    assert(records@.take(i as int) =~= records@);
    triples
}

/// The greatest of the scores, or 0 when there is none.
pub open spec fn best_score(scores: Seq<u32>) -> u32
    decreases scores.len(),
{
    if scores.len() == 0 {
        0
    } else {
        let rest = best_score(scores.drop_last());
        if scores.last() > rest {
            scores.last()
        } else {
            rest
        }
    }
}

/// The probe's score against each enrollment sample, in sample order.
pub open spec fn sample_scores(probe: Seq<MinutiaRecord>, samples: Seq<TemplateSample>) -> Seq<
    u32,
> {
    Seq::new(
        samples.len(),
        |i: int| bozorth3_score(xyt_of(probe), xyt_of(samples[i].minutiae@)),
    )
}

/// The verdict of the fixed policy on the per-sample scores: their maximum against the
/// threshold.
pub open spec fn verdict_of(scores: Seq<u32>, probe_quality: u8) -> VerificationResult {
    VerificationResult {
        score: best_score(scores),
        threshold: ACCEPT_THRESHOLD,
        matched: best_score(scores) >= ACCEPT_THRESHOLD,
        probe_quality,
    }
}

/// Apply the fixed policy to the probe's scores against the enrollment samples.
pub fn decide_match(scores: &[u32], probe_quality: u8) -> (result: VerificationResult)
    ensures
        result == verdict_of(scores@, probe_quality),
{
    let mut best: u32 = 0;
    let mut i: usize = 0;
    while i < scores.len()
        invariant
            0 <= i <= scores@.len(),
            best == best_score(scores@.take(i as int)),
        decreases scores@.len() - i,
    {
        assert(scores@.take(i + 1).drop_last() =~= scores@.take(i as int));
        if scores[i] > best {
            best = scores[i];
        }
        i += 1;
    }
    assert(scores@.take(i as int) =~= scores@);
    VerificationResult {
        score: best,
        threshold: ACCEPT_THRESHOLD,
        matched: best >= ACCEPT_THRESHOLD,
        probe_quality,
    }
}

/// The reason a probe cannot be verified against a template, in the order checked, or `None`.
pub open spec fn verify_problem(
    template: TemplateRecord,
    image: ImageView,
    metadata: CaptureMetadata,
) -> Option<Seq<char>> {
    if template_problem(template) is Some {
        template_problem(template)
    } else {
        match template {
            TemplateRecord::MatchOnChip(_) => Some(
                "this template matches on the device; verify it against a device, not a capture"@,
            ),
            TemplateRecord::HostImage(host) => if host.capture_profile_id@
                != metadata.capture_profile_id@ {
                Some("probe capture profile does not match the template"@)
            } else {
                match analysis_outcome(image, metadata) {
                    Err(problem) => Some(problem),
                    Ok(_) => None,
                }
            },
        }
    }
}

/// Verify one canonical probe against all enrollment samples of a host-image template, taking
/// the maximum score.
pub fn verify(template: &TemplateRecord, image: &CanonicalImage, metadata: &CaptureMetadata) -> (res:
    Result<VerificationResult, Error>)
    ensures
        match res {
            Ok(result) => {
                &&& verify_problem(*template, image@, *metadata) is None
                &&& template matches TemplateRecord::HostImage(host)
                &&& analysis_outcome(image@, *metadata) matches Ok(detected)
                &&& result == verdict_of(
                    sample_scores(records_of(detected), host.samples@),
                    sample_mean(detected),
                )
            },
            Err(e) => verify_problem(*template, image@, *metadata) == Some(e.text()),
        },
{
    validate_template(template)?;
    let host = match template {
        TemplateRecord::HostImage(host) => host,
        TemplateRecord::MatchOnChip(_) => {
            return Err(
                Error::invalid(
                    "this template matches on the device; verify it against a device, not a capture",
                ),
            );
        },
    };
    if !str_eq(host.capture_profile_id.as_str(), metadata.capture_profile_id.as_str()) {
        return Err(Error::invalid("probe capture profile does not match the template"));
    }
    let probe = analyze_capture(image, metadata)?;
    let probe_triples = xyt_triples(probe.minutiae.as_slice());
    let mut scores: Vec<u32> = Vec::new();
    let mut i: usize = 0;
    while i < host.samples.len()
        invariant
            0 <= i <= host.samples@.len(),
            probe_triples@ == xyt_of(probe.minutiae@),
            scores@ =~= sample_scores(probe.minutiae@, host.samples@.take(i as int)),
        decreases host.samples@.len() - i,
    {
        let gallery = xyt_triples(host.samples[i].minutiae.as_slice());
        let score = bozorth_match_score(probe_triples.as_slice(), gallery.as_slice());
        scores.push(score);
        i += 1;
    }
    assert(host.samples@.take(i as int) =~= host.samples@);
    Ok(decide_match(scores.as_slice(), probe.mean_quality))
}

/// The reason a capture cannot join an enrollment whose captures so far share `profile`, in
/// the order checked, or `None`.
pub open spec fn enrollment_problem(
    profile: Option<Seq<char>>,
    image: ImageView,
    metadata: CaptureMetadata,
) -> Option<Seq<char>> {
    if profile matches Some(p) && p != metadata.capture_profile_id@ {
        Some("all enrollment captures must use the same capture profile"@)
    } else {
        match analysis_outcome(image, metadata) {
            Err(problem) => Some(problem),
            Ok(_) => None,
        }
    }
}

/// A three-capture host-image enrollment in progress.
///
/// Each capture is analysed as it is added; all must share one capture profile.
pub struct EnrollmentBuilder {
    profile: Option<String>,
    samples: Vec<TemplateSample>,
}

impl EnrollmentBuilder {
    /// The capture profile of the captures added so far, if any was.
    pub closed spec fn profile(&self) -> Option<Seq<char>> {
        match self.profile {
            Some(p) => Some(p@),
            None => None,
        }
    }

    /// The samples analysed so far, in the order their captures were added.
    pub closed spec fn samples(&self) -> Seq<TemplateSample> {
        self.samples@
    }

    /// Start an enrollment of `capture_count` captures; exactly three are required.
    pub fn new(capture_count: usize) -> (res: Result<EnrollmentBuilder, Error>)
        ensures
            match res {
                Ok(builder) => capture_count == ENROLLMENT_SAMPLES && builder.profile() is None
                    && builder.samples().len() == 0,
                Err(e) => capture_count != ENROLLMENT_SAMPLES && e.text()
                    == "enrollment requires exactly 3 captures"@,
            },
    {
        if capture_count != ENROLLMENT_SAMPLES {
            return Err(Error::invalid("enrollment requires exactly 3 captures"));
        }
        Ok(EnrollmentBuilder { profile: None, samples: Vec::new() })
    }

    /// Analyse one more capture and keep its sample.
    pub fn add_capture(&mut self, image: &CanonicalImage, metadata: &CaptureMetadata) -> (res:
        Result<(), Error>)
        ensures
            err_text(res) == enrollment_problem(old(self).profile(), image@, *metadata),
            res is Err ==> final(self).profile() == old(self).profile() && final(self).samples()
                == old(self).samples(),
            res is Ok ==> {
                &&& analysis_outcome(image@, *metadata) matches Ok(detected)
                &&& final(self).profile() == Some(metadata.capture_profile_id@)
                &&& final(self).samples().len() == old(self).samples().len() + 1
                &&& final(self).samples().drop_last() == old(self).samples()
                &&& final(self).samples().last().minutiae@ == records_of(detected)
                &&& final(self).samples().last().mean_quality == sample_mean(detected)
            },
    {
        let profile_matches = match &self.profile {
            Some(expected) => str_eq(expected.as_str(), metadata.capture_profile_id.as_str()),
            None => true,
        };
        if !profile_matches {
            return Err(Error::invalid("all enrollment captures must use the same capture profile"));
        }
        let sample = analyze_capture(image, metadata)?;
        if self.profile.is_none() {
            self.profile = Some(metadata.capture_profile_id.clone());
        }
        let ghost before = self.samples@;
        self.samples.push(sample);
        assert(self.samples@.drop_last() =~= before);
        Ok(())
    }

    /// The host-image template of the captures added, under this build's schema, engine and
    /// policy.
    pub fn finish(self) -> (res: Result<TemplateRecord, Error>)
        ensures
            match res {
                Ok(template) => {
                    &&& self.profile() matches Some(profile)
                    &&& template matches TemplateRecord::HostImage(host)
                    &&& host.schema_major == TEMPLATE_SCHEMA_MAJOR
                    &&& host.engine_id@ == ENGINE_ID@
                    &&& host.engine_version@ == ENGINE_VERSION@
                    &&& host.capture_profile_id@ == profile
                    &&& host.policy@ == POLICY_NAME@
                    &&& host.samples@ == self.samples()
                },
                Err(e) => self.profile() is None && e.text() == "enrollment profile is unavailable"@,
            },
    {
        match self.profile {
            Some(profile) => Ok(
                TemplateRecord::HostImage(
                    HostImageTemplate {
                        schema_major: TEMPLATE_SCHEMA_MAJOR,
                        engine_id: ENGINE_ID.to_string(),
                        engine_version: ENGINE_VERSION.to_string(),
                        capture_profile_id: profile,
                        policy: POLICY_NAME.to_string(),
                        samples: self.samples,
                    },
                ),
            ),
            None => Err(Error::processing("enrollment profile is unavailable")),
        }
    }
}

} // verus!
