//! Deterministic synthetic captures: the integer parts of the generator.
//!
//! `identity` fixes ridge flow and dislocation placement; `impression` adds only a small
//! translation and independent low-amplitude sensor noise. Rendering the ridge field itself is
//! floating-point work and happens outside this library, which receives the rendered base image.

use vstd::prelude::*;

use crate::domain::{image_problem, CanonicalImage, CaptureKind, CaptureMetadata};
use crate::error::{err_text, Error};

verus! {

/// Synthetic capture profile.
pub const SYNTHETIC_CAPTURE_PROFILE: &'static str = "synthetic-gray8-200x240-500ppi-v1";

/// Synthetic image width.
pub const SYNTHETIC_WIDTH: u32 = 200;

/// Synthetic image height.
pub const SYNTHETIC_HEIGHT: u32 = 240;

/// Synthetic scan resolution.
pub const SYNTHETIC_PPI: u16 = 500;

/// Pixels in one synthetic image.
pub const SYNTHETIC_PIXELS: usize = 48000;

/// The 64-bit mix of an identity that seeds everything derived from it.
pub open spec fn spec_identity_hash(identity: u64) -> u64 {
    let v0 = identity ^ 0xA076_1D64_78BD_642Fu64;
    let v1 = v0 ^ (v0 >> 30u64);
    let v2 = v1.wrapping_mul(0xBF58_476D_1CE4_E5B9u64);
    let v3 = v2 ^ (v2 >> 27u64);
    let v4 = v3.wrapping_mul(0x94D0_49BB_1331_11EBu64);
    v4 ^ (v4 >> 31u64)
}

/// The 64-bit mix of an identity that seeds everything derived from it.
pub fn identity_hash(identity: u64) -> (hash: u64)
    ensures
        hash == spec_identity_hash(identity),
{
    let mut value = identity ^ 0xA076_1D64_78BD_642Fu64;
    value = value ^ (value >> 30u64);
    value = value.wrapping_mul(0xBF58_476D_1CE4_E5B9u64);
    value = value ^ (value >> 27u64);
    value = value.wrapping_mul(0x94D0_49BB_1331_11EBu64);
    value ^ (value >> 31u64)
}

/// The generator state that a seed starts from.
pub open spec fn lcg_seed(seed: u64) -> u64 {
    seed.wrapping_mul(0x9E37_79B9_7F4A_7C15u64).wrapping_add(1u64)
}

/// One step of the 64-bit linear congruential generator.
pub open spec fn lcg_step(state: u64) -> u64 {
    state.wrapping_mul(6_364_136_223_846_793_005u64).wrapping_add(1_442_695_040_888_963_407u64)
}

/// The state after `n` steps from `state`.
pub open spec fn lcg_after(state: u64, n: nat) -> u64
    decreases n,
{
    if n == 0 {
        state
    } else {
        lcg_step(lcg_after(state, (n - 1) as nat))
    }
}

/// The value a step that reaches `state` yields: its high 31 bits.
pub open spec fn lcg_output(state: u64) -> u64 {
    state >> 33u64
}

/// A small deterministic pseudo-random generator for textures and noise.
pub struct Lcg {
    state: u64,
}

impl Lcg {
    /// The current state.
    pub closed spec fn state(&self) -> u64 {
        self.state
    }

    /// A generator seeded with `seed`.
    pub fn new(seed: u64) -> (lcg: Lcg)
        ensures
            lcg.state() == lcg_seed(seed),
    {
        Lcg { state: seed.wrapping_mul(0x9E37_79B9_7F4A_7C15u64).wrapping_add(1u64) }
    }

    /// Step the generator and return the high 31 bits of the new state.
    pub fn next(&mut self) -> (value: u64)
        ensures
            final(self).state() == lcg_step(old(self).state()),
            value == lcg_output(final(self).state()),
    {
        self.state = self.state.wrapping_mul(6_364_136_223_846_793_005u64).wrapping_add(
            1_442_695_040_888_963_407u64,
        );
        self.state >> 33u64
    }
}

/// The hash that fixes one impression of one identity: its shift and its noise.
pub open spec fn impression_hash(identity: u64, impression: u64) -> u64 {
    spec_identity_hash(impression ^ ((identity << 19u64) | (identity >> 45u64)))
}

/// Horizontal translation of an impression, in `-2..=2`.
pub open spec fn shift_x(hash: u64) -> int {
    (hash % 5) as int - 2
}

/// Vertical translation of an impression, in `-2..=2`.
pub open spec fn shift_y(hash: u64) -> int {
    ((hash >> 8u64) % 5) as int - 2
}

/// Whether pixel `p` of the impression has a source pixel in the base once shifted.
pub open spec fn has_source(p: int, dx: int, dy: int) -> bool {
    &&& 0 <= p % 200 - dx < 200
    &&& 0 <= p / 200 - dy < 240
}

/// The base pixel that pixel `p` of the impression shows.
pub open spec fn source_of(p: int, dx: int, dy: int) -> int {
    (p / 200 - dy) * 200 + (p % 200 - dx)
}

/// How many pixels before `p` have a source pixel; each of them draws one noise value.
pub open spec fn sourced_before(p: int, dx: int, dy: int) -> nat
    decreases p,
{
    if p <= 0 {
        0
    } else {
        sourced_before(p - 1, dx, dy) + if has_source(p - 1, dx, dy) {
            1nat
        } else {
            0nat
        }
    }
}

/// A value clamped to the Gray8 range.
pub open spec fn clamp_gray(value: int) -> u8 {
    if value < 0 {
        0
    } else if value > 255 {
        255
    } else {
        value as u8
    }
}

/// The `k`-th noise value, in `-4..=4`, of a generator started from `state`.
pub open spec fn noise_at(state: u64, k: nat) -> int {
    (lcg_output(lcg_after(state, k + 1)) % 9) as int - 4
}

/// Pixel `p` of an impression: the shifted base pixel plus noise, or 240 where the shift
/// uncovers the frame.
pub open spec fn impression_pixel(base: Seq<u8>, identity: u64, impression: u64, p: int) -> u8 {
    let hash = impression_hash(identity, impression);
    let dx = shift_x(hash);
    let dy = shift_y(hash);
    if p < SYNTHETIC_PIXELS && has_source(p, dx, dy) {
        clamp_gray(
            base[source_of(p, dx, dy)] as int + noise_at(
                lcg_seed(hash ^ 0x51A7_0A5Eu64),
                sourced_before(p, dx, dy),
            ),
        )
    } else {
        240
    }
}

/// Derive one impression from an identity's rendered base image: a small translation and
/// independent low-amplitude noise.
#[verifier::rlimit(40)]
pub fn impression_transform(base: &[u8], identity: u64, impression: u64) -> (pixels: Vec<u8>)
    requires
        base@.len() >= SYNTHETIC_PIXELS,
    ensures
        pixels@.len() == base@.len(),
        forall|p: int|
            0 <= p < pixels@.len() ==> #[trigger] pixels@[p] == impression_pixel(
                base@,
                identity,
                impression,
                p,
            ),
{
    let hash = identity_hash(impression ^ ((identity << 19u64) | (identity >> 45u64)));
    let dx: i64 = (hash % 5) as i64 - 2;
    let dy: i64 = ((hash >> 8u64) % 5) as i64 - 2;
    let mut random = Lcg::new(hash ^ 0x51A7_0A5Eu64);
    let ghost start = random.state();
    let mut pixels: Vec<u8> = Vec::new();
    let mut q: usize = 0;
    while q < base.len()
        invariant
            0 <= q <= base@.len(),
            pixels@.len() == q,
            forall|j: int| 0 <= j < q ==> #[trigger] pixels@[j] == 240u8,
        decreases base@.len() - q,
    {
        pixels.push(240u8);
        q += 1;
    }
    let mut p: usize = 0;
    while p < SYNTHETIC_PIXELS
        invariant
            0 <= p <= SYNTHETIC_PIXELS,
            base@.len() >= SYNTHETIC_PIXELS,
            pixels@.len() == base@.len(),
            hash == impression_hash(identity, impression),
            dx == shift_x(hash),
            dy == shift_y(hash),
            start == lcg_seed(hash ^ 0x51A7_0A5Eu64),
            random.state() == lcg_after(start, sourced_before(p as int, dx as int, dy as int)),
            forall|j: int|
                0 <= j < p ==> #[trigger] pixels@[j] == impression_pixel(
                    base@,
                    identity,
                    impression,
                    j,
                ),
            forall|j: int| p <= j < pixels@.len() ==> #[trigger] pixels@[j] == 240u8,
        decreases SYNTHETIC_PIXELS - p,
    {
        let x = (p % 200) as i64;
        let y = (p / 200) as i64;
        let source_x = x - dx;
        let source_y = y - dy;
        if 0 <= source_x && source_x < 200 && 0 <= source_y && source_y < 240 {
            let source = (source_y * 200 + source_x) as usize;
            let noise = (random.next() % 9) as i64 - 4;
            let value = base[source] as i64 + noise;
            let gray: u8 = if value < 0 {
                0
            } else if value > 255 {
                255
            } else {
                value as u8
            };
            pixels.set(p, gray);
        }
        p += 1;
    }
    pixels
}

/// Metadata of every synthetic capture.
pub open spec fn synthetic_metadata(metadata: CaptureMetadata) -> bool {
    &&& metadata.capture_profile_id@ == SYNTHETIC_CAPTURE_PROFILE@
    &&& metadata.capture_kind == CaptureKind::Press
    &&& !metadata.partial
    &&& metadata.x_resolution_ppi == SYNTHETIC_PPI
    &&& metadata.y_resolution_ppi == SYNTHETIC_PPI
}

/// Build the synthetic capture of one impression from its identity's rendered base image.
pub fn synthetic_capture(base: &[u8], identity: u64, impression: u64) -> (res: Result<
    (CanonicalImage, CaptureMetadata),
    Error,
>)
    requires
        base@.len() >= SYNTHETIC_PIXELS,
    ensures
        err_text(res) == image_problem(
            SYNTHETIC_WIDTH,
            SYNTHETIC_HEIGHT,
            SYNTHETIC_PPI,
            SYNTHETIC_PPI,
            base@.len(),
        ),
        res matches Ok((image, metadata)) ==> {
            &&& image@.width == SYNTHETIC_WIDTH
            &&& image@.height == SYNTHETIC_HEIGHT
            &&& image@.x_resolution_ppi == SYNTHETIC_PPI
            &&& image@.y_resolution_ppi == SYNTHETIC_PPI
            &&& image@.pixels.len() == SYNTHETIC_PIXELS
            &&& forall|p: int|
                0 <= p < SYNTHETIC_PIXELS ==> #[trigger] image@.pixels[p] == impression_pixel(
                    base@,
                    identity,
                    impression,
                    p,
                )
            &&& synthetic_metadata(metadata)
        },
{
    let pixels = impression_transform(base, identity, impression);
    let image = CanonicalImage::new(
        SYNTHETIC_WIDTH,
        SYNTHETIC_HEIGHT,
        SYNTHETIC_PPI,
        SYNTHETIC_PPI,
        pixels,
    )?;
    let metadata = CaptureMetadata {
        capture_profile_id: SYNTHETIC_CAPTURE_PROFILE.to_string(),
        capture_kind: CaptureKind::Press,
        partial: false,
        x_resolution_ppi: SYNTHETIC_PPI,
        y_resolution_ppi: SYNTHETIC_PPI,
    };
    Ok((image, metadata))
}

} // verus!
