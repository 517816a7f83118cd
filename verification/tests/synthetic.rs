use fingerprint_kit::synthetic::{identity_hash, impression_transform, Lcg, SYNTHETIC_PIXELS};
use fingerprint_kit::{
    synthetic_capture, CaptureKind, SYNTHETIC_CAPTURE_PROFILE, SYNTHETIC_HEIGHT, SYNTHETIC_PPI,
    SYNTHETIC_WIDTH,
};

/// A deterministic stand-in for a rendered identity: diagonal ridges that depend on `identity`.
fn base(identity: u64) -> Vec<u8> {
    (0..SYNTHETIC_PIXELS)
        .map(|i| {
            let (x, y) = ((i % 200) as u64, (i / 200) as u64);
            if (x + 2 * y + identity * 3) % 9 < 4 {
                40
            } else {
                210
            }
        })
        .collect()
}

#[test]
fn generator_is_deterministic_and_separates_inputs() {
    let first = synthetic_capture(&base(7), 7, 3).unwrap().0;
    let again = synthetic_capture(&base(7), 7, 3).unwrap().0;
    let other_impression = synthetic_capture(&base(7), 7, 4).unwrap().0;
    let other_identity = synthetic_capture(&base(8), 8, 3).unwrap().0;
    assert!(first == again);
    assert!(first != other_impression);
    assert!(first != other_identity);
    assert_eq!(first.width(), SYNTHETIC_WIDTH);
    assert_eq!(first.height(), SYNTHETIC_HEIGHT);
}

#[test]
fn synthetic_metadata_is_fixed() {
    let (image, metadata) = synthetic_capture(&base(41), 41, 0).unwrap();
    assert_eq!(metadata.capture_profile_id, SYNTHETIC_CAPTURE_PROFILE);
    assert_eq!(metadata.capture_kind, CaptureKind::Press);
    assert!(!metadata.partial);
    assert_eq!((metadata.x_resolution_ppi, metadata.y_resolution_ppi), (SYNTHETIC_PPI, SYNTHETIC_PPI));
    assert_eq!(image.pixels().len(), SYNTHETIC_PIXELS);
    assert_eq!(
        synthetic_capture(&vec![0; SYNTHETIC_PIXELS + 1], 1, 1).err().unwrap().message(),
        "pixel length does not match packed Gray8 dimensions"
    );
}

#[test]
fn the_mixers_produce_their_documented_values() {
    let mut expected = 0u64 ^ 0xA076_1D64_78BD_642F;
    expected ^= expected >> 30;
    expected = expected.wrapping_mul(0xBF58_476D_1CE4_E5B9);
    expected ^= expected >> 27;
    expected = expected.wrapping_mul(0x94D0_49BB_1331_11EB);
    expected ^= expected >> 31;
    assert_eq!(identity_hash(0), expected);

    let mut random = Lcg::new(5);
    let state = 5u64.wrapping_mul(0x9E37_79B9_7F4A_7C15).wrapping_add(1);
    let next = state.wrapping_mul(6_364_136_223_846_793_005).wrapping_add(1_442_695_040_888_963_407);
    assert_eq!(random.next(), next >> 33);
}

#[test]
fn impressions_shift_by_at_most_two_and_add_at_most_four_levels() {
    let flat = vec![100u8; SYNTHETIC_PIXELS];
    let pixels = impression_transform(&flat, 41, 9);
    assert_eq!(pixels.len(), SYNTHETIC_PIXELS);
    for (index, &value) in pixels.iter().enumerate() {
        let (x, y) = (index % 200, index / 200);
        if (2..198).contains(&x) && (2..238).contains(&y) {
            assert!((96..=104).contains(&value), "pixel {index} is {value}");
        } else {
            assert!((96..=104).contains(&value) || value == 240, "pixel {index} is {value}");
        }
    }
    let longer = impression_transform(&vec![0u8; SYNTHETIC_PIXELS + 3], 1, 2);
    assert_eq!(&longer[SYNTHETIC_PIXELS..], &[240, 240, 240]);
    assert!(longer[..SYNTHETIC_PIXELS].iter().all(|&v| v <= 4 || v == 240));
}
