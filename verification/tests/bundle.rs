use fingerprint_kit::bundle::{
    capture_image, capture_manifest, decode_pgm, encode_pgm, manifest_metadata,
    validate_bundle_entries, validate_consistency, CaptureManifest, CAPTURE_IMAGE,
    CAPTURE_MANIFEST,
};
use fingerprint_kit::{CanonicalImage, CaptureKind, CaptureMetadata};

fn fixture() -> (CanonicalImage, CaptureMetadata) {
    let image = CanonicalImage::new(3, 2, 500, 500, vec![0, 10, 32, 100, 200, 255]).unwrap();
    let metadata = CaptureMetadata {
        capture_profile_id: "test-profile".into(),
        capture_kind: CaptureKind::Press,
        partial: false,
        x_resolution_ppi: 500,
        y_resolution_ppi: 500,
    };
    (image, metadata)
}

#[test]
fn pgm_rejects_truncation_bad_maxval_and_wrong_pixel_length() {
    assert!(decode_pgm(b"P").is_err());
    assert!(decode_pgm(b"P5\n2 2\n255\n\x00\x01").is_err());
    assert!(decode_pgm(b"P5\n1 1\n65535\n\x00").is_err());
    assert!(decode_pgm(b"P2\n1 1\n255\n\x00").is_err());
    assert!(decode_pgm(b"P5\n1 1\n255").is_err());
}

#[test]
fn pgm_encoding_is_exact_and_round_trips() {
    let (image, _) = fixture();
    let bytes = encode_pgm(&image);
    assert_eq!(bytes, b"P5\n3 2\n255\n\x00\x0a\x20\x64\xc8\xff".to_vec());
    let (width, height, pixels) = decode_pgm(&bytes).unwrap();
    assert_eq!((width, height), (3, 2));
    assert_eq!(pixels, image.pixels());
}

#[test]
fn pgm_header_accepts_comments_and_layout_space() {
    let (width, height, pixels) = decode_pgm(b"P5 # a comment\n\t2\r\n1 255\n\x07\x08").unwrap();
    assert_eq!((width, height, pixels), (2, 1, vec![7, 8]));
    assert_eq!(
        decode_pgm(b"P5\n1 1\n65535\n\x00").err().unwrap().message(),
        "PGM maxval must be 255"
    );
}

#[test]
fn bundle_rejects_unexpected_entries() {
    let names = |list: &[&str]| list.iter().map(|s| s.to_string()).collect::<Vec<_>>();
    assert!(validate_bundle_entries(&names(&[CAPTURE_IMAGE, CAPTURE_MANIFEST])).is_ok());
    assert_eq!(
        validate_bundle_entries(&names(&["capture.json", "image.pgm", "unexpected.bin"]))
            .err().unwrap()
            .message(),
        "capture bundle contains an unexpected entry"
    );
    assert_eq!(
        validate_bundle_entries(&names(&["capture.json"])).err().unwrap().message(),
        "capture bundle must contain capture.json and image.pgm"
    );
    assert_eq!(
        validate_bundle_entries(&names(&["capture.json", "capture.json"])).err().unwrap().message(),
        "capture bundle contains duplicate manifest"
    );
}

#[test]
fn bundle_round_trip_is_byte_exact() {
    let (image, metadata) = fixture();
    let manifest = capture_manifest(&image, &metadata).unwrap();
    assert_eq!(manifest.version, 1);
    assert_eq!(manifest.image, "image.pgm");
    assert_eq!((manifest.width, manifest.height), (3, 2));
    let loaded_metadata = manifest_metadata(manifest.clone()).unwrap();
    assert_eq!(loaded_metadata, metadata);
    let loaded_image =
        capture_image(manifest.width, manifest.height, &loaded_metadata, &encode_pgm(&image))
            .unwrap();
    assert!(loaded_image == image);
    let resaved = capture_manifest(&loaded_image, &loaded_metadata).unwrap();
    assert!(resaved == manifest);
    assert_eq!(encode_pgm(&loaded_image), encode_pgm(&image));
}

#[test]
fn manifests_with_another_version_or_image_name_are_refused() {
    let (image, metadata) = fixture();
    let manifest = capture_manifest(&image, &metadata).unwrap();
    let bad_version = CaptureManifest { version: 2, ..manifest.clone() };
    assert_eq!(
        manifest_metadata(bad_version).err().unwrap().message(),
        "unsupported capture bundle version"
    );
    let bad_name = CaptureManifest { image: "other.pgm".to_owned(), ..manifest.clone() };
    assert_eq!(
        manifest_metadata(bad_name).err().unwrap().message(),
        "capture bundle must use fixed image.pgm name"
    );
    assert_eq!(
        capture_image(4, 2, &metadata, &encode_pgm(&image)).err().unwrap().message(),
        "manifest and PGM dimensions differ"
    );
}

#[test]
fn resolutions_of_image_and_metadata_must_agree() {
    let (image, mut metadata) = fixture();
    assert!(validate_consistency(&image, &metadata).is_ok());
    metadata.y_resolution_ppi = 501;
    assert_eq!(
        validate_consistency(&image, &metadata).err().unwrap().message(),
        "image and capture metadata resolutions differ"
    );
    assert!(capture_manifest(&image, &metadata).is_err());
}

#[test]
fn header_numbers_must_be_utf8_decimal_and_fit() {
    assert_eq!(
        decode_pgm(b"P5\n\xff 1\n255\n\x00").err().unwrap().message(),
        "PGM width is not ASCII"
    );
    assert_eq!(
        decode_pgm(b"P5\n1 x\n255\n\x00").err().unwrap().message(),
        "PGM height is invalid"
    );
    assert_eq!(
        decode_pgm(b"P5\n4294967296 1\n255\n\x00").err().unwrap().message(),
        "PGM width is invalid"
    );
    let (width, height, pixels) = decode_pgm(b"P5\n+1 1\n255\n\x2a").unwrap();
    assert_eq!((width, height, pixels), (1, 1, vec![42]));
}
