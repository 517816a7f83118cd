# fingerprint-kit

A hardware-free, experimental fingerprint pipeline written in Verus: capture validation, binary
PGM capture images, minutiae analysis over NBIS (`fprint-mindtct`, `fprint-bozorth3`), three-sample
enrollment, versioned templates, the match-on-chip seam, and the driver JSON Lines protocol with
its session validator. It makes no accuracy claim; the policy `experimental-nbis-40-v1` is an
uncalibrated engineering fixture.

## Layout

- `src/` — the verified library.
  - `domain` — validated images, capture metadata, minutiae, the two template kinds, and their
    redacted debug renderings.
  - `bundle` — the PGM codec and the capture bundle's manifest rules.
  - `engine` — capture analysis over MINDTCT, enrollment, and verification over BOZORTH3.
  - `template` — template validation for both kinds.
  - `moc` — the match-on-chip device seam and template provenance.
  - `synthetic` — the integer parts of the synthetic capture generator.
  - `protocol` — message types, payload codecs, the JSON Lines wire form, the session
    validator, and the host's and the driver worker's decisions in a session.
  - `laws` — properties that span several functions.
- `tests/` — tests run against the compiled library with the real NBIS crates.
- `app/` — the `fingerprint-kit` command line: file I/O, serde file and wire formats, the
  floating-point ridge renderer, and driver worker processes.

Every stored template is schema version 2, discriminated by `kind` (`host_image` or
`match_on_chip`); each matching path refuses the other's templates. Pixels, minutiae and device
blobs never appear in a debug rendering or an error message.
