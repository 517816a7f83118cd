//! The capture bundle formats: the binary P5 PGM image codec, and the checks that tie a
//! manifest, its image and its metadata together.

use vstd::prelude::*;
use vstd::utf8::{is_leading_byte_width_1, partial_valid_utf8, partial_valid_utf8_extend_ascii_block, valid_utf8};

use crate::domain::{
    image_problem, image_wf, metadata_problem, CanonicalImage, CaptureKind, CaptureMetadata,
    ImageView, MAX_IMAGE_BYTES,
};
use crate::error::{err_text, first_problem, Error};
use crate::text::str_eq;
use crate::protocol::json::{decimal, push_decimal};

verus! {

/// `u8::is_ascii_whitespace`: space, tab, line feed, form feed, carriage return.
pub open spec fn is_layout_space(b: u8) -> bool {
    b == 0x20 || b == 0x09 || b == 0x0a || b == 0x0c || b == 0x0d
}

/// Where a `#` comment that starts at `c` ends: at its line feed, or at the end of the input.
pub open spec fn comment_end(bytes: Seq<u8>, c: int) -> int
    decreases bytes.len() - c,
{
    if c < 0 || c >= bytes.len() || bytes[c] == 0x0a {
        c
    } else {
        comment_end(bytes, c + 1)
    }
}

/// A comment ends within the input, after its `#`.
pub proof fn lemma_comment_end_bounds(bytes: Seq<u8>, c: int)
    requires
        0 <= c <= bytes.len(),
    ensures
        c <= comment_end(bytes, c) <= bytes.len(),
        c < bytes.len() && bytes[c] != 0x0a ==> comment_end(bytes, c) > c,
    decreases bytes.len() - c,
{
    if c < bytes.len() && bytes[c] != 0x0a {
        lemma_comment_end_bounds(bytes, c + 1);
    }
}

/// Where the header's whitespace and comments that start at `c` end.
pub open spec fn skip_layout(bytes: Seq<u8>, c: int) -> int
    decreases bytes.len() - c,
{
    if 0 <= c < bytes.len() && is_layout_space(bytes[c]) {
        skip_layout(bytes, c + 1)
    } else if 0 <= c < bytes.len() && bytes[c] == 0x23 {
        proof {
            lemma_comment_end_bounds(bytes, c);
        }
        skip_layout(bytes, comment_end(bytes, c))
    } else {
        c
    }
}

/// Where a header token that starts at `s` ends: at whitespace, a `#`, or the end of input.
pub open spec fn token_end(bytes: Seq<u8>, s: int) -> int
    decreases bytes.len() - s,
{
    if 0 <= s < bytes.len() && !is_layout_space(bytes[s]) && bytes[s] != 0x23 {
        token_end(bytes, s + 1)
    } else {
        s
    }
}

/// Whether `b` is an ASCII decimal digit.
pub open spec fn is_digit(b: u8) -> bool {
    0x30 <= b <= 0x39
}

/// The value of a run of decimal digits.
pub open spec fn digits_value(digits: Seq<u8>) -> nat
    decreases digits.len(),
{
    if digits.len() == 0 {
        0
    } else {
        digits_value(digits.drop_last()) * 10 + (digits.last() - 0x30) as nat
    }
}

/// Whether every byte is an ASCII decimal digit.
pub open spec fn all_digits(bytes: Seq<u8>) -> bool {
    forall|i: int| 0 <= i < bytes.len() ==> is_digit(#[trigger] bytes[i])
}

/// The text after an optional leading `+`.
pub open spec fn unsigned_digits(token: Seq<u8>) -> Seq<u8> {
    if token.len() > 0 && token[0] == 0x2b {
        token.drop_first()
    } else {
        token
    }
}

/// `u32::from_str` on ASCII text: an optional `+`, then one or more decimal digits whose value
/// fits in a `u32`.
pub open spec fn parse_u32_spec(token: Seq<u8>) -> Option<u32> {
    let digits = unsigned_digits(token);
    if digits.len() == 0 {
        None
    } else if !all_digits(digits) {
        None
    } else if digits_value(digits) > u32::MAX {
        None
    } else {
        Some(digits_value(digits) as u32)
    }
}

/// Whether the bytes are valid UTF-8, as `std::str::from_utf8` decides.
///
/// Claimed of `std::str::from_utf8`: it succeeds exactly on well-formed UTF-8, which is what
/// vstd's `valid_utf8` defines.
#[verifier::external_body]
fn utf8_is_valid(bytes: &[u8]) -> (valid: bool)
    ensures
        valid == valid_utf8(bytes@),
{
    std::str::from_utf8(bytes).is_ok()
}

proof fn lemma_digits_value_monotone(digits: Seq<u8>, j: int, k: int)
    requires
        0 <= j <= k <= digits.len(),
        forall|i: int| 0 <= i < digits.len() ==> is_digit(#[trigger] digits[i]),
    ensures
        digits_value(digits.take(j)) <= digits_value(digits.take(k)),
    decreases k - j,
{
    if j < k {
        lemma_digits_value_monotone(digits, j, k - 1);
        assert(digits.take(k).drop_last() == digits.take(k - 1));
    }
}

/// Parse a header number, or say what is wrong with it.
fn parse_u32(token: &[u8], start: usize, end: usize, label: &str) -> (res: Result<u32, Error>)
    requires
        start <= end <= token@.len(),
    ensures
        ({
            let t = token@.subrange(start as int, end as int);
            match res {
                Ok(v) => valid_utf8(t) && parse_u32_spec(t) == Some(v),
                Err(e) => if !valid_utf8(t) {
                    e.text() == label@ + " is not ASCII"@
                } else {
                    parse_u32_spec(t) is None && e.text() == label@ + " is invalid"@
                },
            }
        }),
{
    let ghost t = token@.subrange(start as int, end as int);
    if !utf8_is_valid_range(token, start, end) {
        return Err(Error::labelled(label, " is not ASCII"));
    }
    let mut first = start;
    if first < end && token[first] == 0x2b {
        first = first + 1;
    }
    let ghost digits = token@.subrange(first as int, end as int);
    assert(digits == unsigned_digits(t));
    if first == end {
        return Err(Error::labelled(label, " is invalid"));
    }
    let mut i = first;
    while i < end
        invariant
            first <= i <= end <= token@.len(),
            first < end,
            digits == token@.subrange(first as int, end as int),
            t == token@.subrange(start as int, end as int),
            valid_utf8(t),
            digits == unsigned_digits(t),
            forall|j: int| first <= j < i ==> is_digit(#[trigger] token@[j]),
        decreases end - i,
    {
        if !(0x30 <= token[i] && token[i] <= 0x39) {
            assert(!is_digit(digits[i - first]));
            return Err(Error::labelled(label, " is invalid"));
        }
        i += 1;
    }
    assert forall|j: int| 0 <= j < digits.len() implies is_digit(#[trigger] digits[j]) by {
        assert(digits[j] == token@[first + j]);
    }
    let mut value: u64 = 0;
    let mut k = first;
    while k < end
        invariant
            first <= k <= end <= token@.len(),
            digits == token@.subrange(first as int, end as int),
            forall|j: int| 0 <= j < digits.len() ==> is_digit(#[trigger] digits[j]),
            t == token@.subrange(start as int, end as int),
            valid_utf8(t),
            digits.len() > 0,
            digits == unsigned_digits(t),
            value == digits_value(digits.take(k - first)),
            value <= u32::MAX,
        decreases end - k,
    {
        let ghost j = k - first;
        assert(digits.take(j + 1).drop_last() == digits.take(j));
        assert(digits.take(j + 1).last() == token@[k as int]);
        assert(is_digit(digits[j]));
        let d = (token[k] - 0x30) as u64;
        assert(value * 10 + d <= 0xffff_ffff * 10 + 9) by (nonlinear_arith)
            requires
                value <= 0xffff_ffff,
                d <= 9,
        ;
        let next = value * 10 + d;
        assert(next == digits_value(digits.take(j + 1)));
        if next > 0xffff_ffff {
            proof {
                lemma_digits_value_monotone(digits, k - first + 1, digits.len() as int);
                assert(digits.take(digits.len() as int) == digits);
            }
            return Err(Error::labelled(label, " is invalid"));
        }
        value = next;
        k += 1;
    }
    assert(digits.take(digits.len() as int) == digits);
    Ok(value as u32)
}

fn utf8_is_valid_range(token: &[u8], start: usize, end: usize) -> (valid: bool)
    requires
        start <= end <= token@.len(),
    ensures
        valid == valid_utf8(token@.subrange(start as int, end as int)),
{
    let mut piece: Vec<u8> = Vec::new();
    let mut i = start;
    while i < end
        invariant
            start <= i <= end <= token@.len(),
            piece@ == token@.subrange(start as int, i as int),
        decreases end - i,
    {
        piece.push(token[i]);
        i += 1;
        assert(piece@ =~= token@.subrange(start as int, i as int));
    }
    utf8_is_valid(piece.as_slice())
}

/// The next header token at or after `cursor`: its start and end, or `None` when the header
/// ends first.
pub open spec fn next_token_range(bytes: Seq<u8>, cursor: int) -> Option<(int, int)> {
    let start = skip_layout(bytes, cursor);
    let end = token_end(bytes, start);
    if start == end {
        None
    } else {
        Some((start, end))
    }
}

/// A header number at or after `cursor` and where it ends, or the reason it is refused.
pub open spec fn header_number(bytes: Seq<u8>, cursor: int, label: Seq<char>) -> Result<
    (u32, int),
    Seq<char>,
> {
    match next_token_range(bytes, cursor) {
        None => Err("PGM header is truncated"@),
        Some((start, end)) => {
            let token = bytes.subrange(start, end);
            if !valid_utf8(token) {
                Err(label + " is not ASCII"@)
            } else {
                match parse_u32_spec(token) {
                    None => Err(label + " is invalid"@),
                    Some(value) => Ok((value, end)),
                }
            }
        },
    }
}

/// The pixels after the header that ends at `cursor`: one whitespace byte (or `\r\n`), then
/// exactly `width * height` bytes within the image limit.
pub open spec fn pgm_pixels(bytes: Seq<u8>, cursor: int, width: u32, height: u32) -> Result<
    (u32, u32, Seq<u8>),
    Seq<char>,
> {
    if cursor >= bytes.len() || !is_layout_space(bytes[cursor]) {
        Err("PGM header is truncated"@)
    } else {
        let start = if bytes[cursor] == 0x0d && cursor + 1 < bytes.len() && bytes[cursor + 1]
            == 0x0a {
            cursor + 2
        } else {
            cursor + 1
        };
        let area = width * height;
        if area > usize::MAX {
            Err("PGM dimensions exceed this platform"@)
        } else if area > MAX_IMAGE_BYTES {
            Err("PGM exceeds image size limit"@)
        } else if bytes.len() - start != area {
            Err("PGM pixel length does not match its dimensions"@)
        } else {
            Ok((width, height, bytes.subrange(start, bytes.len() as int)))
        }
    }
}

/// What decoding a binary P5 PGM gives: its width, height and pixels, or the reason it is
/// refused. The header is `P5`, width, height and maxval (which must be 255), separated by
/// whitespace and `#` comments.
pub open spec fn pgm_decoding(bytes: Seq<u8>) -> Result<(u32, u32, Seq<u8>), Seq<char>> {
    match next_token_range(bytes, 0) {
        None => Err("PGM header is truncated"@),
        Some((start, end)) => if bytes.subrange(start, end) != seq![0x50u8, 0x35u8] {
            Err("PGM must use binary P5 encoding"@)
        } else {
            match header_number(bytes, end, "PGM width"@) {
                Err(m) => Err(m),
                Ok((width, after_width)) => match header_number(
                    bytes,
                    after_width,
                    "PGM height"@,
                ) {
                    Err(m) => Err(m),
                    Ok((height, after_height)) => match header_number(
                        bytes,
                        after_height,
                        "PGM maxval"@,
                    ) {
                        Err(m) => Err(m),
                        Ok((max_value, after_max)) => if max_value != 255 {
                            Err("PGM maxval must be 255"@)
                        } else {
                            pgm_pixels(bytes, after_max, width, height)
                        },
                    },
                },
            }
        },
    }
}

/// Find the next header token at or after `cursor`.
pub fn next_token(bytes: &[u8], cursor: usize) -> (res: Result<(usize, usize), Error>)
    requires
        cursor <= bytes@.len(),
    ensures
        match res {
            Ok((start, end)) => next_token_range(bytes@, cursor as int) == Some(
                (start as int, end as int),
            ) && cursor <= start < end <= bytes@.len(),
            Err(e) => next_token_range(bytes@, cursor as int) is None && e.text()
                == "PGM header is truncated"@,
        },
{
    let ghost b = bytes@;
    let mut c = cursor;
    loop
        invariant
            cursor <= c <= bytes@.len(),
            b == bytes@,
            skip_layout(b, c as int) == skip_layout(b, cursor as int),
        ensures
            cursor <= c <= bytes@.len(),
            c == skip_layout(b, cursor as int),
        decreases bytes@.len() - c,
    {
        if c < bytes.len() && (bytes[c] == 0x20 || bytes[c] == 0x09 || bytes[c] == 0x0a
            || bytes[c] == 0x0c || bytes[c] == 0x0d) {
            c = c + 1;
        } else if c < bytes.len() && bytes[c] == 0x23 {
            proof {
                lemma_comment_end_bounds(b, c as int);
            }
            let ghost hash = c;
            while c < bytes.len() && bytes[c] != 0x0a
                invariant
                    hash <= c <= bytes@.len(),
                    b == bytes@,
                    comment_end(b, c as int) == comment_end(b, hash as int),
                decreases bytes@.len() - c,
            {
                c = c + 1;
            }
        } else {
            break;
        }
    }
    let start = c;
    assert(start == skip_layout(b, cursor as int));
    while c < bytes.len() && !(bytes[c] == 0x20 || bytes[c] == 0x09 || bytes[c] == 0x0a
        || bytes[c] == 0x0c || bytes[c] == 0x0d) && bytes[c] != 0x23
        invariant
            start <= c <= bytes@.len(),
            b == bytes@,
            token_end(b, c as int) == token_end(b, start as int),
        decreases bytes@.len() - c,
    {
        c = c + 1;
    }
    if start == c {
        return Err(Error::invalid("PGM header is truncated"));
    }
    Ok((start, c))
}

fn read_number(bytes: &[u8], cursor: usize, label: &str) -> (res: Result<(u32, usize), Error>)
    requires
        cursor <= bytes@.len(),
    ensures
        match res {
            Ok((value, end)) => header_number(bytes@, cursor as int, label@) == Ok::<
                (u32, int),
                Seq<char>,
            >((value, end as int)) && cursor < end <= bytes@.len(),
            Err(e) => header_number(bytes@, cursor as int, label@) == Err::<(u32, int), Seq<char>>(
                e.text(),
            ),
        },
{
    let (start, end) = next_token(bytes, cursor)?;
    let value = parse_u32(bytes, start, end, label)?;
    Ok((value, end))
}

/// Decode a binary P5 PGM with maxval 255 into its width, height and pixels.
pub fn decode_pgm(bytes: &[u8]) -> (res: Result<(u32, u32, Vec<u8>), Error>)
    ensures
        match pgm_decoding(bytes@) {
            Ok((width, height, pixels)) => res matches Ok((w, h, p)) && w == width && h
                == height && p@ == pixels,
            Err(m) => err_text(res) == Some(m),
        },
{
    let (magic_start, magic_end) = next_token(bytes, 0)?;
    if !(magic_end - magic_start == 2 && bytes[magic_start] == 0x50 && bytes[magic_start + 1]
        == 0x35) {
        proof {
            let magic = bytes@.subrange(magic_start as int, magic_end as int);
            let expected = seq![0x50u8, 0x35u8];
            assert(expected.len() == 2 && expected[0] == 0x50u8 && expected[1] == 0x35u8);
            if magic_end - magic_start == 2 {
                assert(bytes@.subrange(magic_start as int, magic_end as int)[0]
                    == bytes@[magic_start as int]);
                assert(bytes@.subrange(magic_start as int, magic_end as int)[1]
                    == bytes@[magic_start + 1]);
            }
        }
        return Err(Error::invalid("PGM must use binary P5 encoding"));
    }
    assert(bytes@.subrange(magic_start as int, magic_end as int) =~= seq![0x50u8, 0x35u8]);
    let (width, after_width) = read_number(bytes, magic_end, "PGM width")?;
    let (height, after_height) = read_number(bytes, after_width, "PGM height")?;
    let (max_value, after_max) = read_number(bytes, after_height, "PGM maxval")?;
    if max_value != 255 {
        return Err(Error::invalid("PGM maxval must be 255"));
    }
    let mut cursor = after_max;
    if cursor >= bytes.len() || !(bytes[cursor] == 0x20 || bytes[cursor] == 0x09 || bytes[cursor]
        == 0x0a || bytes[cursor] == 0x0c || bytes[cursor] == 0x0d) {
        return Err(Error::invalid("PGM header is truncated"));
    }
    if bytes[cursor] == 0x0d && cursor + 1 < bytes.len() && bytes[cursor + 1] == 0x0a {
        cursor = cursor + 2;
    } else {
        cursor = cursor + 1;
    }
    assert((width as u64) * (height as u64) <= u64::MAX) by (nonlinear_arith)
        requires
            width <= u32::MAX,
            height <= u32::MAX,
    ;
    let area: u64 = (width as u64) * (height as u64);
    if area > usize::MAX as u64 {
        return Err(Error::invalid("PGM dimensions exceed this platform"));
    }
    let expected = area as usize;
    if expected > MAX_IMAGE_BYTES {
        return Err(Error::invalid("PGM exceeds image size limit"));
    }
    if bytes.len() - cursor != expected {
        return Err(Error::invalid("PGM pixel length does not match its dimensions"));
    }
    let mut pixels: Vec<u8> = Vec::new();
    let mut i = cursor;
    while i < bytes.len()
        invariant
            cursor <= i <= bytes@.len(),
            pixels@ == bytes@.subrange(cursor as int, i as int),
        decreases bytes@.len() - i,
    {
        pixels.push(bytes[i]);
        i += 1;
        assert(pixels@ =~= bytes@.subrange(cursor as int, i as int));
    }
    Ok((width, height, pixels))
}

/// The binary P5 encoding of an image: `P5`, the width and height in decimal, maxval 255,
/// each followed by one whitespace byte, then the pixels.
pub open spec fn pgm_encoding(image: ImageView) -> Seq<u8> {
    seq![0x50u8, 0x35u8, 0x0au8] + decimal(image.width as nat) + seq![0x20u8] + decimal(
        image.height as nat,
    ) + seq![0x0au8, 0x32u8, 0x35u8, 0x35u8, 0x0au8] + image.pixels
}

/// Encode an image as a binary P5 PGM with maxval 255.
pub fn encode_pgm(image: &CanonicalImage) -> (bytes: Vec<u8>)
    ensures
        bytes@ == pgm_encoding(image@),
{
    let mut bytes: Vec<u8> = Vec::new();
    bytes.push(0x50);
    bytes.push(0x35);
    bytes.push(0x0a);
    push_decimal(&mut bytes, image.width() as u64);
    bytes.push(0x20);
    push_decimal(&mut bytes, image.height() as u64);
    bytes.push(0x0a);
    bytes.push(0x32);
    bytes.push(0x35);
    bytes.push(0x35);
    bytes.push(0x0a);
    let ghost header = bytes@;
    let pixels = image.pixels();
    let mut i: usize = 0;
    while i < pixels.len()
        invariant
            0 <= i <= pixels@.len(),
            bytes@ == header + pixels@.take(i as int),
        decreases pixels@.len() - i,
    {
        bytes.push(pixels[i]);
        i += 1;
        assert(bytes@ =~= header + pixels@.take(i as int));
    }
    assert(pixels@.take(i as int) == pixels@);
    assert(bytes@ =~= pgm_encoding(image@));
    bytes
}

proof fn lemma_decimal_digits(n: nat)
    ensures
        decimal(n).len() >= 1,
        all_digits(decimal(n)),
        digits_value(decimal(n)) == n,
    decreases n,
{
    if n >= 10 {
        lemma_decimal_digits(n / 10);
        let d = decimal(n);
        assert(d.drop_last() == decimal(n / 10));
        assert(d.last() == (48 + n % 10) as u8);
        assert((n / 10) * 10 + n % 10 == n) by (nonlinear_arith);
        assert(digits_value(d) == digits_value(decimal(n / 10)) * 10 + n % 10);
        assert forall|i: int| 0 <= i < d.len() implies is_digit(#[trigger] d[i]) by {
            if i < d.len() - 1 {
                assert(d[i] == decimal(n / 10)[i]);
            }
        }
    } else {
        assert(decimal(n).drop_last() =~= Seq::<u8>::empty());
        assert(digits_value(decimal(n).drop_last()) == 0);
    }
}

proof fn lemma_ascii_is_utf8(bytes: Seq<u8>)
    requires
        forall|i: int| 0 <= i < bytes.len() ==> #[trigger] bytes[i] < 0x80,
    ensures
        valid_utf8(bytes),
{
    assert(bytes.subrange(0, 0) =~= Seq::<u8>::empty());
    assert(partial_valid_utf8(bytes, 0));
    assert forall|i: int| 0 <= 0 <= i < bytes.len() <= bytes.len() implies #[trigger]
        is_leading_byte_width_1(bytes[i]) by {
        assert(bytes[i] < 0x80);
    }
    partial_valid_utf8_extend_ascii_block(bytes, 0, bytes.len() as int);
    assert(bytes.subrange(0, bytes.len() as int) =~= bytes);
}

proof fn lemma_parse_decimal(n: nat)
    requires
        n <= u32::MAX,
    ensures
        valid_utf8(decimal(n)),
        parse_u32_spec(decimal(n)) == Some(n as u32),
{
    lemma_decimal_digits(n);
    let d = decimal(n);
    assert(is_digit(d[0]));
    assert(unsigned_digits(d) == d);
    assert forall|i: int| 0 <= i < d.len() implies #[trigger] d[i] < 0x80 by {
        assert(is_digit(d[i]));
    }
    lemma_ascii_is_utf8(d);
}

proof fn lemma_token_end_run(bytes: Seq<u8>, s: int, e: int)
    requires
        0 <= s <= e <= bytes.len(),
        forall|i: int| s <= i < e ==> !is_layout_space(#[trigger] bytes[i]) && bytes[i] != 0x23,
        e == bytes.len() || is_layout_space(bytes[e]) || bytes[e] == 0x23,
    ensures
        token_end(bytes, s) == e,
    decreases e - s,
{
    if s < e {
        lemma_token_end_run(bytes, s + 1, e);
    }
}

proof fn lemma_number_at(bytes: Seq<u8>, cursor: int, n: nat, label: Seq<char>)
    requires
        0 <= cursor,
        n <= u32::MAX,
        cursor + decimal(n).len() + 1 < bytes.len(),
        is_layout_space(bytes[cursor]),
        bytes.subrange(cursor + 1, cursor + 1 + decimal(n).len()) == decimal(n),
        is_layout_space(bytes[cursor + 1 + decimal(n).len()]),
    ensures
        header_number(bytes, cursor, label) == Ok::<(u32, int), Seq<char>>(
            (n as u32, cursor + 1 + decimal(n).len()),
        ),
{
    let d = decimal(n);
    let s = cursor + 1;
    let e = cursor + 1 + d.len();
    lemma_decimal_digits(n);
    lemma_parse_decimal(n);
    assert(bytes[s] == d[0]);
    assert(is_digit(d[0]));
    assert(skip_layout(bytes, s) == s);
    assert(skip_layout(bytes, cursor) == s);
    assert forall|i: int| s <= i < e implies !is_layout_space(#[trigger] bytes[i]) && bytes[i]
        != 0x23 by {
        assert(bytes[i] == d[i - s]);
        assert(is_digit(d[i - s]));
    }
    lemma_token_end_run(bytes, s, e);
}

/// Decoding an encoded image gives back its width, height and pixels exactly.
pub proof fn lemma_pgm_round_trip(image: ImageView)
    requires
        image_wf(image),
    ensures
        pgm_decoding(pgm_encoding(image)) == Ok::<(u32, u32, Seq<u8>), Seq<char>>(
            (image.width, image.height, image.pixels),
        ),
{
    let enc = pgm_encoding(image);
    let dw = decimal(image.width as nat);
    let dh = decimal(image.height as nat);
    let dm = decimal(255);
    lemma_decimal_digits(image.width as nat);
    lemma_decimal_digits(image.height as nat);
    let lw = dw.len() as int;
    let lh = dh.len() as int;
    reveal_with_fuel(decimal, 3);
    assert(dm =~= seq![0x32u8, 0x35u8, 0x35u8]);
    assert(enc =~= seq![0x50u8, 0x35u8, 0x0au8] + dw + seq![0x20u8] + dh + seq![0x0au8] + dm
        + seq![0x0au8] + image.pixels);
    // magic
    assert(skip_layout(enc, 0) == 0);
    assert(token_end(enc, 2) == 2);
    assert(token_end(enc, 1) == 2);
    assert(token_end(enc, 0) == 2);
    assert(enc.subrange(0, 2) =~= seq![0x50u8, 0x35u8]);
    // width, height, maxval
    assert(enc.subrange(3, 3 + lw) =~= dw);
    lemma_number_at(enc, 2, image.width as nat, "PGM width"@);
    assert(enc.subrange(4 + lw, 4 + lw + lh) =~= dh);
    lemma_number_at(enc, 3 + lw, image.height as nat, "PGM height"@);
    assert(enc.subrange(5 + lw + lh, 8 + lw + lh) =~= dm);
    lemma_number_at(enc, 4 + lw + lh, 255, "PGM maxval"@);
    // pixels
    assert(enc.subrange(9 + lw + lh, enc.len() as int) =~= image.pixels);
}

/// Fixed name of a bundle's manifest.
pub const CAPTURE_MANIFEST: &'static str = "capture.json";

/// Fixed name of a bundle's image.
pub const CAPTURE_IMAGE: &'static str = "image.pgm";

/// The manifest version written and accepted.
pub const CAPTURE_BUNDLE_VERSION: u32 = 1;

/// Largest manifest file, in bytes.
pub const MAX_MANIFEST_BYTES: usize = 64 * 1024;

/// Largest image file, in bytes: the image limit plus room for the header.
pub const MAX_PGM_BYTES: usize = MAX_IMAGE_BYTES + 128;

/// The content of a version-1 `capture.json` manifest.
#[derive(Clone, PartialEq, Eq)]
pub struct CaptureManifest {
    /// Manifest version; only version 1 is accepted.
    pub version: u32,
    /// Sensor/capture geometry profile identifier.
    pub capture_profile_id: String,
    /// Press, swipe, or unknown capture shape.
    pub capture_kind: CaptureKind,
    /// Whether the source reports an incomplete capture.
    pub partial: bool,
    /// Image width the PGM must declare.
    pub width: u32,
    /// Image height the PGM must declare.
    pub height: u32,
    /// Horizontal scan resolution in pixels per inch.
    pub x_resolution_ppi: u16,
    /// Vertical scan resolution in pixels per inch.
    pub y_resolution_ppi: u16,
    /// Name of the image file; always `image.pgm`.
    pub image: String,
}

/// The outcome of scanning a bundle's entries from index `i`, having or not having seen the
/// manifest and the image already.
pub open spec fn entries_scan(names: Seq<String>, i: int, saw_manifest: bool, saw_image: bool) -> Option<
    Seq<char>,
>
    decreases names.len() - i,
{
    if i < 0 || i >= names.len() {
        if !saw_manifest || !saw_image {
            Some("capture bundle must contain capture.json and image.pgm"@)
        } else {
            None
        }
    } else if names[i]@ == CAPTURE_MANIFEST@ {
        if saw_manifest {
            Some("capture bundle contains duplicate manifest"@)
        } else {
            entries_scan(names, i + 1, true, saw_image)
        }
    } else if names[i]@ == CAPTURE_IMAGE@ {
        if saw_image {
            Some("capture bundle contains duplicate image"@)
        } else {
            entries_scan(names, i + 1, saw_manifest, true)
        }
    } else {
        Some("capture bundle contains an unexpected entry"@)
    }
}

/// Check a bundle directory's entry names, in listing order: exactly one `capture.json`, exactly
/// one `image.pgm`, and nothing else.
pub fn validate_bundle_entries(names: &[String]) -> (res: Result<(), Error>)
    ensures
        err_text(res) == entries_scan(names@, 0, false, false),
{
    let mut saw_manifest = false;
    let mut saw_image = false;
    let mut i: usize = 0;
    while i < names.len()
        invariant
            0 <= i <= names@.len(),
            entries_scan(names@, 0, false, false) == entries_scan(
                names@,
                i as int,
                saw_manifest,
                saw_image,
            ),
        decreases names@.len() - i,
    {
        let name = names[i].as_str();
        if str_eq(name, CAPTURE_MANIFEST) {
            if saw_manifest {
                return Err(Error::invalid("capture bundle contains duplicate manifest"));
            }
            saw_manifest = true;
        } else if str_eq(name, CAPTURE_IMAGE) {
            if saw_image {
                return Err(Error::invalid("capture bundle contains duplicate image"));
            }
            saw_image = true;
        } else {
            return Err(Error::invalid("capture bundle contains an unexpected entry"));
        }
        i += 1;
    }
    if !saw_manifest || !saw_image {
        return Err(Error::invalid("capture bundle must contain capture.json and image.pgm"));
    }
    Ok(())
}

/// An image and its metadata must declare the same resolution.
pub open spec fn consistency_problem(image: ImageView, metadata: CaptureMetadata) -> Option<
    Seq<char>,
> {
    if image.x_resolution_ppi != metadata.x_resolution_ppi || image.y_resolution_ppi
        != metadata.y_resolution_ppi {
        Some("image and capture metadata resolutions differ"@)
    } else {
        None
    }
}

/// Check that an image and its metadata declare the same resolution.
pub fn validate_consistency(image: &CanonicalImage, metadata: &CaptureMetadata) -> (res: Result<
    (),
    Error,
>)
    ensures
        err_text(res) == consistency_problem(image@, *metadata),
{
    if image.x_resolution_ppi() != metadata.x_resolution_ppi || image.y_resolution_ppi()
        != metadata.y_resolution_ppi {
        return Err(Error::invalid("image and capture metadata resolutions differ"));
    }
    Ok(())
}

/// The metadata a manifest declares.
pub open spec fn manifest_metadata_view(manifest: CaptureManifest) -> CaptureMetadata {
    CaptureMetadata {
        capture_profile_id: manifest.capture_profile_id,
        capture_kind: manifest.capture_kind,
        partial: manifest.partial,
        x_resolution_ppi: manifest.x_resolution_ppi,
        y_resolution_ppi: manifest.y_resolution_ppi,
    }
}

/// The reason a manifest is refused before its image is read, or `None`.
pub open spec fn manifest_problem(manifest: CaptureManifest) -> Option<Seq<char>> {
    if manifest.version != CAPTURE_BUNDLE_VERSION {
        Some("unsupported capture bundle version"@)
    } else if manifest.image@ != CAPTURE_IMAGE@ {
        Some("capture bundle must use fixed image.pgm name"@)
    } else {
        metadata_problem(manifest_metadata_view(manifest))
    }
}

/// Check a manifest's version and image name, and return the metadata it declares once valid.
pub fn manifest_metadata(manifest: CaptureManifest) -> (res: Result<CaptureMetadata, Error>)
    ensures
        err_text(res) == manifest_problem(manifest),
        res matches Ok(metadata) ==> metadata == manifest_metadata_view(manifest),
{
    if manifest.version != CAPTURE_BUNDLE_VERSION {
        return Err(Error::invalid("unsupported capture bundle version"));
    }
    if !str_eq(manifest.image.as_str(), CAPTURE_IMAGE) {
        return Err(Error::invalid("capture bundle must use fixed image.pgm name"));
    }
    let metadata = CaptureMetadata {
        capture_profile_id: manifest.capture_profile_id,
        capture_kind: manifest.capture_kind,
        partial: manifest.partial,
        x_resolution_ppi: manifest.x_resolution_ppi,
        y_resolution_ppi: manifest.y_resolution_ppi,
    };
    metadata.validate()?;
    Ok(metadata)
}

/// What a validated manifest's image file gives: the image, or the reason it is refused.
pub open spec fn capture_image_outcome(
    width: u32,
    height: u32,
    metadata: CaptureMetadata,
    pgm: Seq<u8>,
) -> Result<ImageView, Seq<char>> {
    match pgm_decoding(pgm) {
        Err(m) => Err(m),
        Ok((w, h, pixels)) => if w != width || h != height {
            Err("manifest and PGM dimensions differ"@)
        } else {
            match image_problem(
                w,
                h,
                metadata.x_resolution_ppi,
                metadata.y_resolution_ppi,
                pixels.len(),
            ) {
                Some(m) => Err(m),
                None => Ok(
                    ImageView {
                        width: w,
                        height: h,
                        x_resolution_ppi: metadata.x_resolution_ppi,
                        y_resolution_ppi: metadata.y_resolution_ppi,
                        pixels,
                    },
                ),
            }
        },
    }
}

/// Decode a bundle's image file against the dimensions its manifest declares, and build the
/// image at the metadata's resolution.
pub fn capture_image(width: u32, height: u32, metadata: &CaptureMetadata, pgm: &[u8]) -> (res:
    Result<CanonicalImage, Error>)
    ensures
        match capture_image_outcome(width, height, *metadata, pgm@) {
            Ok(view) => res matches Ok(image) && image@ == view,
            Err(m) => err_text(res) == Some(m),
        },
{
    let (w, h, pixels) = decode_pgm(pgm)?;
    if w != width || h != height {
        return Err(Error::invalid("manifest and PGM dimensions differ"));
    }
    let image = CanonicalImage::new(
        w,
        h,
        metadata.x_resolution_ppi,
        metadata.y_resolution_ppi,
        pixels,
    )?;
    Ok(image)
}

/// The manifest that describes an image and its metadata.
pub open spec fn manifest_of(image: ImageView, metadata: CaptureMetadata) -> CaptureManifest {
    CaptureManifest {
        version: CAPTURE_BUNDLE_VERSION,
        capture_profile_id: metadata.capture_profile_id,
        capture_kind: metadata.capture_kind,
        partial: metadata.partial,
        width: image.width,
        height: image.height,
        x_resolution_ppi: image.x_resolution_ppi,
        y_resolution_ppi: image.y_resolution_ppi,
        image: arbitrary(),
    }
}

/// Check an image and its metadata before they are saved, and describe them as a manifest.
pub fn capture_manifest(image: &CanonicalImage, metadata: &CaptureMetadata) -> (res: Result<
    CaptureManifest,
    Error,
>)
    ensures
        err_text(res) == first_problem(
            metadata_problem(*metadata),
            consistency_problem(image@, *metadata),
        ),
        res matches Ok(manifest) ==> manifest == (CaptureManifest {
            image: manifest.image,
            ..manifest_of(image@, *metadata)
        }) && manifest.image@ == CAPTURE_IMAGE@,
{
    metadata.validate()?;
    validate_consistency(image, metadata)?;
    Ok(
        CaptureManifest {
            version: CAPTURE_BUNDLE_VERSION,
            capture_profile_id: metadata.capture_profile_id.clone(),
            capture_kind: metadata.capture_kind,
            partial: metadata.partial,
            width: image.width(),
            height: image.height(),
            x_resolution_ppi: image.x_resolution_ppi(),
            y_resolution_ppi: image.y_resolution_ppi(),
            image: CAPTURE_IMAGE.to_owned(),
        },
    )
}

/// A saved capture loads back as it was saved: the manifest written for a valid image and
/// metadata is accepted, declares that metadata, and its image file decodes to the same image.
pub proof fn lemma_bundle_round_trip(
    image: ImageView,
    metadata: CaptureMetadata,
    manifest: CaptureManifest,
)
    requires
        image_wf(image),
        metadata_problem(metadata) is None,
        consistency_problem(image, metadata) is None,
        manifest == (CaptureManifest { image: manifest.image, ..manifest_of(image, metadata) }),
        manifest.image@ == CAPTURE_IMAGE@,
    ensures
        manifest_problem(manifest) is None,
        manifest_metadata_view(manifest) == metadata,
        capture_image_outcome(
            manifest.width,
            manifest.height,
            manifest_metadata_view(manifest),
            pgm_encoding(image),
        ) == Ok::<ImageView, Seq<char>>(image),
{
    lemma_pgm_round_trip(image);
}

} // verus!
