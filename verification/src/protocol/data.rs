//! Base64 payloads carried inside protocol messages: capture frames and device templates.

use base64::Engine;
use vstd::prelude::*;
use vstd::utf8::*;

use crate::error::{err_text, problem_of, utf8_len, Error};

verus! {

/// Maximum decoded frame size.
pub const MAX_DECODED_FRAME_BYTES: usize = 1024 * 1024;

/// Maximum decoded device-template size, matching the domain's own bound.
pub const MAX_DECODED_TEMPLATE_BYTES: usize = crate::domain::MAX_DEVICE_TEMPLATE_BYTES;

/// The text that the `base64` crate's standard padded engine produces for `bytes`.
pub uninterp spec fn base64_standard_encode(bytes: Seq<u8>) -> Seq<char>;

/// What the `base64` crate's standard padded engine decodes from the byte string `text`, or
/// `None` where it reports a decoding error.
pub uninterp spec fn base64_standard_decode(text: Seq<u8>) -> Option<Seq<u8>>;

/// Number of base64 characters for `n` bytes with padding: four per started group of three.
pub open spec fn padded_base64_len(n: nat) -> nat {
    4 * ((n + 2) / 3)
}

/// Encodes with `base64::engine::general_purpose::STANDARD` (`Engine::encode`).
///
/// Claimed of the crate: the result is the named standard encoding of the input; it is
/// `4 * ceil(n / 3)` characters long (the crate's `encoded_len` with padding); every character
/// is ASCII (the standard alphabet and `=`); and the same engine decodes it back to the input.
/// The engine panics when that length overflows `usize`, which `requires` rules out.
#[verifier::external_body]
fn standard_base64_encode(bytes: &[u8]) -> (text: String)
    requires
        padded_base64_len(bytes@.len()) <= usize::MAX,
    ensures
        text@ == base64_standard_encode(bytes@),
        text@.len() == padded_base64_len(bytes@.len()),
        is_ascii_chars(text@),
        base64_standard_decode(encode_utf8(text@)) == Some(bytes@),
{
    base64::engine::general_purpose::STANDARD.encode(bytes)
}

/// Decodes with `base64::engine::general_purpose::STANDARD` (`Engine::decode`), mapping its
/// `DecodeError` to `None`.
///
/// Claimed of the crate: the result is the named standard decoding of the text's bytes; and,
/// since the standard engine requires canonical padding, a text it decodes is exactly as long as
/// the padded encoding of what it decodes to (four characters per started group of three bytes).
#[verifier::external_body]
fn standard_base64_decode(text: &[u8]) -> (bytes: Option<Vec<u8>>)
    ensures
        match bytes {
            Some(b) => base64_standard_decode(text@) == Some(b@) && text@.len()
                == padded_base64_len(b@.len()),
            None => base64_standard_decode(text@) is None,
        },
{
    base64::engine::general_purpose::STANDARD.decode(text).ok()
}

/// Upper estimate of the decoded size of `text_len` base64 characters, or `None` where the
/// computation overflows `usize`.
pub open spec fn decoded_size_estimate(text_len: nat) -> Option<nat> {
    if text_len + 3 > usize::MAX {
        None
    } else if (text_len + 3) / 4 * 3 > usize::MAX {
        None
    } else {
        Some(((text_len + 3) / 4 * 3) as nat)
    }
}

fn estimate_decoded_size(text_len: usize) -> (estimate: Option<usize>)
    ensures
        match decoded_size_estimate(text_len as nat) {
            Some(e) => estimate == Some(e as usize),
            None => estimate is None,
        },
{
    match text_len.checked_add(3) {
        None => None,
        Some(padded) => (padded / 4).checked_mul(3),
    }
}

/// What decoding a device template's base64 gives: the bytes, or the reason it is refused.
pub open spec fn template_data_decoding(text: Seq<char>) -> Result<Seq<u8>, Seq<char>> {
    match decoded_size_estimate(utf8_len(text) as nat) {
        None => Err("base64 template size overflow"@),
        Some(e) => if e > MAX_DECODED_TEMPLATE_BYTES + 2 {
            Err("decoded protocol template exceeds the limit"@)
        } else {
            match base64_standard_decode(encode_utf8(text)) {
                None => Err("protocol template contains invalid base64"@),
                Some(d) => if d.len() == 0 {
                    Err("protocol template is empty"@)
                } else if d.len() > MAX_DECODED_TEMPLATE_BYTES {
                    Err("decoded protocol template exceeds the limit"@)
                } else {
                    Ok(d)
                },
            }
        },
    }
}

/// What encoding a device template gives: its base64 text, or the reason it is refused.
pub open spec fn template_data_encoding(template: Seq<u8>) -> Result<Seq<char>, Seq<char>> {
    if template.len() == 0 {
        Err("protocol template is empty"@)
    } else if template.len() > MAX_DECODED_TEMPLATE_BYTES {
        Err("decoded protocol template exceeds the limit"@)
    } else {
        Ok(base64_standard_encode(template))
    }
}

/// What decoding a frame's base64 gives: the bytes, or the reason it is refused.
pub open spec fn frame_data_decoding(text: Seq<char>) -> Result<Seq<u8>, Seq<char>> {
    match decoded_size_estimate(utf8_len(text) as nat) {
        None => Err("base64 frame size overflow"@),
        Some(e) => if e > MAX_DECODED_FRAME_BYTES + 2 {
            Err("decoded protocol frame exceeds 1 MiB"@)
        } else {
            match base64_standard_decode(encode_utf8(text)) {
                None => Err("protocol frame contains invalid base64"@),
                Some(d) => if d.len() > MAX_DECODED_FRAME_BYTES {
                    Err("decoded protocol frame exceeds 1 MiB"@)
                } else {
                    Ok(d)
                },
            }
        },
    }
}

/// What encoding a frame gives: its base64 text, or the reason it is refused.
pub open spec fn frame_data_encoding(frame: Seq<u8>) -> Result<Seq<char>, Seq<char>> {
    if frame.len() > MAX_DECODED_FRAME_BYTES {
        Err("decoded protocol frame exceeds 1 MiB"@)
    } else {
        Ok(base64_standard_encode(frame))
    }
}

/// The size estimate of a padded encoding of `n` bytes is at most `n + 2`.
proof fn lemma_encoded_size(text: Seq<char>, n: nat)
    requires
        is_ascii_chars(text),
        text.len() == padded_base64_len(n),
        n <= MAX_DECODED_FRAME_BYTES,
    ensures
        utf8_len(text) == text.len(),
        decoded_size_estimate(utf8_len(text) as nat) matches Some(e) && e <= n + 2,
{
    is_ascii_chars_encode_utf8(text);
    let k = (n + 2) / 3;
    assert((4 * k + 3) / 4 == k) by (nonlinear_arith);
    assert(3 * k <= n + 2) by (nonlinear_arith)
        requires
            k == (n + 2) / 3,
    ;
}

/// Base64-encode a device template after enforcing the template limit.
pub fn encode_template_data(template: &[u8]) -> (res: Result<String, Error>)
    ensures
        err_text(res) == problem_of(template_data_encoding(template@)),
        res matches Ok(text) ==> template_data_encoding(template@) == Ok::<Seq<char>, Seq<char>>(
            text@,
        ),
        res matches Ok(text) ==> template_data_decoding(text@) == Ok::<Seq<u8>, Seq<char>>(
            template@,
        ),
{
    if template.len() == 0 {
        return Err(Error::invalid("protocol template is empty"));
    }
    if template.len() > MAX_DECODED_TEMPLATE_BYTES {
        return Err(Error::invalid("decoded protocol template exceeds the limit"));
    }
    let text = standard_base64_encode(template);
    proof {
        lemma_encoded_size(text@, template@.len());
    }
    Ok(text)
}

/// Decode a device template's base64 after enforcing the template limit.
///
/// Bounded far below the frame limit on purpose: a template is a reference the sensor hands
/// back, not an image.
pub fn decode_template_data(template_base64: &str) -> (res: Result<Vec<u8>, Error>)
    ensures
        err_text(res) == problem_of(template_data_decoding(template_base64@)),
        res matches Ok(bytes) ==> template_data_decoding(template_base64@) == Ok::<
            Seq<u8>,
            Seq<char>,
        >(bytes@),
        res matches Ok(bytes) ==> encode_utf8(template_base64@).len() == padded_base64_len(
            bytes@.len(),
        ),
{
    let estimated = match estimate_decoded_size(template_base64.len()) {
        None => return Err(Error::invalid("base64 template size overflow")),
        Some(e) => e,
    };
    if estimated > MAX_DECODED_TEMPLATE_BYTES + 2 {
        return Err(Error::invalid("decoded protocol template exceeds the limit"));
    }
    let decoded = match standard_base64_decode(template_base64.as_bytes()) {
        None => return Err(Error::invalid("protocol template contains invalid base64")),
        Some(d) => d,
    };
    if decoded.len() == 0 {
        return Err(Error::invalid("protocol template is empty"));
    }
    if decoded.len() > MAX_DECODED_TEMPLATE_BYTES {
        return Err(Error::invalid("decoded protocol template exceeds the limit"));
    }
    Ok(decoded)
}

/// Base64-encode a decoded frame after enforcing the 1 MiB limit.
pub fn encode_frame_data(frame: &[u8]) -> (res: Result<String, Error>)
    ensures
        err_text(res) == problem_of(frame_data_encoding(frame@)),
        res matches Ok(text) ==> frame_data_encoding(frame@) == Ok::<Seq<char>, Seq<char>>(
            text@,
        ),
        res matches Ok(text) ==> frame_data_decoding(text@) == Ok::<Seq<u8>, Seq<char>>(frame@),
{
    if frame.len() > MAX_DECODED_FRAME_BYTES {
        return Err(Error::invalid("decoded protocol frame exceeds 1 MiB"));
    }
    let text = standard_base64_encode(frame);
    proof {
        lemma_encoded_size(text@, frame@.len());
    }
    Ok(text)
}

/// Decode a response frame's base64 after enforcing the 1 MiB limit.
pub fn decode_frame_data(data_base64: &str) -> (res: Result<Vec<u8>, Error>)
    ensures
        err_text(res) == problem_of(frame_data_decoding(data_base64@)),
        res matches Ok(bytes) ==> frame_data_decoding(data_base64@) == Ok::<Seq<u8>, Seq<char>>(
            bytes@,
        ),
        res matches Ok(bytes) ==> encode_utf8(data_base64@).len() == padded_base64_len(
            bytes@.len(),
        ),
{
    let estimated = match estimate_decoded_size(data_base64.len()) {
        None => return Err(Error::invalid("base64 frame size overflow")),
        Some(e) => e,
    };
    if estimated > MAX_DECODED_FRAME_BYTES + 2 {
        return Err(Error::invalid("decoded protocol frame exceeds 1 MiB"));
    }
    let decoded = match standard_base64_decode(data_base64.as_bytes()) {
        None => return Err(Error::invalid("protocol frame contains invalid base64")),
        Some(d) => d,
    };
    if decoded.len() > MAX_DECODED_FRAME_BYTES {
        return Err(Error::invalid("decoded protocol frame exceeds 1 MiB"));
    }
    Ok(decoded)
}

/// A device template read from base64 is what the standard decoder gives for the text, and
/// it holds between one byte and 64 KiB; a frame holds at most 1 MiB. Text the decoder refuses,
/// an empty template and an oversized payload are all refused.
pub proof fn lemma_decoded_payloads_are_bounded(text: Seq<char>)
    ensures
        template_data_decoding(text) matches Ok(bytes) ==> {
            &&& base64_standard_decode(encode_utf8(text)) == Some(bytes)
            &&& 1 <= bytes.len() <= 64 * 1024
        },
        frame_data_decoding(text) matches Ok(bytes) ==> {
            &&& base64_standard_decode(encode_utf8(text)) == Some(bytes)
            &&& bytes.len() <= 1024 * 1024
        },
        base64_standard_decode(encode_utf8(text)) is None ==> template_data_decoding(text) is Err
            && frame_data_decoding(text) is Err,
        base64_standard_decode(encode_utf8(text)) matches Some(bytes) && (bytes.len() == 0
            || bytes.len() > 64 * 1024) ==> template_data_decoding(text) is Err,
        base64_standard_decode(encode_utf8(text)) matches Some(bytes) && bytes.len() > 1024 * 1024
            ==> frame_data_decoding(text) is Err,
{
}

} // verus!
