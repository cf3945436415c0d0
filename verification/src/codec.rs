//! Decoding of the text-encoded fields of the remote records: timestamps
//! sent as decimal milliseconds, binary payloads sent as URL-safe base64.
//!
//! A field that does not decode fails its record; nothing is retried.

use crate::time::{Timestamp, MAX_SECS, MIN_SECS};
use vstd::prelude::*;
use vstd::string::StringSliceAdditionalSpecFns;

verus! {

/// Why a text-encoded field of a record could not be decoded.
#[derive(Debug, PartialEq, Eq, Clone, Copy, Structural)]
pub enum PayloadError {
    /// A timestamp is not a decimal number that fits 64 bits.
    InvalidNumber,
    /// A timestamp lies outside the representable range of dates.
    DateOutOfRange,
    /// A binary payload is not valid padded URL-safe base64.
    InvalidBase64,
}

/// Whether a byte is an ASCII decimal digit.
pub open spec fn is_digit(b: u8) -> bool {
    0x30 <= b <= 0x39
}

/// Whether every byte is an ASCII decimal digit.
pub open spec fn all_digits(digits: Seq<u8>) -> bool {
    forall|i: int| 0 <= i < digits.len() ==> is_digit(#[trigger] digits[i])
}

/// The number that a sequence of decimal digits denotes.
pub open spec fn digits_value(digits: Seq<u8>) -> int
    decreases digits.len(),
{
    if digits.len() == 0 {
        0
    } else {
        digits_value(digits.drop_last()) * 10 + (digits.last() - 0x30)
    }
}

/// Whether the text starts with a sign.
pub open spec fn has_sign(text: Seq<u8>) -> bool {
    text.len() > 0 && (text[0] == 0x2d || text[0] == 0x2b)
}

/// The digits of the text: all of it but a leading sign.
pub open spec fn digits_of(text: Seq<u8>) -> Seq<u8> {
    if has_sign(text) {
        text.drop_first()
    } else {
        text
    }
}

/// The integer that a decimal text denotes: an optional `+` or `-`, then one
/// or more digits and nothing else.
pub open spec fn decimal_value(text: Seq<u8>) -> Option<int> {
    let digits = digits_of(text);
    if digits.len() == 0 || !all_digits(digits) {
        None
    } else if text[0] == 0x2d {
        Some(-digits_value(digits))
    } else {
        Some(digits_value(digits))
    }
}

/// The 64-bit integer that a decimal text denotes, if it denotes one.
pub open spec fn decimal_i64(text: Seq<u8>) -> Option<i64> {
    match decimal_value(text) {
        Some(v) => if i64::MIN <= v <= i64::MAX {
            Some(v as i64)
        } else {
            None
        },
        None => None,
    }
}

/// A sequence of digits denotes at least what any of its prefixes denotes.
proof fn lemma_digits_value_monotonic(digits: Seq<u8>, k: int)
    requires
        all_digits(digits),
        0 <= k <= digits.len(),
    ensures
        0 <= digits_value(digits.take(k)) <= digits_value(digits),
    decreases digits.len() - k,
{
    if k == digits.len() {
        assert(digits.take(k) =~= digits);
        lemma_digits_value_nonnegative(digits);
    } else {
        lemma_digits_value_monotonic(digits, k + 1);
        let longer = digits.take(k + 1);
        assert(longer.drop_last() =~= digits.take(k));
        assert(is_digit(digits[k]));
        assert(longer.last() == digits[k]);
        lemma_digits_value_nonnegative(digits.take(k));
    }
}

/// Digits denote a natural number.
proof fn lemma_digits_value_nonnegative(digits: Seq<u8>)
    requires
        all_digits(digits),
    ensures
        0 <= digits_value(digits),
    decreases digits.len(),
{
    if digits.len() > 0 {
        assert(is_digit(digits[digits.len() - 1]));
        lemma_digits_value_nonnegative(digits.drop_last());
    }
}

/// Reads a decimal integer: an optional sign and one or more digits, with
/// nothing before, between or after them. A number that does not fit 64 bits
/// is no number.
pub fn parse_i64(text: &[u8]) -> (r: Option<i64>)
    ensures
        r == decimal_i64(text@),
{
    let n = text.len();
    if n == 0 {
        return None;
    }
    let negative = text[0] == 0x2d;
    let start: usize = if text[0] == 0x2d || text[0] == 0x2b {
        1
    } else {
        0
    };
    let ghost digits = digits_of(text@);
    proof {
        assert(digits =~= text@.subrange(start as int, n as int));
    }
    if start == n {
        return None;
    }
    let limit: u64 = if negative {
        0x8000_0000_0000_0000
    } else {
        0x7fff_ffff_ffff_ffff
    };
    let mut magnitude: u64 = 0;
    let mut i: usize = start;
    proof {
        assert(digits.take(0) =~= Seq::empty());
    }
    while i < n
        invariant
            start <= i <= n,
            n == text@.len(),
            digits == text@.subrange(start as int, n as int),
            all_digits(digits.take(i - start)),
            magnitude == digits_value(digits.take(i - start)),
            magnitude <= limit,
            digits == digits_of(text@),
            negative == (text@[0] == 0x2d),
            limit == if negative {
                0x8000_0000_0000_0000u64
            } else {
                0x7fff_ffff_ffff_ffffu64
            },
        decreases n - i,
    {
        let b = text[i];
        let ghost k = i - start;
        proof {
            assert(digits[k] == b);
            assert(digits.take(k + 1).drop_last() =~= digits.take(k));
            assert(digits.take(k + 1).last() == b);
        }
        if b < 0x30 || b > 0x39 {
            proof {
                assert(!is_digit(digits[k]));
            }
            return None;
        }
        let d: u64 = (b - 0x30) as u64;
        if magnitude > (limit - d) / 10 {
            proof {
                if all_digits(digits) {
                    lemma_digits_value_monotonic(digits, k + 1);
                }
            }
            return None;
        }
        magnitude = magnitude * 10 + d;
        i += 1;
        proof {
            assert forall|j: int| 0 <= j < digits.take(k + 1).len() implies is_digit(
                #[trigger] digits.take(k + 1)[j],
            ) by {
                if j < k {
                    assert(digits.take(k)[j] == digits.take(k + 1)[j]);
                }
            }
        }
    }
    proof {
        assert(digits.take(n - start) =~= digits);
    }
    if negative {
        if magnitude == 0x8000_0000_0000_0000 {
            Some(i64::MIN)
        } else {
            Some(-(magnitude as i64))
        }
    } else {
        Some(magnitude as i64)
    }
}

/// The instant that a timestamp of the remote service denotes: decimal
/// milliseconds since the epoch.
pub open spec fn unix_millis_instant(text: Seq<u8>) -> Result<(int, int), PayloadError> {
    match decimal_i64(text) {
        None => Err(PayloadError::InvalidNumber),
        Some(millis) => if MIN_SECS <= millis as int / 1000 <= MAX_SECS {
            Ok((millis as int / 1000, (millis as int % 1000) * 1_000_000))
        } else {
            Err(PayloadError::DateOutOfRange)
        },
    }
}

/// Decodes a timestamp sent as text: decimal milliseconds since the epoch.
pub fn deserialize_unix_ts_str(text: &str) -> (r: Result<Timestamp, PayloadError>)
    ensures
        match unix_millis_instant(text.spec_bytes()) {
            Ok((secs, nanos)) => r matches Ok(t) && t.spec_secs() == secs && t.spec_nanos()
                == nanos && t.valid(),
            Err(e) => r == Err::<Timestamp, PayloadError>(e),
        },
{
    match parse_i64(text.as_bytes()) {
        None => Err(PayloadError::InvalidNumber),
        Some(millis) => match Timestamp::from_millis(millis) {
            Some(t) => Ok(t),
            None => Err(PayloadError::DateOutOfRange),
        },
    }
}

/// The bytes that a padded URL-safe base64 text stands for, or `None` where
/// the text is not a canonical encoding.
pub uninterp spec fn base64_url_decoded(text: Seq<char>) -> Option<Seq<u8>>;

/// `base64::Engine::decode` of the engine `URL_SAFE` (URL-safe alphabet,
/// canonical padding required). What comes back is a function of the text
/// alone; the contract gives it its name and claims nothing else of it.
#[verifier::external_body]
fn url_safe_decode(text: &str) -> (r: Result<Vec<u8>, base64::DecodeError>)
    ensures
        match r {
            Ok(bytes) => base64_url_decoded(text@) == Some(bytes@),
            Err(_) => base64_url_decoded(text@) is None,
        },
{
    base64::Engine::decode(&base64::engine::general_purpose::URL_SAFE, text)
}

/// The outcome of decoding a binary payload, given what the base64 decoder
/// made of its text.
pub open spec fn payload_outcome(decoded: Option<Seq<u8>>) -> Result<Seq<u8>, PayloadError> {
    match decoded {
        Some(bytes) => Ok(bytes),
        None => Err(PayloadError::InvalidBase64),
    }
}

/// Turns the decoder's verdict on a binary payload into the record's field
/// or the record's failure.
pub fn payload_from_decoded(decoded: Result<Vec<u8>, base64::DecodeError>) -> (r: Result<
    Vec<u8>,
    PayloadError,
>)
    ensures
        match decoded {
            Ok(bytes) => r == Ok::<Vec<u8>, PayloadError>(bytes),
            Err(_) => r == Err::<Vec<u8>, PayloadError>(PayloadError::InvalidBase64),
        },
{
    match decoded {
        Ok(bytes) => Ok(bytes),
        Err(_) => Err(PayloadError::InvalidBase64),
    }
}

/// Decodes a binary payload sent as padded URL-safe base64.
pub fn deserialize_base64(text: &str) -> (r: Result<Vec<u8>, PayloadError>)
    ensures
        match payload_outcome(base64_url_decoded(text@)) {
            Ok(bytes) => r matches Ok(v) && v@ == bytes,
            Err(e) => r == Err::<Vec<u8>, PayloadError>(e),
        },
{
    payload_from_decoded(url_safe_decode(text))
}

/// Decodes a binary payload that may be absent.
pub fn deserialize_optional_base64(text: Option<&str>) -> (r: Result<
    Option<Vec<u8>>,
    PayloadError,
>)
    ensures
        match text {
            None => r == Ok::<Option<Vec<u8>>, PayloadError>(None),
            Some(t) => match payload_outcome(base64_url_decoded(t@)) {
                Ok(bytes) => r matches Ok(Some(v)) && v@ == bytes,
                Err(e) => r == Err::<Option<Vec<u8>>, PayloadError>(e),
            },
        },
{
    match text {
        None => Ok(None),
        Some(t) => match deserialize_base64(t) {
            Ok(bytes) => Ok(Some(bytes)),
            Err(e) => Err(e),
        },
    }
}

/// The decoder's error. Nothing of it is read here.
#[verifier::external_type_specification]
#[verifier::external_body]
pub struct ExDecodeError(base64::DecodeError);

} // verus!
