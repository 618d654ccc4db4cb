//! Version markers: the decimal text that records which content is installed,
//! how it is read, written and compared.

use vstd::prelude::*;
use crate::error::{is_success, NetworkError, UpdateError};

verus! {

/// A version marker: a number that grows with every release of the content.
pub type VersionMarker = u64;

/// Why a marker text was not accepted.
#[derive(Clone, Copy, Debug, PartialEq, Eq, Structural)]
pub enum VersionParseError {
    /// Nothing is left once the surrounding white space is removed.
    Empty,
    /// The text holds something other than decimal digits.
    InvalidDigit,
    /// The number does not fit into 64 bits.
    Overflow,
}

/// ASCII white space: space, tab, line feed, vertical tab, form feed and
/// carriage return.
pub open spec fn is_space(b: u8) -> bool {
    b == 0x20 || (0x09 <= b && b <= 0x0d)
}

/// An ASCII decimal digit.
pub open spec fn is_digit(b: u8) -> bool {
    0x30 <= b && b <= 0x39
}

/// The text without its leading white space.
pub open spec fn trim_start(text: Seq<u8>) -> Seq<u8>
    decreases text.len(),
{
    if text.len() > 0 && is_space(text.first()) {
        trim_start(text.drop_first())
    } else {
        text
    }
}

/// The text without its trailing white space.
pub open spec fn trim_end(text: Seq<u8>) -> Seq<u8>
    decreases text.len(),
{
    if text.len() > 0 && is_space(text.last()) {
        trim_end(text.drop_last())
    } else {
        text
    }
}

/// The text without the white space around it.
pub open spec fn trim(text: Seq<u8>) -> Seq<u8> {
    trim_end(trim_start(text))
}

/// The text without one leading plus sign, if it has one.
pub open spec fn unsigned_part(text: Seq<u8>) -> Seq<u8> {
    if text.len() > 0 && text.first() == 0x2b {
        text.drop_first()
    } else {
        text
    }
}

/// Whether every byte is a decimal digit.
pub open spec fn all_digits(text: Seq<u8>) -> bool {
    forall|i: int| 0 <= i < text.len() ==> is_digit(#[trigger] text[i])
}

/// The number that a run of decimal digits denotes, most significant digit
/// first.
pub open spec fn decimal_value(digits: Seq<u8>) -> nat
    decreases digits.len(),
{
    if digits.len() == 0 {
        0
    } else {
        decimal_value(digits.drop_last()) * 10 + (digits.last() - 0x30) as nat
    }
}

/// The marker that a text denotes. The text is a decimal number that fits
/// into 64 bits, optionally preceded by a plus sign, with any amount of
/// white space around it.
pub open spec fn parse_spec(text: Seq<u8>) -> Result<u64, VersionParseError> {
    let body = trim(text);
    let digits = unsigned_part(body);
    if body.len() == 0 {
        Err(VersionParseError::Empty)
    } else if digits.len() == 0 || !all_digits(digits) {
        Err(VersionParseError::InvalidDigit)
    } else if decimal_value(digits) > u64::MAX {
        Err(VersionParseError::Overflow)
    } else {
        Ok(decimal_value(digits) as u64)
    }
}

/// The marker recorded by a local marker file: zero when the file is absent
/// or its text is not a marker.
pub open spec fn read_local_spec(contents: Option<Seq<u8>>) -> u64 {
    match contents {
        Some(text) => match parse_spec(text) {
            Ok(marker) => marker,
            Err(_) => 0,
        },
        None => 0,
    }
}

/// The marker that the remote side publishes, from the status and body of
/// its response: a status other than success is a failure of the network, a
/// body that is not a marker a failure to parse.
pub open spec fn read_remote_spec(status: u16, body: Seq<u8>) -> Result<u64, UpdateError> {
    if !is_success(status) {
        Err(UpdateError::Network(NetworkError::Status(status)))
    } else {
        match parse_spec(body) {
            Ok(marker) => Ok(marker),
            Err(reason) => Err(UpdateError::VersionParse(reason)),
        }
    }
}

/// The decimal digits of a number, without leading zeros.
pub open spec fn decimal_digits(n: nat) -> Seq<u8>
    decreases n,
{
    if n < 10 {
        seq![(0x30 + n) as u8]
    } else {
        decimal_digits(n / 10).push((0x30 + n % 10) as u8)
    }
}

/// An update is due exactly when the remote marker is newer than the local
/// one.
pub open spec fn spec_needs_update(local: u64, remote: u64) -> bool {
    remote > local
}

/// Whether the remote marker calls for an update.
#[verifier::when_used_as_spec(spec_needs_update)]
pub fn needs_update(local: VersionMarker, remote: VersionMarker) -> (due: bool)
    ensures
        due == spec_needs_update(local, remote),
{
    remote > local
}

proof fn lemma_trim_start_skips(text: Seq<u8>, start: int)
    requires
        0 <= start <= text.len(),
        forall|i: int| 0 <= i < start ==> is_space(#[trigger] text[i]),
        start < text.len() ==> !is_space(text[start]),
    ensures
        trim_start(text) == text.subrange(start, text.len() as int),
    decreases start,
{
    if start > 0 {
        lemma_trim_start_skips(text.drop_first(), start - 1);
    }
}

proof fn lemma_trim_end_skips(text: Seq<u8>, end: int)
    requires
        0 <= end <= text.len(),
        forall|i: int| end <= i < text.len() ==> is_space(#[trigger] text[i]),
        end > 0 ==> !is_space(text[end - 1]),
    ensures
        trim_end(text) == text.subrange(0, end),
    decreases text.len() - end,
{
    if end < text.len() {
        lemma_trim_end_skips(text.drop_last(), end);
    }
}

/// Reads a marker from its text: a decimal number that fits into 64 bits,
/// optionally preceded by a plus sign, with any amount of white space around
/// it.
pub fn parse_marker(text: &[u8]) -> (parsed: Result<VersionMarker, VersionParseError>)
    ensures
        parsed == parse_spec(text@),
{
    let len: usize = text.len();
    let mut start: usize = 0;
    while start < len && is_space_byte(text[start])
        invariant
            start <= len,
            len == text@.len(),
            forall|i: int| 0 <= i < start ==> is_space(#[trigger] text@[i]),
        decreases len - start,
    {
        start = start + 1;
    }
    let mut end: usize = len;
    while end > start && is_space_byte(text[end - 1])
        invariant
            start <= end <= len,
            len == text@.len(),
            forall|i: int| end <= i < len ==> is_space(#[trigger] text@[i]),
        decreases end,
    {
        end = end - 1;
    }
    let ghost body = text@.subrange(start as int, end as int);
    proof {
        lemma_trim_start_skips(text@, start as int);
        lemma_trim_end_skips(text@.subrange(start as int, len as int), end - start);
        assert(trim(text@) == body);
    }
    if start == end {
        return Err(VersionParseError::Empty);
    }
    let first: usize = if text[start] == 0x2b {
        start + 1
    } else {
        start
    };
    let ghost digits = text@.subrange(first as int, end as int);
    proof {
        assert(unsigned_part(body) == digits);
    }
    if first == end {
        return Err(VersionParseError::InvalidDigit);
    }
    let mut overflowed: bool = false;
    let mut value: u64 = 0;
    let mut at: usize = first;
    while at < end
        invariant
            first <= at <= end <= len,
            len == text@.len(),
            digits == text@.subrange(first as int, end as int),
            trim(text@).len() > 0,
            unsigned_part(trim(text@)) == digits,
            all_digits(digits.take(at - first)),
            overflowed ==> decimal_value(digits.take(at - first)) > u64::MAX,
            !overflowed ==> decimal_value(digits.take(at - first)) == value,
        decreases end - at,
    {
        let byte: u8 = text[at];
        proof {
            assert(digits[at - first] == byte);
            assert(digits.take(at - first + 1).drop_last() =~= digits.take(at - first));
        }
        if !is_digit_byte(byte) {
            return Err(VersionParseError::InvalidDigit);
        }
        if !overflowed {
            let digit: u64 = (byte - 0x30) as u64;
            match value.checked_mul(10) {
                Some(scaled) => match scaled.checked_add(digit) {
                    Some(sum) => {
                        value = sum;
                    },
                    None => {
                        overflowed = true;
                    },
                },
                None => {
                    overflowed = true;
                },
            }
        }
        at = at + 1;
    }
    proof {
        assert(digits.take(end - first) =~= digits);
    }
    if overflowed {
        Err(VersionParseError::Overflow)
    } else {
        Ok(value)
    }
}

fn is_space_byte(b: u8) -> (r: bool)
    ensures
        r == is_space(b),
{
    b == 0x20 || (0x09 <= b && b <= 0x0d)
}

fn is_digit_byte(b: u8) -> (r: bool)
    ensures
        r == is_digit(b),
{
    0x30 <= b && b <= 0x39
}

/// The marker that a local marker file records. An absent file and a text
/// that is not a marker both mean that nothing was ever installed: zero.
pub fn read_local(contents: Option<&[u8]>) -> (marker: VersionMarker)
    ensures
        marker == read_local_spec(
            match contents {
                Some(text) => Some(text@),
                None => None,
            },
        ),
{
    match contents {
        Some(text) => match parse_marker(text) {
            Ok(marker) => marker,
            Err(_) => 0,
        },
        None => 0,
    }
}

/// The marker that the remote side publishes, from the status and body of
/// its response. A status other than success is reported as a failure of the
/// network, whatever the body holds; a body that is not a marker as a
/// failure to parse.
pub fn read_remote(status: u16, body: &[u8]) -> (marker: Result<VersionMarker, UpdateError>)
    ensures
        marker == read_remote_spec(status, body@),
{
    if !is_success(status) {
        return Err(UpdateError::Network(NetworkError::Status(status)));
    }
    match parse_marker(body) {
        Ok(marker) => Ok(marker),
        Err(reason) => Err(UpdateError::VersionParse(reason)),
    }
}

/// Appends the decimal digits of `n` to `out`.
fn push_decimal(n: u64, out: &mut Vec<u8>)
    ensures
        final(out)@ == old(out)@ + decimal_digits(n as nat),
    decreases n,
{
    if n >= 10 {
        push_decimal(n / 10, out);
    }
    let digit: u8 = (n % 10) as u8;
    out.push(0x30 + digit);
}

/// The text that records a marker: its decimal digits, nothing else.
pub fn render_marker(marker: VersionMarker) -> (text: Vec<u8>)
    ensures
        text@ == decimal_digits(marker as nat),
{
    let mut text: Vec<u8> = Vec::new();
    push_decimal(marker, &mut text);
    text
}

proof fn lemma_decimal_digits(n: nat)
    ensures
        decimal_digits(n).len() > 0,
        all_digits(decimal_digits(n)),
        decimal_value(decimal_digits(n)) == n,
    decreases n,
{
    let digits = decimal_digits(n);
    if n < 10 {
        assert(decimal_value(digits.drop_last()) == 0);
    } else {
        let front = decimal_digits(n / 10);
        lemma_decimal_digits(n / 10);
        assert(digits.drop_last() =~= front);
    }
}

/// Writing a marker and reading it back gives the marker: the text that
/// `render_marker` produces parses to the number it was produced from, and a
/// local marker file holding it records that number.
pub proof fn lemma_marker_round_trip(marker: u64)
    ensures
        parse_spec(decimal_digits(marker as nat)) == Ok::<u64, VersionParseError>(marker),
        read_local_spec(Some(decimal_digits(marker as nat))) == marker,
{
    let digits = decimal_digits(marker as nat);
    lemma_decimal_digits(marker as nat);
    assert(trim(digits) == digits);
    assert(unsigned_part(digits) == digits);
}

} // verus!
