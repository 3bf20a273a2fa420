//! The framing of messages to and from a tool server, and the matching
//! of answers to requests.
//!
//! A message is a header, `Content-Length: ` with the number of bytes of
//! the body, then an empty line, then the body. The caller moves the
//! bytes; how they are framed and what a header says is decided here.

use vstd::prelude::*;
use vstd::slice::*;
use vstd::string::*;
use vstd::utf8::*;

use crate::text::decimal_chars;
use crate::text::digit_char;
use crate::text::decimal_text;
use crate::text::trim;
use crate::text::trimmed;
use crate::text::utf8_text;

verus! {

/// The most bytes that a header may have before its end is seen.
pub const MAX_HEADER_BYTES: usize = 8192;

/// Why a message could not be taken from the stream.
#[derive(Clone, Copy, Debug, PartialEq, Eq, Structural)]
pub enum FrameError {
    /// The header grew beyond [`MAX_HEADER_BYTES`] without an end.
    HeaderTooLarge,
    /// The header is not UTF-8.
    HeaderNotText,
    /// A `Content-Length` field does not hold a number.
    BadContentLength,
    /// The header has no `Content-Length` field.
    MissingContentLength,
}

impl FrameError {
    /// The sentence that tells the user of this failure.
    pub fn message(&self) -> (r: &'static str)
        ensures
            r@ == match *self {
                FrameError::HeaderTooLarge => "header too large"@,
                FrameError::HeaderNotText => "header not UTF-8"@,
                FrameError::BadContentLength => "bad Content-Length"@,
                FrameError::MissingContentLength => "missing Content-Length"@,
            },
    {
        match self {
            FrameError::HeaderTooLarge => "header too large",
            FrameError::HeaderNotText => "header not UTF-8",
            FrameError::BadContentLength => "bad Content-Length",
            FrameError::MissingContentLength => "missing Content-Length",
        }
    }
}

/// The header of a message with a body of `len` bytes.
pub open spec fn frame_header(len: nat) -> Seq<u8> {
    encode_utf8("Content-Length: "@ + decimal_chars(len) + "\r\n\r\n"@)
}

/// Frames a body: the header that tells its length, then the body.
pub fn frame(body: &[u8]) -> (r: Vec<u8>)
    ensures
        r@ == frame_header(body@.len()) + body@,
{
    let mut header = String::from_str("Content-Length: ");
    let digits = decimal_text(body.len() as u64);
    header.append(digits.as_str());
    header.append("\r\n\r\n");
    let mut out = header.as_str().as_bytes_vec();
    let ghost written = out@;
    let mut i: usize = 0;
    while i < body.len()
        invariant
            i <= body@.len(),
            out@ == written + body@.take(i as int),
        decreases body@.len() - i,
    {
        out.push(body[i]);
        assert(body@.take(i as int + 1) =~= body@.take(i as int).push(body@[i as int]));
        assert(out@ =~= written + body@.take(i as int + 1));
        i += 1;
    }
    assert(body@.take(body@.len() as int) =~= body@);
    out
}

/// How far the header has come.
#[derive(Clone, Copy, Debug, PartialEq, Eq, Structural)]
pub enum HeaderProgress {
    /// The header has not ended: read one more byte.
    More,
    /// The header is complete: read its `Content-Length`, then the body.
    Complete,
    /// The header is too large: give up.
    TooLarge,
}

/// Whether a header ends here: with an empty line.
pub open spec fn header_ended(header: Seq<u8>) -> bool {
    let n = header.len() as int;
    n >= 4 && header[n - 4] == 13 && header[n - 3] == 10 && header[n - 2] == 13 && header[n - 1]
        == 10
}

/// How far a header has come after one more byte.
pub open spec fn header_progress(header: Seq<u8>) -> HeaderProgress {
    if header_ended(header) {
        HeaderProgress::Complete
    } else if header.len() > MAX_HEADER_BYTES {
        HeaderProgress::TooLarge
    } else {
        HeaderProgress::More
    }
}

/// Adds a byte to the header read so far, and tells how far the header has come.
pub fn header_step(header: &mut Vec<u8>, byte: u8) -> (r: HeaderProgress)
    ensures
        final(header)@ == old(header)@.push(byte),
        r == header_progress(final(header)@),
{
    header.push(byte);
    let n = header.len();
    if n >= 4 && header[n - 4] == 13 && header[n - 3] == 10 && header[n - 2] == 13 && header[n - 1]
        == 10 {
        HeaderProgress::Complete
    } else if n > MAX_HEADER_BYTES {
        HeaderProgress::TooLarge
    } else {
        HeaderProgress::More
    }
}

/// What a line of a header says of the length of the body.
#[derive(Clone, Copy, Debug, PartialEq, Eq, Structural)]
pub enum LineLength {
    /// The line is no `Content-Length` field.
    Unrelated,
    /// The line is a `Content-Length` field, and holds no number.
    Bad,
    /// The line is a `Content-Length` field, and holds this number.
    Length(usize),
}

/// Whether the first colon of `line` is at index `i`.
pub open spec fn colon_at(line: Seq<u8>, i: int) -> bool {
    &&& 0 <= i < line.len()
    &&& line[i] == 58
    &&& forall|j: int| 0 <= j < i ==> line[j] != 58
}

/// Whether a line break, a carriage return and a line feed, stands at index `i`.
pub open spec fn is_break(rest: Seq<u8>, i: int) -> bool {
    0 <= i && i + 1 < rest.len() && rest[i] == 13 && rest[i + 1] == 10
}

/// Whether the first line break of `rest` is at index `i`.
pub open spec fn break_at(rest: Seq<u8>, i: int) -> bool {
    &&& is_break(rest, i)
    &&& forall|j: int| 0 <= j < i ==> !is_break(rest, j)
}

/// A letter in lower case; any other byte as it is.
pub open spec fn ascii_lower(b: u8) -> u8 {
    if 65 <= b <= 90 {
        (b + 32) as u8
    } else {
        b
    }
}

/// The name of the field that tells the length of the body, in lower case.
pub open spec fn length_field() -> Seq<u8> {
    seq![99u8, 111, 110, 116, 101, 110, 116, 45, 108, 101, 110, 103, 116, 104]
}

/// Whether `name` is `Content-Length`, in letters of either case.
pub open spec fn is_length_field(name: Seq<u8>) -> bool {
    &&& name.len() == length_field().len()
    &&& forall|i: int| 0 <= i < name.len() ==> ascii_lower(#[trigger] name[i]) == length_field()[i]
}

/// Whether a byte is a digit.
pub open spec fn is_digit(b: u8) -> bool {
    48 <= b <= 57
}

/// The number that digits stand for, in base ten.
pub open spec fn digits_value(digits: Seq<u8>) -> nat
    decreases digits.len(),
{
    if digits.len() == 0 {
        0
    } else {
        digits_value(digits.drop_last()) * 10 + (digits.last() - 48) as nat
    }
}

/// The number that a text stands for: one or more digits, with or
/// without a plus sign before them, that do not exceed what a length can be.
pub open spec fn parsed_length(text: Seq<u8>) -> Option<usize> {
    let digits = without_plus(text);
    if digits.len() > 0 && all_digits(digits) && digits_value(digits) <= usize::MAX {
        Some(digits_value(digits) as usize)
    } else {
        None
    }
}

/// A text without the plus sign at its front, if it has one.
pub open spec fn without_plus(text: Seq<u8>) -> Seq<u8> {
    if text.len() > 0 && text[0] == 43 {
        text.skip(1)
    } else {
        text
    }
}

/// Whether a text is made of digits only.
pub open spec fn all_digits(digits: Seq<u8>) -> bool {
    forall|i: int| 0 <= i < digits.len() ==> is_digit(#[trigger] digits[i])
}

/// The number that the value of a `Content-Length` field stands for,
/// white space at its ends aside.
pub open spec fn value_length(value: Seq<u8>) -> Option<usize> {
    if valid_utf8(value) {
        parsed_length(encode_utf8(trimmed(decode_utf8(value))))
    } else {
        None
    }
}

/// What a line of a header says of the length of the body: the line is
/// split at its first colon into a name and a value.
pub open spec fn line_length(line: Seq<u8>) -> LineLength {
    if exists|i: int| colon_at(line, i) {
        let at = choose|i: int| colon_at(line, i);
        if is_length_field(line.subrange(0, at)) {
            match value_length(line.subrange(at + 1, line.len() as int)) {
                Some(n) => LineLength::Length(n),
                None => LineLength::Bad,
            }
        } else {
            LineLength::Unrelated
        }
    } else {
        LineLength::Unrelated
    }
}

/// The length that the lines of `rest` tell, when the lines before them
/// told `found`: the last `Content-Length` field counts, and the first
/// one that holds no number is a failure.
pub open spec fn scanned_length(rest: Seq<u8>, found: Option<usize>) -> Result<usize, FrameError>
    decreases rest.len(),
{
    if exists|i: int| break_at(rest, i) {
        let at = choose|i: int| break_at(rest, i);
        match line_length(rest.subrange(0, at)) {
            LineLength::Bad => Err(FrameError::BadContentLength),
            LineLength::Length(n) => scanned_length(
                rest.subrange(at + 2, rest.len() as int),
                Some(n),
            ),
            LineLength::Unrelated => scanned_length(rest.subrange(at + 2, rest.len() as int), found),
        }
    } else {
        match line_length(rest) {
            LineLength::Bad => Err(FrameError::BadContentLength),
            LineLength::Length(n) => Ok(n),
            LineLength::Unrelated => match found {
                Some(n) => Ok(n),
                None => Err(FrameError::MissingContentLength),
            },
        }
    }
}

/// The length of the body that a header announces.
pub open spec fn announced_length(header: Seq<u8>) -> Result<usize, FrameError> {
    if valid_utf8(header) {
        scanned_length(header, None)
    } else {
        Err(FrameError::HeaderNotText)
    }
}

/// Reads a number as [`parsed_length`] defines it.
pub fn parse_length(text: &[u8]) -> (r: Option<usize>)
    ensures
        r == parsed_length(text@),
{
    let start: usize = if text.len() > 0 && text[0] == 43 {
        1
    } else {
        0
    };
    let ghost digits = without_plus(text@);
    assert(digits =~= text@.subrange(start as int, text@.len() as int));
    if text.len() == start {
        return None;
    }
    let mut value: usize = 0;
    let mut i: usize = start;
    assert(digits.take(0) =~= Seq::<u8>::empty());
    while i < text.len()
        invariant
            start <= i <= text@.len(),
            start < text@.len(),
            digits == text@.subrange(start as int, text@.len() as int),
            digits == without_plus(text@),
            forall|j: int| 0 <= j < i - start ==> is_digit(#[trigger] digits[j]),
            value == digits_value(digits.take(i - start)),
        decreases text@.len() - i,
    {
        let b = text[i];
        assert(b == digits[i - start]);
        if b < 48 || b > 57 {
            assert(!is_digit(digits[i - start]));
            return None;
        }
        let ghost seen = digits.take(i - start + 1);
        assert(seen.drop_last() =~= digits.take(i - start));
        assert(seen.last() == b);
        assert(digits_value(seen) == value * 10 + (b - 48));
        let next = match value.checked_mul(10) {
            Some(tenfold) => tenfold.checked_add((b - 48) as usize),
            None => None,
        };
        match next {
            Some(n) => {
                value = n;
            },
            None => {
                assert(digits_value(seen) > usize::MAX);
                proof {
                    lemma_digits_value_grows(digits, i - start + 1);
                }
                return None;
            },
        }
        i += 1;
    }
    assert(digits.take(digits.len() as int) =~= digits);
    assert(forall|j: int| 0 <= j < digits.len() ==> is_digit(#[trigger] digits[j]));
    Some(value)
}

/// The value of digits is no smaller than the value of any of their beginnings.
pub proof fn lemma_digits_value_grows(digits: Seq<u8>, n: int)
    requires
        0 <= n <= digits.len(),
    ensures
        digits_value(digits.take(n)) <= digits_value(digits),
    decreases digits.len() - n,
{
    if n == digits.len() {
        assert(digits.take(n) =~= digits);
    } else {
        lemma_digits_value_grows(digits, n + 1);
        assert(digits.take(n + 1).drop_last() =~= digits.take(n));
        assert(digits_value(digits.take(n)) <= digits_value(digits.take(n + 1))) by {
            let v = digits_value(digits.take(n));
            assert(v <= v * 10) by (nonlinear_arith)
                requires
                    v >= 0,
            ;
        }
    }
}

/// Whether `name` is `Content-Length`, in letters of either case.
pub fn names_length(name: &[u8]) -> (r: bool)
    ensures
        r == is_length_field(name@),
{
    let field = [99u8, 111, 110, 116, 101, 110, 116, 45, 108, 101, 110, 103, 116, 104];
    assert(field@ =~= length_field());
    if name.len() != 14 {
        return false;
    }
    let mut i: usize = 0;
    while i < 14
        invariant
            i <= 14,
            name@.len() == 14,
            field@ == length_field(),
            forall|j: int| 0 <= j < i ==> ascii_lower(#[trigger] name@[j]) == length_field()[j],
        decreases 14 - i,
    {
        let b = name[i];
        let lower = if 65 <= b && b <= 90 {
            b + 32
        } else {
            b
        };
        if lower != field[i] {
            assert(ascii_lower(name@[i as int]) != length_field()[i as int]);
            return false;
        }
        i += 1;
    }
    true
}

/// Finds the first byte `needle` of `line`.
fn find_byte(line: &[u8], needle: u8) -> (r: Option<usize>)
    ensures
        match r {
            Some(i) => i < line@.len() && line@[i as int] == needle && forall|j: int|
                0 <= j < i ==> line@[j] != needle,
            None => forall|j: int| 0 <= j < line@.len() ==> line@[j] != needle,
        },
{
    let mut i: usize = 0;
    while i < line.len()
        invariant
            i <= line@.len(),
            forall|j: int| 0 <= j < i ==> line@[j] != needle,
        decreases line@.len() - i,
    {
        if line[i] == needle {
            return Some(i);
        }
        i += 1;
    }
    None
}

/// Finds the first line break of `rest`.
fn find_break(rest: &[u8]) -> (r: Option<usize>)
    ensures
        match r {
            Some(i) => break_at(rest@, i as int),
            None => !(exists|i: int| break_at(rest@, i)),
        },
{
    if rest.len() < 2 {
        return None;
    }
    let mut i: usize = 0;
    while i < rest.len() - 1
        invariant
            rest@.len() >= 2,
            i <= rest@.len() - 1,
            forall|j: int| 0 <= j < i ==> !is_break(rest@, j),
        decreases rest@.len() - i,
    {
        if rest[i] == 13 && rest[i + 1] == 10 {
            return Some(i);
        }
        i += 1;
    }
    None
}

/// Says what a line of a header tells of the length of the body.
pub fn read_line(line: &[u8]) -> (r: LineLength)
    ensures
        r == line_length(line@),
{
    let at = match find_byte(line, 58) {
        Some(at) => at,
        None => {
            assert(!(exists|i: int| colon_at(line@, i)));
            return LineLength::Unrelated;
        },
    };
    assert(colon_at(line@, at as int));
    assert((choose|i: int| colon_at(line@, i)) == at as int);
    let name = slice_subrange(line, 0, at);
    if !names_length(name) {
        return LineLength::Unrelated;
    }
    let value = slice_subrange(line, at + 1, line.len());
    let text = match utf8_text(value) {
        Some(text) => text,
        None => {
            return LineLength::Bad;
        },
    };
    proof {
        encode_utf8_decode_utf8(text@);
    }
    match parse_length(trim(text).as_bytes()) {
        Some(n) => LineLength::Length(n),
        None => LineLength::Bad,
    }
}

/// Reads the length of the body from a complete header.
///
/// The header is taken line by line. A line without a colon, or with
/// another name before it, is passed over.
pub fn content_length(header: &[u8]) -> (r: Result<usize, FrameError>)
    ensures
        r == announced_length(header@),
{
    if utf8_text(header).is_none() {
        return Err(FrameError::HeaderNotText);
    }
    let mut found: Option<usize> = None;
    let mut start: usize = 0;
    assert(header@.subrange(0, header@.len() as int) =~= header@);
    loop
        invariant
            start <= header@.len(),
            valid_utf8(header@),
            scanned_length(header@, None) == scanned_length(
                header@.subrange(start as int, header@.len() as int),
                found,
            ),
        decreases header@.len() - start,
    {
        let ghost tail = header@.subrange(start as int, header@.len() as int);
        let rest = slice_subrange(header, start, header.len());
        match find_break(rest) {
            Some(at) => {
                assert((choose|i: int| break_at(tail, i)) == at as int);
                match read_line(slice_subrange(rest, 0, at)) {
                    LineLength::Bad => {
                        return Err(FrameError::BadContentLength);
                    },
                    LineLength::Length(n) => {
                        found = Some(n);
                    },
                    LineLength::Unrelated => {},
                }
                assert(tail.subrange(at as int + 2, tail.len() as int) =~= header@.subrange(
                    start as int + at as int + 2,
                    header@.len() as int,
                ));
                start = start + at + 2;
            },
            None => {
                return match read_line(rest) {
                    LineLength::Bad => Err(FrameError::BadContentLength),
                    LineLength::Length(n) => Ok(n),
                    LineLength::Unrelated => match found {
                        Some(n) => Ok(n),
                        None => Err(FrameError::MissingContentLength),
                    },
                };
            },
        }
    }
}

/// The bytes of a number written in base ten.
proof fn lemma_decimal_bytes(n: nat)
    ensures
        encode_utf8(decimal_chars(n)).len() == decimal_chars(n).len(),
        encode_utf8(decimal_chars(n)).len() > 0,
        all_digits(encode_utf8(decimal_chars(n))),
        digits_value(encode_utf8(decimal_chars(n))) == n,
        forall|i: int|
            0 <= i < decimal_chars(n).len() ==> encode_utf8(decimal_chars(n))[i]
                == (#[trigger] decimal_chars(n)[i]) as u8,
        is_ascii_chars(decimal_chars(n)),
    decreases n,
{
    let chars = decimal_chars(n);
    if n < 10 {
        assert(chars =~= seq![digit_char(n)]);
        assert(is_ascii_chars(chars));
        is_ascii_chars_encode_utf8(chars);
        let bytes = encode_utf8(chars);
        assert(bytes[0] == (48 + n) as u8);
        assert(bytes.drop_last() =~= Seq::<u8>::empty());
        assert(digits_value(bytes) == digits_value(bytes.drop_last()) * 10 + (bytes.last()
            - 48) as nat);
    } else {
        let init = decimal_chars(n / 10);
        lemma_decimal_bytes(n / 10);
        let last = digit_char(n % 10);
        assert(chars == init.push(last));
        assert(is_ascii_chars(chars)) by {
            assert forall|i: int| 0 <= i < chars.len() implies (chars[i] as nat) < 128 by {
                if i < init.len() {
                    assert(chars[i] == init[i]);
                }
            }
        }
        is_ascii_chars_encode_utf8(chars);
        is_ascii_chars_encode_utf8(init);
        let bytes = encode_utf8(chars);
        assert(bytes.drop_last() =~= encode_utf8(init));
        assert(bytes.last() == (48 + n % 10) as u8);
        assert(all_digits(bytes)) by {
            assert forall|i: int| 0 <= i < bytes.len() implies is_digit(#[trigger] bytes[i]) by {
                if i < init.len() {
                    assert(bytes[i] == encode_utf8(init)[i]);
                }
            }
        }
    }
}

/// The length that a header is written with is the length that is read
/// from it: a number written in base ten is read back as itself.
pub proof fn lemma_written_length_is_read_back(n: usize)
    ensures
        parsed_length(encode_utf8(decimal_chars(n as nat))) == Some(n),
{
    lemma_decimal_bytes(n as nat);
    let bytes = encode_utf8(decimal_chars(n as nat));
    assert(is_digit(bytes[0]));
    assert(without_plus(bytes) == bytes);
}

} // verus!
