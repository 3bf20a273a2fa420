//! Events as a server writes them, and what the decoder makes of them.
//!
//! The decoder is defined on bytes and line by line. Here its work is
//! stated for whole events, in terms of the texts that a server sends.

use vstd::prelude::*;
use vstd::utf8::*;

use crate::provider::sse::data_field;
use crate::provider::sse::data_payload;
use crate::provider::sse::data_with;
use crate::provider::sse::first_line_end;
use crate::provider::sse::has_line;
use crate::provider::sse::line_ends_at;
use crate::provider::sse::line_step;
use crate::provider::sse::parse;
use crate::provider::sse::without_carriage_return;
use crate::provider::sse::LineStep;
use crate::provider::sse::Parsed;
use crate::provider::sse::ParsedEvent;
use crate::provider::sse::CARRIAGE_RETURN;
use crate::provider::sse::LINE_FEED;
use crate::text::joined;
use crate::text::starts_with;

verus! {

/// A data line as it is sent: `data: `, then the text.
pub open spec fn data_line(text: Seq<char>) -> Seq<char> {
    data_field() + seq![' '] + text
}

/// An event as it is sent: its data lines, each ended by a line feed,
/// and an empty line behind them.
pub open spec fn event_text(lines: Seq<Seq<char>>) -> Seq<char>
    decreases lines.len(),
{
    if lines.len() == 0 {
        seq!['\n']
    } else {
        data_line(lines[0]) + seq!['\n'] + event_text(lines.drop_first())
    }
}

/// Whether a text can be sent as one data line: it holds no line feed,
/// and no carriage return at its end.
pub open spec fn fits_one_line(text: Seq<char>) -> bool {
    &&& forall|i: int| 0 <= i < text.len() ==> text[i] != '\n'
    &&& text.len() > 0 ==> text.last() != '\r'
}

/// The data that is pending after the given data lines.
spec fn gathered(pending: Option<Seq<char>>, lines: Seq<Seq<char>>) -> Option<Seq<char>>
    decreases lines.len(),
{
    if lines.len() == 0 {
        pending
    } else {
        gathered(Some(data_with(pending, lines[0])), lines.drop_first())
    }
}

/// Whether every byte is 128 or more.
spec fn all_high(bytes: Seq<u8>) -> bool {
    forall|j: int| 0 <= j < bytes.len() ==> #[trigger] bytes[j] >= 128
}

proof fn lemma_high_bytes(x: u8)
    by (bit_vector)
    ensures
        0xC0u8 | x >= 128u8,
        0xE0u8 | x >= 128u8,
        0xF0u8 | x >= 128u8,
        0x80u8 | x >= 128u8,
{
}

proof fn lemma_low_byte(s: u32)
    by (bit_vector)
    requires
        s <= 0x7F,
    ensures
        (s & 0x7F) as u8 == s as u8,
        (s as u8) as u32 == s,
{
}

/// The encoding of a character below 128 is the one byte of its code;
/// of any other, it is made of bytes of 128 and more.
proof fn lemma_encoded_char(c: char)
    ensures
        encode_scalar(c as u32).len() >= 1,
        (c as u32) < 128 ==> encode_scalar(c as u32) == seq![c as u8] && (c as u8) as u32
            == c as u32,
        (c as u32) >= 128 ==> all_high(encode_scalar(c as u32)),
{
    let s = c as u32;
    char_is_scalar(c);
    if has_width_1_encoding(s) {
        lemma_low_byte(s);
        assert(encode_scalar(s) =~= seq![c as u8]);
    } else if has_width_2_encoding(s) {
        lemma_high_bytes(((s >> 6) & 0x1F) as u8);
        lemma_high_bytes((s & 0x3F) as u8);
    } else if has_width_3_encoding(s) {
        lemma_high_bytes(((s >> 12) & 0x0F) as u8);
        lemma_high_bytes(((s >> 6) & 0x3F) as u8);
        lemma_high_bytes((s & 0x3F) as u8);
    } else {
        lemma_high_bytes(((s >> 18) & 0x7) as u8);
        lemma_high_bytes(((s >> 12) & 0x3F) as u8);
        lemma_high_bytes(((s >> 6) & 0x3F) as u8);
        lemma_high_bytes((s & 0x3F) as u8);
    }
}

/// The encoding of two texts, one after the other, is the encoding of
/// the first followed by the encoding of the second.
pub proof fn lemma_encode_concat(a: Seq<char>, b: Seq<char>)
    ensures
        encode_utf8(a + b) == encode_utf8(a) + encode_utf8(b),
    decreases a.len(),
{
    if a.len() == 0 {
        assert(a + b =~= b);
        assert(encode_utf8(a) + encode_utf8(b) =~= encode_utf8(b));
    } else {
        assert((a + b).drop_first() =~= a.drop_first() + b);
        assert((a + b)[0] == a[0]);
        lemma_encode_concat(a.drop_first(), b);
        assert(encode_scalar(a[0] as u32) + (encode_utf8(a.drop_first()) + encode_utf8(b))
            =~= (encode_scalar(a[0] as u32) + encode_utf8(a.drop_first())) + encode_utf8(b));
    }
}

/// The encoding of one character.
proof fn lemma_encode_one(c: char)
    ensures
        encode_utf8(seq![c]) == encode_scalar(c as u32),
{
    assert(seq![c].drop_first() =~= Seq::<char>::empty());
    assert(encode_scalar(c as u32) + encode_utf8(Seq::<char>::empty()) =~= encode_scalar(c as u32));
}

/// The byte of a character below 128 occurs in the encoding of a text
/// only where the text holds that character.
proof fn lemma_byte_absent(text: Seq<char>, k: char)
    requires
        (k as u32) < 128,
        forall|i: int| 0 <= i < text.len() ==> text[i] != k,
    ensures
        forall|j: int| 0 <= j < encode_utf8(text).len() ==> encode_utf8(text)[j] != k as u8,
    decreases text.len(),
{
    if text.len() > 0 {
        lemma_encoded_char(text[0]);
        lemma_encoded_char(k);
        lemma_byte_absent(text.drop_first(), k);
        let head = encode_scalar(text[0] as u32);
        let tail = encode_utf8(text.drop_first());
        assert(encode_utf8(text) == head + tail);
        assert(text[0] as u32 != k as u32) by {
            char_u32_cast(text[0], text[0] as u32);
            char_u32_cast(k, k as u32);
        }
        assert forall|j: int| 0 <= j < encode_utf8(text).len() implies encode_utf8(text)[j]
            != k as u8 by {
            if j < head.len() {
                assert(encode_utf8(text)[j] == head[j]);
                if (text[0] as u32) < 128 {
                    assert(head[j] == text[0] as u8);
                } else {
                    assert(all_high(head));
                    assert(head[j] >= 128);
                }
            } else {
                assert(encode_utf8(text)[j] == tail[j - head.len()]);
            }
        }
    }
}

/// The encoding of a text ends with the byte of a character below 128
/// only where the text ends with that character.
proof fn lemma_last_byte(text: Seq<char>, k: char)
    requires
        text.len() > 0,
        (k as u32) < 128,
        text.last() != k,
    ensures
        encode_utf8(text).len() > 0,
        encode_utf8(text).last() != k as u8,
{
    let init = text.drop_last();
    let last = text.last();
    assert(text =~= init + seq![last]);
    lemma_encode_concat(init, seq![last]);
    lemma_encode_one(last);
    lemma_encoded_char(last);
    lemma_encoded_char(k);
    let tail = encode_scalar(last as u32);
    assert(encode_utf8(text).last() == tail.last());
    assert(last as u32 != k as u32) by {
        char_u32_cast(last, last as u32);
        char_u32_cast(k, k as u32);
    }
    if (last as u32) >= 128 {
        assert(all_high(tail));
        assert(tail[tail.len() - 1] >= 128);
    }
}

/// A data line adds its text to the data of the event, behind a line
/// feed where the event has data already.
pub proof fn lemma_data_line_adds(text: Seq<char>, pending: Option<Seq<char>>)
    ensures
        line_step(encode_utf8(data_line(text)), pending) == (LineStep {
            events: Seq::empty(),
            pending: Some(data_with(pending, text)),
        }),
{
    let line = data_line(text);
    lemma_encoded_char(line[0]);
    assert(encode_utf8(line).len() > 0);
    encode_utf8_valid_utf8(line);
    encode_utf8_decode_utf8(line);
    assert(line.subrange(0, 5) =~= data_field());
    assert(starts_with(line, data_field()));
    assert(line.skip(5)[0] == ' ');
    assert(line.skip(5).skip(1) =~= text);
    assert(data_payload(line) == Some(text));
}

/// A line without a line feed in it, and a line feed behind it, is the
/// first line that the decoder takes.
proof fn lemma_first_line(line: Seq<u8>, rest: Seq<u8>, pending: Option<Seq<char>>)
    requires
        forall|j: int| 0 <= j < line.len() ==> line[j] != LINE_FEED,
    ensures
        parse(line + seq![LINE_FEED] + rest, pending).events == line_step(
            without_carriage_return(line),
            pending,
        ).events + parse(
            rest,
            line_step(without_carriage_return(line), pending).pending,
        ).events,
        parse(line + seq![LINE_FEED] + rest, pending).buffered == parse(
            rest,
            line_step(without_carriage_return(line), pending).pending,
        ).buffered,
        parse(line + seq![LINE_FEED] + rest, pending).pending == parse(
            rest,
            line_step(without_carriage_return(line), pending).pending,
        ).pending,
{
    let buf = line + seq![LINE_FEED] + rest;
    let end = line.len() as int;
    assert(buf[end] == LINE_FEED);
    assert(line_ends_at(buf, end));
    assert(has_line(buf));
    assert(first_line_end(buf) == end);
    assert(buf.subrange(0, end) =~= line);
    assert(buf.subrange(end + 1, buf.len() as int) =~= rest);
}

/// What the decoder makes of the data lines of an event and the empty
/// line behind them, when `pending` is the data gathered before.
proof fn lemma_event_gathers(lines: Seq<Seq<char>>, pending: Option<Seq<char>>)
    requires
        forall|i: int| 0 <= i < lines.len() ==> fits_one_line(#[trigger] lines[i]),
    ensures
        parse(encode_utf8(event_text(lines)), pending) == (Parsed {
            events: match gathered(pending, lines) {
                Some(text) => seq![ParsedEvent::Data(text)],
                None => Seq::empty(),
            },
            buffered: Seq::empty(),
            pending: None,
        }),
    decreases lines.len(),
{
    let none: Seq<u8> = Seq::empty();
    assert(!has_line(none));
    if lines.len() == 0 {
        lemma_encode_one('\n');
        lemma_encoded_char('\n');
        assert(encode_utf8(event_text(lines)) =~= none + seq![LINE_FEED] + none);
        lemma_first_line(none, none, pending);
        assert(without_carriage_return(none) == none);
        let step = line_step(none, pending);
        assert(step.events + Seq::<ParsedEvent>::empty() =~= step.events);
    } else {
        let first = lines[0];
        let rest = lines.drop_first();
        let line = data_line(first);
        let bytes = encode_utf8(line);
        let after = encode_utf8(event_text(rest));
        assert(fits_one_line(first));
        assert(encode_utf8(event_text(lines)) == bytes + seq![LINE_FEED] + after) by {
            lemma_encode_concat(line + seq!['\n'], event_text(rest));
            lemma_encode_concat(line, seq!['\n']);
            lemma_encode_one('\n');
            lemma_encoded_char('\n');
        }
        assert forall|i: int| 0 <= i < line.len() implies line[i] != '\n' by {
            if i >= 6 {
                assert(line[i] == first[i - 6]);
            } else if i == 5 {
                assert(line[i] == ' ');
            } else {
                assert(line[i] == data_field()[i]);
            }
        }
        lemma_byte_absent(line, '\n');
        assert(line.last() != '\r') by {
            if first.len() > 0 {
                assert(line.last() == first.last());
            } else {
                assert(line.last() == ' ');
            }
        }
        lemma_last_byte(line, '\r');
        assert(bytes.last() != CARRIAGE_RETURN);
        assert(without_carriage_return(bytes) == bytes);
        lemma_first_line(bytes, after, pending);
        lemma_data_line_adds(first, pending);
        assert forall|i: int| 0 <= i < rest.len() implies fits_one_line(#[trigger] rest[i]) by {
            assert(rest[i] == lines[i + 1]);
        }
        lemma_event_gathers(rest, Some(data_with(pending, first)));
        let tail = parse(after, Some(data_with(pending, first)));
        assert(Seq::<ParsedEvent>::empty() + tail.events =~= tail.events);
    }
}

/// The text of lines joined by line feeds, from its first line on.
proof fn lemma_joined_from_front(first: Seq<char>, rest: Seq<Seq<char>>)
    requires
        rest.len() > 0,
    ensures
        joined(seq![first] + rest, seq!['\n']) == first + seq!['\n'] + joined(rest, seq!['\n']),
    decreases rest.len(),
{
    let all = seq![first] + rest;
    let nl = seq!['\n'];
    assert(all.last() == rest.last());
    assert(all.drop_last() =~= seq![first] + rest.drop_last());
    if rest.len() == 1 {
        assert(all.drop_last() =~= seq![first]);
        assert(joined(all.drop_last(), nl) == first);
        assert(joined(rest, nl) == rest[0]);
    } else {
        lemma_joined_from_front(first, rest.drop_last());
        assert((first + nl + joined(rest.drop_last(), nl)) + nl + rest.last() =~= first + nl + (
        joined(rest.drop_last(), nl) + nl + rest.last()));
    }
}

/// What is gathered from data lines is the lines joined by line feeds.
proof fn lemma_gathered_is_joined(first: Seq<char>, rest: Seq<Seq<char>>)
    ensures
        gathered(Some(first), rest) == Some(joined(seq![first] + rest, seq!['\n'])),
    decreases rest.len(),
{
    let nl = seq!['\n'];
    if rest.len() == 0 {
        assert(seq![first] + rest =~= seq![first]);
    } else {
        let next = first + nl + rest[0];
        lemma_gathered_is_joined(next, rest.drop_first());
        lemma_joined_from_front(first, rest);
        if rest.len() == 1 {
            assert(rest.drop_first() =~= Seq::<Seq<char>>::empty());
            assert(seq![next] + rest.drop_first() =~= seq![next]);
            assert(joined(rest, nl) == rest[0]);
        } else {
            lemma_joined_from_front(next, rest.drop_first());
            assert(rest =~= seq![rest[0]] + rest.drop_first());
            lemma_joined_from_front(rest[0], rest.drop_first());
            assert((first + nl + rest[0]) + nl + joined(rest.drop_first(), nl) =~= first + nl + (
            rest[0] + nl + joined(rest.drop_first(), nl)));
        }
    }
}

/// An event of one or more data lines is decoded as one event, whose
/// data is the texts of the lines joined by line feeds; nothing is left
/// behind in the decoder.
pub proof fn lemma_data_lines_make_one_event(lines: Seq<Seq<char>>)
    requires
        lines.len() > 0,
        forall|i: int| 0 <= i < lines.len() ==> fits_one_line(#[trigger] lines[i]),
    ensures
        parse(encode_utf8(event_text(lines)), None) == (Parsed {
            events: seq![ParsedEvent::Data(joined(lines, seq!['\n']))],
            buffered: Seq::empty(),
            pending: None,
        }),
{
    lemma_event_gathers(lines, None);
    assert(gathered(None, lines) == gathered(Some(lines[0]), lines.drop_first()));
    lemma_gathered_is_joined(lines[0], lines.drop_first());
    assert(seq![lines[0]] + lines.drop_first() =~= lines);
}

/// An event of one data line is decoded as one event with the text of
/// that line.
pub proof fn lemma_one_data_line_makes_one_event(text: Seq<char>)
    requires
        fits_one_line(text),
    ensures
        parse(encode_utf8(event_text(seq![text])), None) == (Parsed {
            events: seq![ParsedEvent::Data(text)],
            buffered: Seq::empty(),
            pending: None,
        }),
{
    lemma_data_lines_make_one_event(seq![text]);
}

} // verus!
