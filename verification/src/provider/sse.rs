//! An incremental decoder of server-sent events.
//!
//! Bytes go in as they arrive, in pieces of any size; events come out as
//! soon as the blank line that ends them has arrived. The decoder does no
//! input or output and keeps only what has not been decoded yet.

use vstd::prelude::*;
use vstd::slice::*;
use vstd::string::*;
use vstd::utf8::*;

use crate::provider::types::ProviderError;
use crate::provider::types::ProviderErrorView;
use crate::text::opt_text;
use crate::text::starts_with;
use crate::text::utf8_text;

verus! {

/// The byte that ends a line.
pub const LINE_FEED: u8 = 10;

/// The byte that may stand before the line feed, and is then no part of the line.
pub const CARRIAGE_RETURN: u8 = 13;

/// An event of the stream.
#[derive(Debug, PartialEq, Eq)]
pub enum SseEvent {
    /// The data of an event: its `data:` lines, joined by line feeds.
    Data(String),
    /// A line that is no `data:` line: another field, or a comment.
    Other,
}

/// What the decoder reports, with texts as sequences of characters.
pub enum ParsedEvent {
    /// The data of an event.
    Data(Seq<char>),
    /// A line that is no `data:` line.
    Other,
    /// A line that could not be decoded.
    Failure(ProviderErrorView),
}

/// One item of what [`SseParser::push`] returns, as a [`ParsedEvent`].
pub open spec fn item_view(item: Result<SseEvent, ProviderError>) -> ParsedEvent {
    match item {
        Ok(SseEvent::Data(text)) => ParsedEvent::Data(text@),
        Ok(SseEvent::Other) => ParsedEvent::Other,
        Err(e) => ParsedEvent::Failure(e@),
    }
}

/// What [`SseParser::push`] returns, as [`ParsedEvent`]s.
pub open spec fn items_view(items: Seq<Result<SseEvent, ProviderError>>) -> Seq<ParsedEvent> {
    Seq::new(items.len(), |i: int| item_view(items[i]))
}

/// Whether the first line of `buf` ends at index `i`: the first line feed is there.
pub open spec fn line_ends_at(buf: Seq<u8>, i: int) -> bool {
    &&& 0 <= i < buf.len()
    &&& buf[i] == LINE_FEED
    &&& forall|j: int| 0 <= j < i ==> buf[j] != LINE_FEED
}

/// Whether `buf` holds a whole line.
pub open spec fn has_line(buf: Seq<u8>) -> bool {
    exists|i: int| line_ends_at(buf, i)
}

/// Where the first line of `buf` ends.
pub open spec fn first_line_end(buf: Seq<u8>) -> int {
    choose|i: int| line_ends_at(buf, i)
}

/// A line without the carriage return at its end, if it has one.
pub open spec fn without_carriage_return(line: Seq<u8>) -> Seq<u8> {
    if line.len() > 0 && line.last() == CARRIAGE_RETURN {
        line.drop_last()
    } else {
        line
    }
}

/// The name of the data field with its colon.
pub open spec fn data_field() -> Seq<char> {
    seq!['d', 'a', 't', 'a', ':']
}

/// What a line gives to the data of its event: what follows `data:`,
/// less one space at the front. `None` for a line of another kind.
pub open spec fn data_payload(line: Seq<char>) -> Option<Seq<char>> {
    if starts_with(line, data_field()) {
        let rest = line.skip(5);
        if rest.len() > 0 && rest[0] == ' ' {
            Some(rest.skip(1))
        } else {
            Some(rest)
        }
    } else {
        None
    }
}

/// The data of an event after one more line of it.
pub open spec fn data_with(pending: Option<Seq<char>>, payload: Seq<char>) -> Seq<char> {
    match pending {
        Some(text) => text + seq!['\n'] + payload,
        None => payload,
    }
}

/// What one line does: what it reports, and the data that is pending after it.
pub struct LineStep {
    pub events: Seq<ParsedEvent>,
    pub pending: Option<Seq<char>>,
}

/// What the line `line` does when `pending` is the data gathered so far.
///
/// A blank line ends the event and reports its data, if it has any. A
/// line that is not UTF-8 is reported and changes nothing. A `data:` line
/// adds to the data. Any other line is reported as such.
pub open spec fn line_step(line: Seq<u8>, pending: Option<Seq<char>>) -> LineStep {
    if line.len() == 0 {
        match pending {
            Some(text) => LineStep { events: seq![ParsedEvent::Data(text)], pending: None },
            None => LineStep { events: Seq::empty(), pending: None },
        }
    } else if !valid_utf8(line) {
        LineStep { events: seq![ParsedEvent::Failure(ProviderErrorView::InvalidUtf8)], pending }
    } else {
        match data_payload(decode_utf8(line)) {
            Some(payload) => LineStep {
                events: Seq::empty(),
                pending: Some(data_with(pending, payload)),
            },
            None => LineStep { events: seq![ParsedEvent::Other], pending },
        }
    }
}

/// What decoding leaves: the events found, the bytes after the last line
/// feed, and the data of the event that has not ended yet.
pub struct Parsed {
    pub events: Seq<ParsedEvent>,
    pub buffered: Seq<u8>,
    pub pending: Option<Seq<char>>,
}

/// Decodes `buf` line by line, starting with the pending data `pending`.
pub open spec fn parse(buf: Seq<u8>, pending: Option<Seq<char>>) -> Parsed
    decreases buf.len(),
{
    if has_line(buf) {
        let end = first_line_end(buf);
        let step = line_step(without_carriage_return(buf.subrange(0, end)), pending);
        let rest = parse(buf.subrange(end + 1, buf.len() as int), step.pending);
        Parsed { events: step.events + rest.events, buffered: rest.buffered, pending: rest.pending }
    } else {
        Parsed { events: Seq::empty(), buffered: buf, pending }
    }
}

/// Finds the first occurrence of `needle` in `haystack`.
pub fn memchr(needle: u8, haystack: &[u8]) -> (r: Option<usize>)
    ensures
        match r {
            Some(i) => i < haystack@.len() && haystack@[i as int] == needle && forall|j: int|
                0 <= j < i ==> haystack@[j] != needle,
            None => forall|j: int| 0 <= j < haystack@.len() ==> haystack@[j] != needle,
        },
{
    let mut i: usize = 0;
    while i < haystack.len()
        invariant
            i <= haystack@.len(),
            forall|j: int| 0 <= j < i ==> haystack@[j] != needle,
        decreases haystack@.len() - i,
    {
        if haystack[i] == needle {
            return Some(i);
        }
        i += 1;
    }
    None
}

/// Handles one line, already without its line feed and carriage return:
/// returns what the line reports, if anything, and the pending data after it.
pub fn take_line(line: &[u8], pending: Option<String>) -> (r: (
    Option<Result<SseEvent, ProviderError>>,
    Option<String>,
))
    ensures
        opt_text(r.1) == line_step(line@, opt_text(pending)).pending,
        line_step(line@, opt_text(pending)).events == match r.0 {
            Some(item) => seq![item_view(item)],
            None => Seq::empty(),
        },
{
    if line.len() == 0 {
        return match pending {
            Some(text) => (Some(Ok(SseEvent::Data(text))), None),
            None => (None, None),
        };
    }
    let text = match utf8_text(line) {
        Some(text) => text,
        None => {
            return (Some(Err(ProviderError::InvalidUtf8)), pending);
        },
    };
    proof {
        encode_utf8_decode_utf8(text@);
    }
    let n = text.unicode_len();
    if n >= 5 && text.get_char(0) == 'd' && text.get_char(1) == 'a' && text.get_char(2) == 't'
        && text.get_char(3) == 'a' && text.get_char(4) == ':' {
        assert(text@.subrange(0, 5) =~= data_field());
        let from: usize = if n > 5 && text.get_char(5) == ' ' {
            6
        } else {
            5
        };
        let payload = text.substring_char(from, n);
        assert(Some(payload@) == data_payload(text@)) by {
            assert(text@.skip(5) =~= text@.subrange(5, n as int));
            if from == 6 {
                assert(text@.skip(5).skip(1) =~= text@.subrange(6, n as int));
            }
        }
        let data = match pending {
            Some(mut gathered) => {
                proof {
                    reveal_strlit("\n");
                }
                assert("\n"@ =~= seq!['\n']);
                gathered.append("\n");
                gathered.append(payload);
                gathered
            },
            None => String::from_str(payload),
        };
        (None, Some(data))
    } else {
        assert(data_payload(text@) is None) by {
            if starts_with(text@, data_field()) {
                assert(text@.subrange(0, 5)[0] == 'd');
                assert(text@.subrange(0, 5)[1] == 'a');
                assert(text@.subrange(0, 5)[2] == 't');
                assert(text@.subrange(0, 5)[3] == 'a');
                assert(text@.subrange(0, 5)[4] == ':');
            }
        }
        (Some(Ok(SseEvent::Other)), pending)
    }
}

/// The decoder's state between two pieces of input.
#[derive(Debug, PartialEq, Eq)]
pub struct SseParser {
    /// The bytes after the last line feed seen.
    buf: Vec<u8>,
    /// The data of the event that has not ended yet.
    cur_data: Option<String>,
}

impl SseParser {
    /// The bytes that wait for the end of their line.
    pub closed spec fn buffered(&self) -> Seq<u8> {
        self.buf@
    }

    /// The data of the event that has not ended yet, if it has any.
    pub closed spec fn pending(&self) -> Option<Seq<char>> {
        opt_text(self.cur_data)
    }

    /// A decoder that has seen nothing.
    pub fn new() -> (r: SseParser)
        ensures
            r.buffered() == Seq::<u8>::empty(),
            r.pending() is None,
    {
        SseParser { buf: Vec::new(), cur_data: None }
    }

    /// Takes the next piece of the stream and returns, in order, what its
    /// lines report together with the lines that it completes.
    pub fn push(&mut self, chunk: &[u8]) -> (out: Vec<Result<SseEvent, ProviderError>>)
        ensures
            items_view(out@) == parse(old(self).buffered() + chunk@, old(self).pending()).events,
            final(self).buffered() == parse(
                old(self).buffered() + chunk@,
                old(self).pending(),
            ).buffered,
            final(self).pending() == parse(
                old(self).buffered() + chunk@,
                old(self).pending(),
            ).pending,
    {
        let ghost whole = self.buf@ + chunk@;
        let ghost pending0 = opt_text(self.cur_data);
        let mut buf: Vec<u8> = Vec::new();
        std::mem::swap(&mut self.buf, &mut buf);
        buf.extend_from_slice(chunk);
        assert(buf@ =~= whole);
        let mut pending = self.cur_data.take();
        let mut out: Vec<Result<SseEvent, ProviderError>> = Vec::new();
        let mut start: usize = 0;
        assert(whole.subrange(0, whole.len() as int) =~= whole);
        loop
            invariant
                start <= buf@.len(),
                buf@ == whole,
                parse(whole, pending0).events == items_view(out@) + parse(
                    whole.subrange(start as int, whole.len() as int),
                    opt_text(pending),
                ).events,
                parse(whole, pending0).buffered == parse(
                    whole.subrange(start as int, whole.len() as int),
                    opt_text(pending),
                ).buffered,
                parse(whole, pending0).pending == parse(
                    whole.subrange(start as int, whole.len() as int),
                    opt_text(pending),
                ).pending,
            ensures
                !has_line(whole.subrange(start as int, whole.len() as int)),
            decreases buf@.len() - start,
        {
            let ghost tail = whole.subrange(start as int, whole.len() as int);
            let rest = slice_subrange(buf.as_slice(), start, buf.len());
            let at = match memchr(LINE_FEED, rest) {
                Some(at) => at,
                None => {
                    assert(!has_line(tail));
                    break ;
                },
            };
            assert(line_ends_at(tail, at as int));
            assert(first_line_end(tail) == at as int);
            let line_end: usize = if at > 0 && rest[at - 1] == CARRIAGE_RETURN {
                at - 1
            } else {
                at
            };
            let line = slice_subrange(rest, 0, line_end);
            assert(line@ =~= without_carriage_return(tail.subrange(0, at as int)));
            let (item, next) = take_line(line, pending);
            let ghost step = line_step(line@, opt_text(pending));
            pending = next;
            let ghost before = items_view(out@);
            match item {
                Some(item) => {
                    out.push(item);
                },
                None => {},
            }
            assert(items_view(out@) =~= before + step.events);
            assert(tail.subrange(at as int + 1, tail.len() as int) =~= whole.subrange(
                start as int + at as int + 1,
                whole.len() as int,
            ));
            start = start + at + 1;
        }
        let kept = buf.split_off(start);
        self.buf = kept;
        self.cur_data = pending;
        out
    }
}

/// Decoding may stop anywhere and go on later: to decode `buf`, keep what
/// is left, and then decode that with `more` behind it, finds the events
/// of `buf + more`, in the same order, and leaves the same state.
pub proof fn lemma_parse_resumes(buf: Seq<u8>, more: Seq<u8>, pending: Option<Seq<char>>)
    ensures
        parse(buf + more, pending).events == parse(buf, pending).events + parse(
            parse(buf, pending).buffered + more,
            parse(buf, pending).pending,
        ).events,
        parse(buf + more, pending).buffered == parse(
            parse(buf, pending).buffered + more,
            parse(buf, pending).pending,
        ).buffered,
        parse(buf + more, pending).pending == parse(
            parse(buf, pending).buffered + more,
            parse(buf, pending).pending,
        ).pending,
    decreases buf.len(),
{
    if has_line(buf) {
        let end = first_line_end(buf);
        let whole = buf + more;
        assert(line_ends_at(whole, end));
        assert(first_line_end(whole) == end);
        assert(whole.subrange(0, end) =~= buf.subrange(0, end));
        let step = line_step(without_carriage_return(buf.subrange(0, end)), pending);
        let tail = buf.subrange(end + 1, buf.len() as int);
        assert(whole.subrange(end + 1, whole.len() as int) =~= tail + more);
        lemma_parse_resumes(tail, more, step.pending);
        let first = parse(tail, step.pending);
        let second = parse(first.buffered + more, first.pending);
        assert(step.events + (first.events + second.events) =~= (step.events + first.events)
            + second.events);
    } else {
        assert(Seq::<ParsedEvent>::empty() + parse(buf + more, pending).events =~= parse(
            buf + more,
            pending,
        ).events);
    }
}

/// A stream may arrive in any pieces: to push `first` and then `second`
/// reports what pushing `first + second` at once reports, in the same
/// order, and leaves the decoder in the same state.
pub proof fn lemma_pieces_do_not_matter(
    buffered: Seq<u8>,
    pending: Option<Seq<char>>,
    first: Seq<u8>,
    second: Seq<u8>,
)
    ensures
        parse(buffered + (first + second), pending).events == parse(
            buffered + first,
            pending,
        ).events + parse(
            parse(buffered + first, pending).buffered + second,
            parse(buffered + first, pending).pending,
        ).events,
        parse(buffered + (first + second), pending).buffered == parse(
            parse(buffered + first, pending).buffered + second,
            parse(buffered + first, pending).pending,
        ).buffered,
        parse(buffered + (first + second), pending).pending == parse(
            parse(buffered + first, pending).buffered + second,
            parse(buffered + first, pending).pending,
        ).pending,
{
    assert(buffered + (first + second) =~= (buffered + first) + second);
    lemma_parse_resumes(buffered + first, second, pending);
}

/// What the decoder keeps never holds a whole line: every line is decoded
/// as soon as its line feed has arrived.
pub proof fn lemma_nothing_whole_is_kept(buf: Seq<u8>, pending: Option<Seq<char>>)
    ensures
        !has_line(parse(buf, pending).buffered),
        parse(buf, pending).buffered.len() <= buf.len(),
    decreases buf.len(),
{
    if has_line(buf) {
        let end = first_line_end(buf);
        let step = line_step(without_carriage_return(buf.subrange(0, end)), pending);
        lemma_nothing_whole_is_kept(buf.subrange(end + 1, buf.len() as int), step.pending);
    }
}

/// Input without a line feed reports nothing and is kept whole.
pub proof fn lemma_unfinished_line_waits(buf: Seq<u8>, pending: Option<Seq<char>>)
    requires
        forall|i: int| 0 <= i < buf.len() ==> buf[i] != LINE_FEED,
    ensures
        parse(buf, pending).events == Seq::<ParsedEvent>::empty(),
        parse(buf, pending).buffered == buf,
        parse(buf, pending).pending == pending,
{
    assert(!has_line(buf));
}

} // verus!
