//! The producer's side of a streamed answer, as a machine of states.
//!
//! The caller owns the connection and the queue to the consumer. It does
//! what the machine asks for (read the next piece of the body, decode a
//! text as JSON, send a chunk) and tells the machine how that went. The
//! machine decides what comes next, and when the stream is over.

use std::collections::VecDeque;
use vstd::prelude::*;
use vstd::string::*;

use crate::list::into_queue;
use crate::provider::google::extract_text;
use crate::provider::google::extracted_text;
use crate::provider::google::ContentView;
use crate::provider::google::StreamGenerateContentResponse;
use crate::provider::sse::items_view;
use crate::provider::sse::parse;
use crate::provider::sse::ParsedEvent;
use crate::provider::sse::SseEvent;
use crate::provider::sse::SseParser;
use crate::provider::types::ChatChunk;
use crate::provider::types::ProviderError;
use crate::provider::types::ProviderErrorView;
use crate::provider::types::Stage;
use crate::text::is_blank;
use crate::text::result_view;
use crate::text::trimmed;
use crate::web::is_success;
use crate::web::success_status;

verus! {

/// What the caller is to do next.
#[derive(Debug, PartialEq, Eq)]
pub enum PumpAction {
    /// Read the next piece of the body, then call [`StreamPump::on_bytes`],
    /// [`StreamPump::on_read_error`] or [`StreamPump::on_end`].
    Read,
    /// Decode this text as the JSON of an answer, then call [`StreamPump::on_decoded`].
    Decode(String),
    /// Send this to the consumer, waiting while the queue is full, then
    /// call [`StreamPump::on_sent`].
    Send(Result<ChatChunk, ProviderError>),
    /// The stream is over.
    Stop,
}

/// A [`PumpAction`] with its texts as sequences of characters.
pub enum PumpActionView {
    Read,
    Decode(Seq<char>),
    Send(Result<Seq<char>, ProviderErrorView>),
    Stop,
}

impl View for PumpAction {
    type V = PumpActionView;

    open spec fn view(&self) -> PumpActionView {
        match *self {
            PumpAction::Read => PumpActionView::Read,
            PumpAction::Decode(text) => PumpActionView::Decode(text@),
            PumpAction::Send(item) => PumpActionView::Send(result_view(item)),
            PumpAction::Stop => PumpActionView::Stop,
        }
    }
}

/// The state of a stream between two steps.
pub struct StreamPumpView {
    /// The bytes of the body that wait for the end of their line.
    pub buffered: Seq<u8>,
    /// The data of the event that has not ended yet.
    pub pending: Option<Seq<char>>,
    /// The events decoded and not yet dealt with, oldest first.
    pub queue: Seq<ParsedEvent>,
    /// Whether what was last handed out to be sent is the failure that
    /// ends the stream.
    pub closing: bool,
    /// Whether the stream is over.
    pub stopped: bool,
}

/// A step of the machine: the state after it, and what it asks for.
pub struct Step {
    pub pump: StreamPumpView,
    pub action: PumpActionView,
}

/// What the oldest events of a queue amount to, and what is left of it.
pub struct Advance {
    pub action: PumpActionView,
    pub queue: Seq<ParsedEvent>,
    pub closing: bool,
}

/// Goes through `queue` from its oldest event to the first that asks for
/// something: data that is not blank is to be decoded; a failure is to be
/// sent, and ends the stream. Other lines and blank data are passed over.
/// An empty queue asks for more of the body.
pub open spec fn advance(queue: Seq<ParsedEvent>) -> Advance
    decreases queue.len(),
{
    if queue.len() == 0 {
        Advance { action: PumpActionView::Read, queue, closing: false }
    } else {
        match queue[0] {
            ParsedEvent::Data(text) => if trimmed(text).len() == 0 {
                advance(queue.drop_first())
            } else {
                Advance {
                    action: PumpActionView::Decode(text),
                    queue: queue.drop_first(),
                    closing: false,
                }
            },
            ParsedEvent::Other => advance(queue.drop_first()),
            ParsedEvent::Failure(e) => Advance {
                action: PumpActionView::Send(Err(e)),
                queue: queue.drop_first(),
                closing: true,
            },
        }
    }
}

impl StreamPumpView {
    /// The state of a stream of which nothing has been read.
    pub open spec fn fresh() -> StreamPumpView {
        StreamPumpView {
            buffered: Seq::empty(),
            pending: None,
            queue: Seq::empty(),
            closing: false,
            stopped: false,
        }
    }

    /// The step that deals with the oldest events in the queue.
    pub open spec fn proceed(self) -> Step {
        let next = advance(self.queue);
        Step {
            pump: StreamPumpView { queue: next.queue, closing: next.closing, ..self },
            action: next.action,
        }
    }

    /// The step that ends the stream.
    pub open spec fn stop(self) -> Step {
        Step { pump: StreamPumpView { stopped: true, ..self }, action: PumpActionView::Stop }
    }

    /// The step after a piece of the body has arrived.
    pub open spec fn after_bytes(self, bytes: Seq<u8>) -> Step {
        if self.stopped {
            self.stop()
        } else {
            let parsed = parse(self.buffered + bytes, self.pending);
            StreamPumpView {
                buffered: parsed.buffered,
                pending: parsed.pending,
                queue: self.queue + parsed.events,
                ..self
            }.proceed()
        }
    }

    /// The step after the connection has failed: the failure is sent on,
    /// and ends the stream.
    pub open spec fn after_read_error(self, detail: Seq<char>) -> Step {
        if self.stopped {
            self.stop()
        } else {
            Step {
                pump: StreamPumpView { closing: true, ..self },
                action: PumpActionView::Send(
                    Err(ProviderErrorView::Transport { stage: Stage::Stream, detail }),
                ),
            }
        }
    }

    /// The step after a text has been decoded, or could not be.
    pub open spec fn after_decoded(
        self,
        decoded: Result<Seq<Option<ContentView>>, Seq<char>>,
    ) -> Step {
        if self.stopped {
            self.stop()
        } else {
            match decoded {
                Err(detail) => Step {
                    pump: StreamPumpView { closing: true, ..self },
                    action: PumpActionView::Send(Err(ProviderErrorView::MalformedJson { detail })),
                },
                Ok(response) => match extracted_text(response) {
                    Some(text) => Step {
                        pump: StreamPumpView { closing: false, ..self },
                        action: PumpActionView::Send(Ok(text)),
                    },
                    None => self.proceed(),
                },
            }
        }
    }

    /// The step after a send: the stream ends where a failure was sent,
    /// or where the consumer is gone.
    pub open spec fn after_sent(self, delivered: bool) -> Step {
        if self.stopped || self.closing || !delivered {
            self.stop()
        } else {
            self.proceed()
        }
    }
}

/// The machine that turns the body of a streamed answer into chunks.
#[derive(Debug, PartialEq, Eq)]
pub struct StreamPump {
    parser: SseParser,
    queue: VecDeque<Result<SseEvent, ProviderError>>,
    closing: bool,
    stopped: bool,
}

impl View for StreamPump {
    type V = StreamPumpView;

    closed spec fn view(&self) -> StreamPumpView {
        StreamPumpView {
            buffered: self.parser.buffered(),
            pending: self.parser.pending(),
            queue: items_view(self.queue@),
            closing: self.closing,
            stopped: self.stopped,
        }
    }
}

impl StreamPump {
    /// The machine for an answer with the given status: there is one
    /// where the status reports success. Its first step is to read.
    pub fn open(status: u16) -> (r: Option<StreamPump>)
        ensures
            r is Some <==> success_status(status),
            r matches Some(pump) ==> pump@ == StreamPumpView::fresh(),
    {
        if is_success(status) {
            let pump = StreamPump {
                parser: SseParser::new(),
                queue: VecDeque::new(),
                closing: false,
                stopped: false,
            };
            assert(items_view(pump.queue@) =~= Seq::<ParsedEvent>::empty());
            Some(pump)
        } else {
            None
        }
    }

    /// Whether the stream is over.
    pub fn is_stopped(&self) -> (r: bool)
        ensures
            r == self@.stopped,
    {
        self.stopped
    }

    fn proceed(&mut self) -> (r: PumpAction)
        ensures
            final(self)@ == old(self)@.proceed().pump,
            r@ == old(self)@.proceed().action,
    {
        let ghost target = advance(items_view(self.queue@));
        loop
            invariant
                advance(items_view(self.queue@)) == target,
                target == advance(old(self)@.queue),
                self.parser == old(self).parser,
                self.stopped == old(self).stopped,
            decreases self.queue@.len(),
        {
            let ghost before = items_view(self.queue@);
            let item = self.queue.pop_front();
            assert(item is Some ==> items_view(self.queue@) =~= before.drop_first());
            assert(item is None ==> items_view(self.queue@) =~= before);
            match item {
                None => {
                    self.closing = false;
                    return PumpAction::Read;
                },
                Some(Ok(SseEvent::Data(text))) => {
                    if !is_blank(text.as_str()) {
                        self.closing = false;
                        return PumpAction::Decode(text);
                    }
                },
                Some(Ok(SseEvent::Other)) => {},
                Some(Err(e)) => {
                    self.closing = true;
                    return PumpAction::Send(Err(e));
                },
            }
        }
    }

    fn stop(&mut self) -> (r: PumpAction)
        ensures
            final(self)@ == old(self)@.stop().pump,
            r@ == old(self)@.stop().action,
    {
        self.stopped = true;
        PumpAction::Stop
    }

    /// Takes the next piece of the body.
    pub fn on_bytes(&mut self, bytes: &[u8]) -> (r: PumpAction)
        ensures
            final(self)@ == old(self)@.after_bytes(bytes@).pump,
            r@ == old(self)@.after_bytes(bytes@).action,
    {
        if self.stopped {
            return self.stop();
        }
        let events = self.parser.push(bytes);
        let ghost found = events@;
        let ghost waiting = self.queue@;
        let mut fresh = into_queue(events);
        self.queue.append(&mut fresh);
        assert(items_view(self.queue@) =~= items_view(waiting) + items_view(found));
        self.proceed()
    }

    /// Takes the news that the connection failed while the body was read.
    pub fn on_read_error(&mut self, detail: String) -> (r: PumpAction)
        ensures
            final(self)@ == old(self)@.after_read_error(detail@).pump,
            r@ == old(self)@.after_read_error(detail@).action,
    {
        if self.stopped {
            return self.stop();
        }
        self.closing = true;
        PumpAction::Send(Err(ProviderError::Transport { stage: Stage::Stream, detail }))
    }

    /// Takes the news that the body has ended. What has not been ended by
    /// a blank line is dropped.
    pub fn on_end(&mut self) -> (r: PumpAction)
        ensures
            final(self)@ == old(self)@.stop().pump,
            r@ == old(self)@.stop().action,
    {
        self.stop()
    }

    /// Takes what the text last handed out decodes to, or why it does not
    /// decode. An answer without text is passed over; one with text
    /// becomes a chunk.
    pub fn on_decoded(&mut self, decoded: Result<StreamGenerateContentResponse, String>) -> (r:
        PumpAction)
        ensures
            final(self)@ == old(self)@.after_decoded(result_view(decoded)).pump,
            r@ == old(self)@.after_decoded(result_view(decoded)).action,
    {
        if self.stopped {
            return self.stop();
        }
        match decoded {
            Err(detail) => {
                self.closing = true;
                PumpAction::Send(Err(ProviderError::MalformedJson { detail }))
            },
            Ok(response) => match extract_text(&response) {
                Some(text) => {
                    self.closing = false;
                    PumpAction::Send(Ok(ChatChunk { text }))
                },
                None => self.proceed(),
            },
        }
    }

    /// Takes the outcome of a send: `delivered` is false where the
    /// consumer has dropped its end of the queue.
    pub fn on_sent(&mut self, delivered: bool) -> (r: PumpAction)
        ensures
            final(self)@ == old(self)@.after_sent(delivered).pump,
            r@ == old(self)@.after_sent(delivered).action,
    {
        if self.stopped || self.closing || !delivered {
            self.stop()
        } else {
            self.proceed()
        }
    }
}

/// Whether the machine passes over an event: it is a line of another
/// kind, or data that is blank.
pub open spec fn passed_over(event: ParsedEvent) -> bool {
    match event {
        ParsedEvent::Data(text) => trimmed(text).len() == 0,
        ParsedEvent::Other => true,
        ParsedEvent::Failure(_) => false,
    }
}

/// Events are dealt with oldest first, and none is put back: what is left
/// of the queue is its end, everything before the event acted on was
/// passed over, and the action is that of the event acted on.
pub proof fn lemma_events_in_order(queue: Seq<ParsedEvent>)
    ensures
        advance(queue).queue.len() <= queue.len(),
        advance(queue).queue == queue.skip(queue.len() - advance(queue).queue.len()),
        advance(queue).action is Read ==> advance(queue).queue.len() == 0 && forall|i: int|
            0 <= i < queue.len() ==> passed_over(#[trigger] queue[i]),
        !(advance(queue).action is Read) ==> {
            let at = queue.len() - advance(queue).queue.len() - 1;
            &&& 0 <= at
            &&& forall|i: int| 0 <= i < at ==> passed_over(#[trigger] queue[i])
            &&& !passed_over(queue[at])
            &&& match queue[at] {
                ParsedEvent::Data(text) => advance(queue).action == PumpActionView::Decode(text),
                ParsedEvent::Other => false,
                ParsedEvent::Failure(e) => advance(queue).action == PumpActionView::Send(Err(e)),
            }
        },
    decreases queue.len(),
{
    if queue.len() == 0 {
        assert(queue.skip(0) =~= queue);
    } else {
        let tail = queue.drop_first();
        lemma_events_in_order(tail);
        if passed_over(queue[0]) {
            let left = advance(tail).queue.len();
            assert(tail.skip(tail.len() - left) =~= queue.skip(queue.len() - left));
            assert forall|i: int| 0 <= i < queue.len() && (forall|j: int|
                0 <= j < tail.len() ==> passed_over(#[trigger] tail[j])) implies passed_over(
                #[trigger] queue[i],
            ) by {
                if i > 0 {
                    assert(queue[i] == tail[i - 1]);
                }
            }
            if !(advance(queue).action is Read) {
                let at = queue.len() - left - 1;
                assert(queue[at] == tail[at - 1]);
                assert forall|i: int| 0 <= i < at implies passed_over(#[trigger] queue[i]) by {
                    if i > 0 {
                        assert(queue[i] == tail[i - 1]);
                    }
                }
            }
        } else {
            assert(queue.skip(1) =~= tail);
        }
    }
}

/// Going through the queue never makes a chunk: it asks to read, to
/// decode, or to send a failure.
pub proof fn lemma_advance_sends_failures_only(queue: Seq<ParsedEvent>)
    ensures
        advance(queue).action is Read || advance(queue).action is Decode || (advance(
            queue,
        ).action matches PumpActionView::Send(item) && item is Err && advance(queue).closing),
        !(advance(queue).action is Send) ==> !advance(queue).closing,
    decreases queue.len(),
{
    if queue.len() > 0 {
        lemma_advance_sends_failures_only(queue.drop_first());
    }
}

/// A chunk is never empty: an answer without text is passed over.
pub proof fn lemma_chunks_have_text(
    pump: StreamPumpView,
    decoded: Result<Seq<Option<ContentView>>, Seq<char>>,
)
    ensures
        pump.after_decoded(decoded).action matches PumpActionView::Send(item) ==> (item
            matches Ok(text) ==> text.len() > 0),
{
    lemma_advance_sends_failures_only(pump.queue);
}

/// A failure is sent at most once and is the last thing sent: whichever
/// step hands out a failure, the step after its send ends the stream.
pub proof fn lemma_failure_ends_stream(
    pump: StreamPumpView,
    bytes: Seq<u8>,
    detail: Seq<char>,
    decoded: Result<Seq<Option<ContentView>>, Seq<char>>,
    delivered: bool,
    sent: bool,
)
    ensures
        failure_closes(pump.after_bytes(bytes), sent),
        failure_closes(pump.after_read_error(detail), sent),
        failure_closes(pump.after_decoded(decoded), sent),
        failure_closes(pump.after_sent(delivered), sent),
{
    lemma_advance_sends_failures_only(pump.queue);
    lemma_advance_sends_failures_only(
        pump.queue + parse(pump.buffered + bytes, pump.pending).events,
    );
}

/// Whether a step that hands out a failure is followed, once the failure
/// has been sent, by the end of the stream.
pub open spec fn failure_closes(step: Step, sent: bool) -> bool {
    step.action matches PumpActionView::Send(item) ==> (item is Err ==> {
        &&& step.pump.after_sent(sent).action is Stop
        &&& step.pump.after_sent(sent).pump.stopped
    })
}

/// The producer runs no further ahead of the consumer than one piece of
/// the body: it asks for more only when everything that was decoded
/// has been dealt with, and after each chunk it waits for the send.
pub proof fn lemma_reads_only_when_drained(
    pump: StreamPumpView,
    bytes: Seq<u8>,
    detail: Seq<char>,
    decoded: Result<Seq<Option<ContentView>>, Seq<char>>,
    delivered: bool,
)
    ensures
        pump.after_bytes(bytes).action is Read ==> pump.after_bytes(bytes).pump.queue.len() == 0,
        pump.after_decoded(decoded).action is Read ==> pump.after_decoded(decoded).pump.queue.len()
            == 0,
        pump.after_sent(delivered).action is Read ==> pump.after_sent(delivered).pump.queue.len()
            == 0,
        !(pump.after_read_error(detail).action is Read),
{
    lemma_events_in_order(pump.queue);
    lemma_events_in_order(pump.queue + parse(pump.buffered + bytes, pump.pending).events);
}

/// When the consumer is gone the stream ends: a send that is not
/// delivered is followed by no other step but the last.
pub proof fn lemma_consumer_gone_ends_stream(pump: StreamPumpView)
    ensures
        pump.after_sent(false).action is Stop,
        pump.after_sent(false).pump.stopped,
{
}

/// A stream that is over stays over: every step ends it again and asks
/// for nothing.
pub proof fn lemma_stopped_stays_stopped(
    pump: StreamPumpView,
    bytes: Seq<u8>,
    detail: Seq<char>,
    decoded: Result<Seq<Option<ContentView>>, Seq<char>>,
    delivered: bool,
)
    requires
        pump.stopped,
    ensures
        pump.after_bytes(bytes) == pump.stop(),
        pump.after_read_error(detail) == pump.stop(),
        pump.after_decoded(decoded) == pump.stop(),
        pump.after_sent(delivered) == pump.stop(),
        pump.stop().pump == pump,
        pump.stop().action is Stop,
{
}

} // verus!
