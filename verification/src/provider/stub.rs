//! A provider that needs no network: it answers every question with the
//! same few chunks, slowly, so that a front end can be tried without the
//! service.

use vstd::prelude::*;
use vstd::string::*;

use crate::provider::types::ChatChunk;
use crate::provider::types::ChatRequest;
use crate::provider::types::ChatRequestView;
use crate::text::debug_list;
use crate::text::debug_strings;

verus! {

/// How many chunks may wait between the stand-in and the consumer.
pub const STUB_QUEUE_CAPACITY: usize = 32;

/// The pause before each chunk but the first, in milliseconds.
pub const STUB_DELAY_MILLIS: u64 = 120;

/// The stand-in provider.
#[derive(Clone, Copy, Debug, Default)]
pub struct StubProvider;

/// The chunk that introduces the stand-in's answer.
pub open spec fn stub_header(request: ChatRequestView) -> Seq<char> {
    "[stub provider]\nmodel: "@ + request.model + "\ninclude_directories: "@ + debug_list(
        request.include_directories,
    ) + "\n\n"@
}

/// The stand-in's answer to a request, chunk by chunk.
pub open spec fn stub_script(request: ChatRequestView) -> Seq<Seq<char>> {
    seq![
        stub_header(request),
        "You said: "@,
        request.prompt,
        "\n\n"@,
        "(This is streaming scaffolding; Phase A does not call Gemini APIs yet.)"@,
    ]
}

/// Whether the stand-in goes on after the chunk at `index` of its script
/// was sent: it stops at the first chunk that the consumer did not take,
/// except that it does not look at what became of the first.
pub open spec fn stub_goes_on(index: nat, delivered: bool) -> bool {
    index == 0 || delivered
}

/// What [`StubProvider::script`] returns, as texts.
pub open spec fn chunk_texts(chunks: Seq<ChatChunk>) -> Seq<Seq<char>> {
    Seq::new(chunks.len(), |i: int| chunks[i]@)
}

impl StubProvider {
    /// The stand-in provider.
    pub fn new() -> (r: StubProvider) {
        StubProvider
    }

    /// The provider's name.
    pub fn name(&self) -> (r: &'static str)
        ensures
            r@ == "stub"@,
    {
        "stub"
    }

    /// The chunks of the answer to `request`, in the order in which they
    /// are sent. Before each but the first the producer pauses for
    /// [`STUB_DELAY_MILLIS`].
    pub fn script(&self, request: ChatRequest) -> (r: Vec<ChatChunk>)
        ensures
            chunk_texts(r@) == stub_script(request@),
    {
        let mut header = String::from_str("[stub provider]\nmodel: ");
        header.append(request.model.as_str());
        header.append("\ninclude_directories: ");
        let listed = debug_strings(&request.include_directories);
        header.append(listed.as_str());
        header.append("\n\n");
        let mut chunks: Vec<ChatChunk> = Vec::new();
        chunks.push(ChatChunk { text: header });
        chunks.push(ChatChunk { text: String::from_str("You said: ") });
        chunks.push(ChatChunk { text: request.prompt });
        chunks.push(ChatChunk { text: String::from_str("\n\n") });
        chunks.push(
            ChatChunk {
                text: String::from_str(
                    "(This is streaming scaffolding; Phase A does not call Gemini APIs yet.)",
                ),
            },
        );
        assert(chunk_texts(chunks@) =~= stub_script(request@));
        chunks
    }

    /// Whether to go on after the chunk at `index` was sent.
    pub fn goes_on(&self, index: usize, delivered: bool) -> (r: bool)
        ensures
            r == stub_goes_on(index as nat, delivered),
    {
        index == 0 || delivered
    }
}

/// The stand-in always answers with five chunks, and the third is the
/// prompt, unchanged.
pub proof fn lemma_stub_echoes_prompt(request: ChatRequestView)
    ensures
        stub_script(request).len() == 5,
        stub_script(request)[2] == request.prompt,
{
}

} // verus!
