//! What goes into a provider and what comes out of it.

use vstd::prelude::*;
use vstd::string::*;

use crate::text::clone_strings;
use crate::text::texts;
use crate::web::status_line;
use crate::web::status_text;

verus! {

/// One question to a model.
#[derive(Debug, PartialEq, Eq)]
pub struct ChatRequest {
    /// The model's identifier.
    pub model: String,
    /// The text of the question.
    pub prompt: String,
    /// Directories to give the model as context, in the order given.
    pub include_directories: Vec<String>,
}

/// A [`ChatRequest`] with its texts as sequences of characters.
pub struct ChatRequestView {
    pub model: Seq<char>,
    pub prompt: Seq<char>,
    pub include_directories: Seq<Seq<char>>,
}

impl View for ChatRequest {
    type V = ChatRequestView;

    open spec fn view(&self) -> ChatRequestView {
        ChatRequestView {
            model: self.model@,
            prompt: self.prompt@,
            include_directories: texts(self.include_directories@),
        }
    }
}

impl Clone for ChatRequest {
    fn clone(&self) -> (r: ChatRequest)
        ensures
            r@ == self@,
    {
        ChatRequest {
            model: self.model.clone(),
            prompt: self.prompt.clone(),
            include_directories: clone_strings(&self.include_directories),
        }
    }
}

/// A piece of the answer, in the order in which the pieces arrive.
#[derive(Debug, PartialEq, Eq)]
pub struct ChatChunk {
    pub text: String,
}

impl View for ChatChunk {
    type V = Seq<char>;

    open spec fn view(&self) -> Seq<char> {
        self.text@
    }
}

impl Clone for ChatChunk {
    fn clone(&self) -> (r: ChatChunk)
        ensures
            r@ == self@,
    {
        ChatChunk { text: self.text.clone() }
    }
}

/// The two moments at which the connection to the service can fail.
#[derive(Clone, Copy, Debug, PartialEq, Eq, Structural)]
pub enum Stage {
    /// Before the first byte of the answer.
    Start,
    /// While the answer streams in.
    Stream,
}

/// A failure of a provider. Each one ends the stream it occurs in.
#[derive(Debug, PartialEq, Eq)]
pub enum ProviderError {
    /// The network failed.
    Transport { stage: Stage, detail: String },
    /// The service answered with a failure status.
    Upstream { status: u16, body: String },
    /// A line of the event stream is not UTF-8.
    InvalidUtf8,
    /// An event of the stream is not the JSON it should be.
    MalformedJson { detail: String },
    /// The consumer of the stream is gone.
    ChannelClosed,
    /// What should be a URL is none.
    InvalidUrl { reference: String },
    /// The bearer token cannot be sent in a header.
    InvalidHeader,
}

/// A [`ProviderError`] with its texts as sequences of characters.
pub enum ProviderErrorView {
    Transport { stage: Stage, detail: Seq<char> },
    Upstream { status: u16, body: Seq<char> },
    InvalidUtf8,
    MalformedJson { detail: Seq<char> },
    ChannelClosed,
    InvalidUrl { reference: Seq<char> },
    InvalidHeader,
}

impl View for ProviderError {
    type V = ProviderErrorView;

    open spec fn view(&self) -> ProviderErrorView {
        match *self {
            ProviderError::Transport { stage, detail } => ProviderErrorView::Transport {
                stage,
                detail: detail@,
            },
            ProviderError::Upstream { status, body } => ProviderErrorView::Upstream {
                status,
                body: body@,
            },
            ProviderError::InvalidUtf8 => ProviderErrorView::InvalidUtf8,
            ProviderError::MalformedJson { detail } => ProviderErrorView::MalformedJson {
                detail: detail@,
            },
            ProviderError::ChannelClosed => ProviderErrorView::ChannelClosed,
            ProviderError::InvalidUrl { reference } => ProviderErrorView::InvalidUrl {
                reference: reference@,
            },
            ProviderError::InvalidHeader => ProviderErrorView::InvalidHeader,
        }
    }
}

impl Clone for ProviderError {
    fn clone(&self) -> (r: ProviderError)
        ensures
            r@ == self@,
    {
        match self {
            ProviderError::Transport { stage, detail } => ProviderError::Transport {
                stage: *stage,
                detail: detail.clone(),
            },
            ProviderError::Upstream { status, body } => ProviderError::Upstream {
                status: *status,
                body: body.clone(),
            },
            ProviderError::InvalidUtf8 => ProviderError::InvalidUtf8,
            ProviderError::MalformedJson { detail } => ProviderError::MalformedJson {
                detail: detail.clone(),
            },
            ProviderError::ChannelClosed => ProviderError::ChannelClosed,
            ProviderError::InvalidUrl { reference } => ProviderError::InvalidUrl {
                reference: reference.clone(),
            },
            ProviderError::InvalidHeader => ProviderError::InvalidHeader,
        }
    }
}

impl ProviderErrorView {
    /// The sentence that tells the user of this failure.
    pub open spec fn message(self) -> Seq<char> {
        match self {
            ProviderErrorView::Transport { stage, detail } => match stage {
                Stage::Start => "failed to start Gemini request: "@ + detail,
                Stage::Stream => "network stream error: "@ + detail,
            },
            ProviderErrorView::Upstream { status, body } => "Gemini API error: HTTP "@
                + status_line(status) + ": "@ + body,
            ProviderErrorView::InvalidUtf8 => "SSE line is not valid UTF-8"@,
            ProviderErrorView::MalformedJson { detail } => "failed to parse SSE JSON: "@ + detail,
            ProviderErrorView::ChannelClosed => "the consumer of the stream is gone"@,
            ProviderErrorView::InvalidUrl { reference } => "invalid URL: "@ + reference,
            ProviderErrorView::InvalidHeader => "failed to parse header value"@,
        }
    }
}

impl ProviderError {
    /// The sentence that tells the user of this failure.
    pub fn message(&self) -> (r: String)
        ensures
            r@ == self@.message(),
    {
        match self {
            ProviderError::Transport { stage, detail } => {
                let mut out = String::from_str(
                    match stage {
                        Stage::Start => "failed to start Gemini request: ",
                        Stage::Stream => "network stream error: ",
                    },
                );
                out.append(detail.as_str());
                out
            },
            ProviderError::Upstream { status, body } => {
                let mut out = String::from_str("Gemini API error: HTTP ");
                let shown = status_text(*status);
                out.append(shown.as_str());
                out.append(": ");
                out.append(body.as_str());
                out
            },
            ProviderError::InvalidUtf8 => String::from_str("SSE line is not valid UTF-8"),
            ProviderError::MalformedJson { detail } => {
                let mut out = String::from_str("failed to parse SSE JSON: ");
                out.append(detail.as_str());
                out
            },
            ProviderError::ChannelClosed => String::from_str("the consumer of the stream is gone"),
            ProviderError::InvalidUrl { reference } => {
                let mut out = String::from_str("invalid URL: ");
                out.append(reference.as_str());
                out
            },
            ProviderError::InvalidHeader => String::from_str("failed to parse header value"),
        }
    }
}

} // verus!
