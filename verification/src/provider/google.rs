//! The hosted service: where its streaming endpoint is, how a request to
//! it is made up, and what in its answers is text.

use reqwest::header::HeaderMap;
use reqwest::header::HeaderValue;
use vstd::prelude::*;
use vstd::string::*;
use vstd::utf8::*;

use crate::provider::types::ProviderError;
use crate::provider::types::ProviderErrorView;
use crate::text::byte_len;
use crate::text::opt_text;
use crate::web::append_query_pair;
use crate::web::header_lines;
use crate::web::header_map_insert;
use crate::web::header_map_new;
use crate::web::header_value_ok;
use crate::web::join_url;
use crate::web::no_header_lines;
use crate::web::normalize_url;
use crate::web::url_joined;
use crate::web::url_normalized;
use crate::web::url_with_pair;
use crate::web::HeaderField;
use crate::web::URL_PART_MAX;

verus! {

/// The root of the service's API.
pub const GOOGLE_API_BASE: &'static str = "https://generativelanguage.googleapis.com/";

/// How many chunks may wait between the network and the consumer.
pub const GOOGLE_QUEUE_CAPACITY: usize = 64;

/// How a request proves who sends it. It is one or the other, never both.
#[derive(Debug, PartialEq, Eq)]
pub enum GoogleAuth {
    /// A long-lived key, sent in the query of the URL.
    ApiKey(String),
    /// A bearer token, sent in the `Authorization` header.
    BearerToken(String),
}

/// A [`GoogleAuth`] with its text as a sequence of characters.
pub enum GoogleAuthView {
    ApiKey(Seq<char>),
    BearerToken(Seq<char>),
}

impl View for GoogleAuth {
    type V = GoogleAuthView;

    open spec fn view(&self) -> GoogleAuthView {
        match *self {
            GoogleAuth::ApiKey(key) => GoogleAuthView::ApiKey(key@),
            GoogleAuth::BearerToken(token) => GoogleAuthView::BearerToken(token@),
        }
    }
}

impl Clone for GoogleAuth {
    fn clone(&self) -> (r: GoogleAuth)
        ensures
            r@ == self@,
    {
        match self {
            GoogleAuth::ApiKey(key) => GoogleAuth::ApiKey(key.clone()),
            GoogleAuth::BearerToken(token) => GoogleAuth::BearerToken(token.clone()),
        }
    }
}

/// One part of a content: text, or something that is not text.
#[derive(Debug, PartialEq, Eq)]
pub struct Part {
    pub text: Option<String>,
}

/// What one side of the conversation said.
#[derive(Debug, PartialEq, Eq)]
pub struct Content {
    pub role: Option<String>,
    pub parts: Vec<Part>,
}

/// One answer that the model proposes.
#[derive(Debug, PartialEq, Eq)]
pub struct Candidate {
    pub content: Option<Content>,
}

/// The body of a request to the streaming endpoint.
#[derive(Debug, PartialEq, Eq)]
pub struct StreamGenerateContentRequest {
    pub contents: Vec<Content>,
}

/// One event of the answer of the streaming endpoint.
#[derive(Debug, PartialEq, Eq)]
pub struct StreamGenerateContentResponse {
    pub candidates: Vec<Candidate>,
}

/// A [`Content`] with its texts as sequences of characters.
pub struct ContentView {
    pub role: Option<Seq<char>>,
    pub parts: Seq<Option<Seq<char>>>,
}

impl View for Part {
    type V = Option<Seq<char>>;

    open spec fn view(&self) -> Option<Seq<char>> {
        opt_text(self.text)
    }
}

impl View for Content {
    type V = ContentView;

    open spec fn view(&self) -> ContentView {
        ContentView {
            role: opt_text(self.role),
            parts: Seq::new(self.parts@.len(), |i: int| self.parts@[i]@),
        }
    }
}

impl View for Candidate {
    type V = Option<ContentView>;

    open spec fn view(&self) -> Option<ContentView> {
        match self.content {
            Some(content) => Some(content@),
            None => None,
        }
    }
}

impl View for StreamGenerateContentRequest {
    type V = Seq<ContentView>;

    open spec fn view(&self) -> Seq<ContentView> {
        Seq::new(self.contents@.len(), |i: int| self.contents@[i]@)
    }
}

impl View for StreamGenerateContentResponse {
    type V = Seq<Option<ContentView>>;

    open spec fn view(&self) -> Seq<Option<ContentView>> {
        Seq::new(self.candidates@.len(), |i: int| self.candidates@[i]@)
    }
}

/// The texts of `parts`, one after another; a part without text adds nothing.
pub open spec fn parts_text(parts: Seq<Option<Seq<char>>>) -> Seq<char>
    decreases parts.len(),
{
    if parts.len() == 0 {
        Seq::empty()
    } else {
        parts_text(parts.drop_last()) + match parts.last() {
            Some(text) => text,
            None => Seq::empty(),
        }
    }
}

/// The text of an event: all the text of its first candidate, or `None`
/// where there is no candidate, no content, or no text at all.
pub open spec fn extracted_text(response: Seq<Option<ContentView>>) -> Option<Seq<char>> {
    if response.len() == 0 {
        None
    } else {
        match response[0] {
            None => None,
            Some(content) => if parts_text(content.parts).len() == 0 {
                None
            } else {
                Some(parts_text(content.parts))
            },
        }
    }
}

/// The body that asks `prompt` of the model: one content, said by the
/// user, of one part.
pub open spec fn prompt_body(prompt: Seq<char>) -> Seq<ContentView> {
    seq![ContentView { role: Some("user"@), parts: seq![Some(prompt)] }]
}

/// Makes the body of a request from a prompt.
pub fn request_body(prompt: String) -> (r: StreamGenerateContentRequest)
    ensures
        r@ == prompt_body(prompt@),
{
    let mut parts: Vec<Part> = Vec::new();
    parts.push(Part { text: Some(prompt) });
    let content = Content { role: Some(String::from_str("user")), parts };
    assert(content@.parts =~= seq![Some(prompt@)]);
    let mut contents: Vec<Content> = Vec::new();
    contents.push(content);
    let body = StreamGenerateContentRequest { contents };
    assert(body@ =~= prompt_body(prompt@));
    body
}

/// Gathers the text of an event: the text parts of its first candidate,
/// one after another. An event without text gives `None`, never an empty text.
pub fn extract_text(response: &StreamGenerateContentResponse) -> (r: Option<String>)
    ensures
        opt_text(r) == extracted_text(response@),
{
    if response.candidates.len() == 0 {
        return None;
    }
    let content = match &response.candidates[0].content {
        Some(content) => content,
        None => {
            return None;
        },
    };
    let mut out = String::new();
    let mut i: usize = 0;
    while i < content.parts.len()
        invariant
            i <= content.parts@.len(),
            out@ == parts_text(content@.parts.take(i as int)),
        decreases content.parts@.len() - i,
    {
        assert(content@.parts.take(i as int + 1).drop_last() =~= content@.parts.take(i as int));
        match &content.parts[i].text {
            Some(text) => {
                out.append(text.as_str());
            },
            None => {
                assert(out@ + Seq::<char>::empty() =~= out@);
            },
        }
        i += 1;
    }
    assert(content@.parts.take(content.parts@.len() as int) =~= content@.parts);
    if out.as_str().is_empty() {
        None
    } else {
        Some(out)
    }
}

/// The text of a candidate with the two text parts `x` and `y` is `x`
/// followed by `y`; a candidate without parts has no text, and gives
/// no chunk.
pub proof fn lemma_two_parts_concatenate(role: Option<Seq<char>>, x: Seq<char>, y: Seq<char>)
    ensures
        x.len() + y.len() > 0 ==> extracted_text(
            seq![Some(ContentView { role, parts: seq![Some(x), Some(y)] })],
        ) == Some(x + y),
        extracted_text(seq![Some(ContentView { role, parts: Seq::empty() })]) is None,
{
    let parts = seq![Some(x), Some(y)];
    assert(parts.drop_last() =~= seq![Some(x)]);
    assert(parts.drop_last().drop_last() =~= Seq::<Option<Seq<char>>>::empty());
    assert(parts_text(parts.drop_last()) =~= x);
    assert(parts_text(parts) =~= x + y);
}

/// An event that has text has some: what is extracted is never empty.
pub proof fn lemma_extracted_text_is_not_empty(response: Seq<Option<ContentView>>)
    ensures
        extracted_text(response) matches Some(text) ==> text.len() > 0,
{
}

/// Only the first candidate counts: the others change nothing.
pub proof fn lemma_first_candidate_only(
    response: Seq<Option<ContentView>>,
    other: Seq<Option<ContentView>>,
)
    requires
        response.len() > 0,
        other.len() > 0,
        response[0] == other[0],
    ensures
        extracted_text(response) == extracted_text(other),
{
}

/// The text of two runs of parts is the text of the first followed by
/// the text of the second.
pub proof fn lemma_parts_text_concat(a: Seq<Option<Seq<char>>>, b: Seq<Option<Seq<char>>>)
    ensures
        parts_text(a + b) == parts_text(a) + parts_text(b),
    decreases b.len(),
{
    if b.len() == 0 {
        assert(a + b =~= a);
        assert(parts_text(a) + Seq::<char>::empty() =~= parts_text(a));
    } else {
        assert((a + b).drop_last() =~= a + b.drop_last());
        lemma_parts_text_concat(a, b.drop_last());
        let last = match b.last() {
            Some(text) => text,
            None => Seq::empty(),
        };
        assert((parts_text(a) + parts_text(b.drop_last())) + last =~= parts_text(a) + (parts_text(
            b.drop_last(),
        ) + last));
    }
}

/// Whether a text is short enough to be a URL, or to be added to one.
pub open spec fn fits_url(text: Seq<char>) -> bool {
    encode_utf8(text).len() <= URL_PART_MAX
}

/// `url` with one more name and value in its query, where there is a URL
/// and both it and the value are of a size that a URL can take.
pub open spec fn with_pair(url: Option<Seq<char>>, name: Seq<char>, value: Seq<char>) -> Option<
    Seq<char>,
> {
    match url {
        Some(u) => if fits_url(u) && fits_url(value) {
            url_with_pair(u, name, value)
        } else {
            None
        },
        None => None,
    }
}

/// The path of a model's streaming endpoint below the API's root.
pub open spec fn stream_path(model: Seq<char>) -> Seq<char> {
    "v1beta/models/"@ + model + ":streamGenerateContent"@
}

/// The URL to which a request for `model` goes: the model's streaming
/// endpoint, with the key in the query where a key is used, and with
/// `alt=sse` at the end, which asks for an event stream.
pub open spec fn stream_url(base: Seq<char>, auth: GoogleAuthView, model: Seq<char>) -> Option<
    Seq<char>,
> {
    let endpoint = url_joined(base, stream_path(model));
    let keyed = match auth {
        GoogleAuthView::ApiKey(key) => with_pair(endpoint, "key"@, key),
        GoogleAuthView::BearerToken(_) => endpoint,
    };
    with_pair(keyed, "alt"@, "sse"@)
}

/// The value of the `Authorization` header for a bearer token.
pub open spec fn bearer_value(token: Seq<char>) -> Seq<char> {
    "Bearer "@ + token
}

/// The headers of a request: the content type, and the bearer token where
/// one is used. `None` where the token cannot stand in a header.
pub open spec fn request_headers(auth: GoogleAuthView) -> Option<Map<Seq<char>, Seq<Seq<u8>>>> {
    let plain = no_header_lines().insert(
        HeaderField::ContentType.name(),
        seq![encode_utf8("application/json"@)],
    );
    match auth {
        GoogleAuthView::ApiKey(_) => Some(plain),
        GoogleAuthView::BearerToken(token) => if header_value_ok(
            encode_utf8(bearer_value(token)),
        ) {
            Some(
                plain.insert(
                    HeaderField::Authorization.name(),
                    seq![encode_utf8(bearer_value(token))],
                ),
            )
        } else {
            None
        },
    }
}

/// A short text of plain letters is as many bytes as it has characters,
/// each the character's code.
proof fn lemma_ascii_bytes(text: Seq<char>)
    requires
        is_ascii_chars(text),
    ensures
        encode_utf8(text) == Seq::new(text.len(), |i: int| text[i] as u8),
{
    is_ascii_chars_encode_utf8(text);
}

/// The hosted service, reached with one kind of credential.
#[derive(Debug, PartialEq, Eq)]
pub struct GoogleProvider {
    auth: GoogleAuth,
    api_base: String,
}

impl GoogleProvider {
    /// The credential that requests carry.
    pub closed spec fn auth(&self) -> GoogleAuthView {
        self.auth@
    }

    /// The root of the API, a URL in normal form.
    pub closed spec fn api_base(&self) -> Seq<char> {
        self.api_base@
    }

    /// A provider that sends `auth` with its requests.
    pub fn new(auth: GoogleAuth) -> (r: Result<GoogleProvider, ProviderError>)
        ensures
            match r {
                Ok(provider) => provider.auth() == auth@ && url_normalized(GOOGLE_API_BASE@)
                    == Some(provider.api_base()),
                Err(e) => url_normalized(GOOGLE_API_BASE@) is None && e@
                    == (ProviderErrorView::InvalidUrl { reference: GOOGLE_API_BASE@ }),
            },
    {
        match normalize_url(GOOGLE_API_BASE) {
            Some(api_base) => Ok(GoogleProvider { auth, api_base }),
            None => Err(ProviderError::InvalidUrl { reference: String::from_str(GOOGLE_API_BASE) }),
        }
    }

    /// The provider's name.
    pub fn name(&self) -> (r: &'static str)
        ensures
            r@ == "google"@,
    {
        "google"
    }

    /// The URL to which a request for `model` goes.
    pub fn build_url(&self, model: &str) -> (r: Result<String, ProviderError>)
        ensures
            match r {
                Ok(url) => stream_url(self.api_base(), self.auth(), model@) == Some(url@),
                Err(e) => stream_url(self.api_base(), self.auth(), model@) is None && e@
                    == (ProviderErrorView::InvalidUrl { reference: stream_path(model@) }),
            },
    {
        let mut path = String::from_str("v1beta/models/");
        path.append(model);
        path.append(":streamGenerateContent");
        let endpoint = match join_url(self.api_base.as_str(), path.as_str()) {
            Some(url) => url,
            None => {
                return Err(ProviderError::InvalidUrl { reference: path });
            },
        };
        proof {
            reveal_strlit("key");
            reveal_strlit("alt");
            reveal_strlit("sse");
            lemma_ascii_bytes("key"@);
            lemma_ascii_bytes("alt"@);
            lemma_ascii_bytes("sse"@);
        }
        let keyed = match &self.auth {
            GoogleAuth::ApiKey(key) => {
                if byte_len(endpoint.as_str()) > URL_PART_MAX || byte_len(key.as_str()) > URL_PART_MAX {
                    return Err(ProviderError::InvalidUrl { reference: path });
                }
                match append_query_pair(endpoint.as_str(), "key", key.as_str()) {
                    Some(url) => url,
                    None => {
                        return Err(ProviderError::InvalidUrl { reference: path });
                    },
                }
            },
            GoogleAuth::BearerToken(_) => endpoint,
        };
        if byte_len(keyed.as_str()) > URL_PART_MAX {
            return Err(ProviderError::InvalidUrl { reference: path });
        }
        match append_query_pair(keyed.as_str(), "alt", "sse") {
            Some(url) => Ok(url),
            None => Err(ProviderError::InvalidUrl { reference: path }),
        }
    }

    /// The headers of a request.
    pub fn headers(&self) -> (r: Result<HeaderMap<HeaderValue>, ProviderError>)
        ensures
            match r {
                Ok(map) => request_headers(self.auth()) == Some(header_lines(map)),
                Err(e) => request_headers(self.auth()) is None && e@
                    == ProviderErrorView::InvalidHeader,
            },
    {
        let mut map = header_map_new();
        proof {
            reveal_strlit("application/json");
            lemma_ascii_bytes("application/json"@);
        }
        let typed = header_map_insert(&mut map, HeaderField::ContentType, "application/json");
        assert(typed);
        match &self.auth {
            GoogleAuth::ApiKey(_) => Ok(map),
            GoogleAuth::BearerToken(token) => {
                let mut value = String::from_str("Bearer ");
                value.append(token.as_str());
                if header_map_insert(&mut map, HeaderField::Authorization, value.as_str()) {
                    Ok(map)
                } else {
                    Err(ProviderError::InvalidHeader)
                }
            },
        }
    }
}

} // verus!
