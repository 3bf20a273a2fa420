//! Requests to a tool server and the answers that belong to them.
//!
//! Every request carries a number, and its answer carries the same. What
//! arrives in between, with another number or none, is not the answer.

use serde_json::Value;
use vstd::prelude::*;
use vstd::string::*;

use crate::mcp::stdio::FrameError;
use crate::text::signed_chars;
use crate::text::signed_text;

verus! {

/// The version of the protocol that the client speaks.
pub const PROTOCOL_VERSION: &'static str = "2024-11-05";

/// The method that opens the conversation with a server.
pub const INITIALIZE: &'static str = "initialize";

/// The method that asks a server for its tools.
pub const TOOLS_LIST: &'static str = "tools/list";

/// The version of JSON-RPC that is spoken.
pub const JSONRPC_VERSION: &'static str = "2.0";

/// The members of a JSON object that are whole numbers from zero to the
/// largest `u64`, by name. A value that is no object has none.
pub uninterp spec fn json_numbers(value: Value) -> Map<Seq<char>, u64>;

/// The names of the members of a JSON object. A value that is no object has none.
pub uninterp spec fn json_names(value: Value) -> Set<Seq<char>>;

/// What a JSON value holds of what is asked of it here: its members
/// that are numbers, and the names of all its members.
pub struct JsonMembers {
    pub numbers: Map<Seq<char>, u64>,
    pub names: Set<Seq<char>>,
}

/// A JSON value, seen through its members.
pub open spec fn members_of(value: Value) -> JsonMembers {
    JsonMembers { numbers: json_numbers(value), names: json_names(value) }
}

/// What bytes are when they are read as JSON: the members of the value
/// that they spell, or nothing where they spell none.
pub uninterp spec fn json_read(raw: Seq<u8>) -> Option<JsonMembers>;

/// Reads bytes as JSON.
///
/// Trusted: whether `serde_json::from_slice` makes a value of bytes, and
/// what that value holds, depends on the bytes alone.
#[verifier::external_body]
pub(crate) fn parse_json(raw: &[u8]) -> (r: Option<Value>)
    ensures
        r matches Some(value) ==> json_read(raw@) == Some(members_of(value)),
        r is None ==> json_read(raw@) is None,
{
    serde_json::from_slice::<Value>(raw).ok()
}

/// The member of the given name, where it is a number that fits `u64`.
///
/// Trusted: `Value::get` finds a member of an object by its name and
/// nothing in any other value; `Value::as_u64` gives the number that a
/// member is, where it is a whole number that fits.
#[verifier::external_body]
pub(crate) fn member_u64(value: &Value, name: &str) -> (r: Option<u64>)
    ensures
        r == if json_numbers(*value).contains_key(name@) {
            Some(json_numbers(*value)[name@])
        } else {
            None
        },
{
    match value.get(name) {
        Some(member) => member.as_u64(),
        None => None,
    }
}

/// Whether there is a member of the given name.
///
/// Trusted: `Value::get` finds a member of an object by its name and
/// nothing in any other value.
#[verifier::external_body]
pub(crate) fn has_member(value: &Value, name: &str) -> (r: bool)
    ensures
        r == json_names(*value).contains(name@),
{
    value.get(name).is_some()
}

/// The numbers of the requests of one conversation.
#[derive(Debug, PartialEq, Eq)]
pub struct RequestIds {
    next_id: u64,
}

impl RequestIds {
    /// The number of the next request.
    pub closed spec fn next(&self) -> u64 {
        self.next_id
    }

    /// The numbers of a new conversation: the first is one.
    pub fn new() -> (r: RequestIds)
        ensures
            r.next() == 1,
    {
        RequestIds { next_id: 1 }
    }

    /// Takes the number for one more request; `None` when the numbers have run out.
    pub fn take(&mut self) -> (r: Option<u64>)
        ensures
            old(self).next() < u64::MAX ==> r == Some(old(self).next()) && final(self).next()
                == old(self).next() + 1,
            old(self).next() == u64::MAX ==> r is None && final(self).next() == old(self).next(),
    {
        match self.next_id.checked_add(1) {
            Some(next) => {
                let id = self.next_id;
                self.next_id = next;
                Some(id)
            },
            None => None,
        }
    }
}

/// What a message is to the request that waits for its answer.
#[derive(Clone, Copy, Debug, PartialEq, Eq, Structural)]
pub enum ReplyKind {
    /// Not the answer: go on reading.
    Unrelated,
    /// The answer, and it reports an error.
    Failure,
    /// The answer, and it carries a result.
    Success,
}

/// What a message with the given members is to the request of number `id`.
pub open spec fn reply_kind_of(
    numbers: Map<Seq<char>, u64>,
    names: Set<Seq<char>>,
    id: u64,
) -> ReplyKind {
    if !(numbers.contains_key("id"@) && numbers["id"@] == id) {
        ReplyKind::Unrelated
    } else if names.contains("error"@) {
        ReplyKind::Failure
    } else {
        ReplyKind::Success
    }
}

/// Says what a message is to the request of number `id`: the answer is
/// the message whose `id` is that number, and it reports an error
/// where it has a member `error`.
pub fn reply_kind(value: &Value, id: u64) -> (r: ReplyKind)
    ensures
        r == reply_kind_of(json_numbers(*value), json_names(*value), id),
{
    match member_u64(value, "id") {
        Some(found) => {
            if found != id {
                return ReplyKind::Unrelated;
            }
        },
        None => {
            return ReplyKind::Unrelated;
        },
    }
    if has_member(value, "error") {
        ReplyKind::Failure
    } else {
        ReplyKind::Success
    }
}

/// A message, read and sorted.
#[derive(Debug, PartialEq, Eq)]
pub enum Reply {
    /// The message is not JSON.
    Invalid,
    /// The message is not the answer.
    Unrelated,
    /// The answer: an error, to be read from this value.
    Failure(Value),
    /// The answer: a result, to be read from this value.
    Success(Value),
}

/// A [`Reply`] with its value seen through its members.
pub enum ReplyView {
    Invalid,
    Unrelated,
    Failure(JsonMembers),
    Success(JsonMembers),
}

impl View for Reply {
    type V = ReplyView;

    open spec fn view(&self) -> ReplyView {
        match *self {
            Reply::Invalid => ReplyView::Invalid,
            Reply::Unrelated => ReplyView::Unrelated,
            Reply::Failure(value) => ReplyView::Failure(members_of(value)),
            Reply::Success(value) => ReplyView::Success(members_of(value)),
        }
    }
}

/// What the bytes of a message are to the request of number `id`:
/// bytes that are no JSON are invalid; any other message is sorted by
/// its members, and the answer is handed on.
pub open spec fn classified(raw: Seq<u8>, id: u64) -> ReplyView {
    match json_read(raw) {
        None => ReplyView::Invalid,
        Some(members) => match reply_kind_of(members.numbers, members.names, id) {
            ReplyKind::Unrelated => ReplyView::Unrelated,
            ReplyKind::Failure => ReplyView::Failure(members),
            ReplyKind::Success => ReplyView::Success(members),
        },
    }
}

/// Reads a message and says what it is to the request of number `id`.
pub fn classify(raw: &[u8], id: u64) -> (r: Reply)
    ensures
        r@ == classified(raw@, id),
{
    match parse_json(raw) {
        None => Reply::Invalid,
        Some(value) => match reply_kind(&value, id) {
            ReplyKind::Unrelated => Reply::Unrelated,
            ReplyKind::Failure => Reply::Failure(value),
            ReplyKind::Success => Reply::Success(value),
        },
    }
}

/// The steps by which the tools of a server are found out.
#[derive(Clone, Copy, Debug, PartialEq, Eq, Structural)]
pub enum DiscoveryStep {
    /// Open the conversation.
    Initialize,
    /// Ask for the tools.
    ListTools,
}

impl DiscoveryStep {
    /// The method of the request of this step.
    pub fn method(self) -> (r: &'static str)
        ensures
            r@ == match self {
                DiscoveryStep::Initialize => INITIALIZE@,
                DiscoveryStep::ListTools => TOOLS_LIST@,
            },
    {
        match self {
            DiscoveryStep::Initialize => INITIALIZE,
            DiscoveryStep::ListTools => TOOLS_LIST,
        }
    }

    /// How a failure of this step is announced.
    pub fn failure_context(self) -> (r: &'static str)
        ensures
            r@ == match self {
                DiscoveryStep::Initialize => "initialize failed"@,
                DiscoveryStep::ListTools => "tools/list failed"@,
            },
    {
        match self {
            DiscoveryStep::Initialize => "initialize failed",
            DiscoveryStep::ListTools => "tools/list failed",
        }
    }

    /// The step after this one; `None` after the last.
    pub fn next(self) -> (r: Option<DiscoveryStep>)
        ensures
            r == match self {
                DiscoveryStep::Initialize => Some(DiscoveryStep::ListTools),
                DiscoveryStep::ListTools => None::<DiscoveryStep>,
            },
    {
        match self {
            DiscoveryStep::Initialize => Some(DiscoveryStep::ListTools),
            DiscoveryStep::ListTools => None,
        }
    }
}

/// Why a request to a tool server failed.
#[derive(Debug, PartialEq, Eq)]
pub enum RpcError {
    /// The server has closed its output.
    Closed,
    /// A message could not be taken from the stream.
    Frame(FrameError),
    /// A message is not JSON.
    InvalidJson,
    /// The answer reports an error that cannot be read.
    InvalidErrorEnvelope { detail: String },
    /// The answer carries a result that cannot be read.
    InvalidOkEnvelope { detail: String },
    /// The server reports this error.
    Remote { code: i64, message: String },
    /// The numbers of requests have run out.
    OutOfIds,
}

/// A [`RpcError`] with its texts as sequences of characters.
pub enum RpcErrorView {
    Closed,
    Frame(FrameError),
    InvalidJson,
    InvalidErrorEnvelope { detail: Seq<char> },
    InvalidOkEnvelope { detail: Seq<char> },
    Remote { code: i64, message: Seq<char> },
    OutOfIds,
}

impl View for RpcError {
    type V = RpcErrorView;

    open spec fn view(&self) -> RpcErrorView {
        match *self {
            RpcError::Closed => RpcErrorView::Closed,
            RpcError::Frame(e) => RpcErrorView::Frame(e),
            RpcError::InvalidJson => RpcErrorView::InvalidJson,
            RpcError::InvalidErrorEnvelope { detail } => RpcErrorView::InvalidErrorEnvelope {
                detail: detail@,
            },
            RpcError::InvalidOkEnvelope { detail } => RpcErrorView::InvalidOkEnvelope {
                detail: detail@,
            },
            RpcError::Remote { code, message } => RpcErrorView::Remote { code, message: message@ },
            RpcError::OutOfIds => RpcErrorView::OutOfIds,
        }
    }
}

impl RpcErrorView {
    /// The sentence that tells the user of this failure.
    pub open spec fn message(self) -> Seq<char> {
        match self {
            RpcErrorView::Closed => "MCP server closed stdout"@,
            RpcErrorView::Frame(e) => match e {
                FrameError::HeaderTooLarge => "header too large"@,
                FrameError::HeaderNotText => "header not UTF-8"@,
                FrameError::BadContentLength => "bad Content-Length"@,
                FrameError::MissingContentLength => "missing Content-Length"@,
            },
            RpcErrorView::InvalidJson => "invalid JSON-RPC"@,
            RpcErrorView::InvalidErrorEnvelope { detail } => "invalid error envelope: "@ + detail,
            RpcErrorView::InvalidOkEnvelope { detail } => "invalid ok envelope: "@ + detail,
            RpcErrorView::Remote { code, message } => "MCP error "@ + signed_chars(code as int)
                + ": "@ + message,
            RpcErrorView::OutOfIds => "no request number is left"@,
        }
    }
}

impl RpcError {
    /// The sentence that tells the user of this failure.
    pub fn message(&self) -> (r: String)
        ensures
            r@ == self@.message(),
    {
        match self {
            RpcError::Closed => String::from_str("MCP server closed stdout"),
            RpcError::Frame(e) => String::from_str(e.message()),
            RpcError::InvalidJson => String::from_str("invalid JSON-RPC"),
            RpcError::InvalidErrorEnvelope { detail } => {
                let mut out = String::from_str("invalid error envelope: ");
                out.append(detail.as_str());
                out
            },
            RpcError::InvalidOkEnvelope { detail } => {
                let mut out = String::from_str("invalid ok envelope: ");
                out.append(detail.as_str());
                out
            },
            RpcError::Remote { code, message } => {
                let mut out = String::from_str("MCP error ");
                let number = signed_text(*code);
                out.append(number.as_str());
                out.append(": ");
                out.append(message.as_str());
                out
            },
            RpcError::OutOfIds => String::from_str("no request number is left"),
        }
    }
}

/// A message is the answer to at most one number: what answers the
/// request of one number is nothing to the request of another.
pub proof fn lemma_answer_belongs_to_one_request(
    numbers: Map<Seq<char>, u64>,
    names: Set<Seq<char>>,
    id: u64,
    other: u64,
)
    requires
        id != other,
        reply_kind_of(numbers, names, id) != ReplyKind::Unrelated,
    ensures
        reply_kind_of(numbers, names, other) == ReplyKind::Unrelated,
{
}

} // verus!
