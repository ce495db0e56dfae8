//! Wire codec for the bridge's fixed binary frame formats.
//!
//! Every message is one tag byte followed by a fixed or length-prefixed
//! payload. A string payload is a 4-byte little-endian byte count followed by
//! that many UTF-8 bytes; an identifier payload is an 8-byte little-endian
//! unsigned integer. The transport is a reliable ordered byte stream, so no
//! further message boundaries exist.

use vstd::bytes::{
    spec_u32_to_le_bytes, spec_u32_from_le_bytes, spec_u64_to_le_bytes, spec_u64_from_le_bytes,
    u32_from_le_bytes, u32_to_le_bytes, u64_from_le_bytes, u64_to_le_bytes,
};
use vstd::prelude::*;
use vstd::slice::{slice_subrange, slice_to_vec};
use vstd::utf8::{encode_utf8, valid_utf8};

verus! {

/// Tags of the responses the session sends to the peer.
#[derive(Debug, PartialEq, Eq, Structural)]
pub enum RustEventType {
    /// An error occurred; payload is one string giving the reason.
    Error,
    /// The session is closing; no payload. Final message of a session.
    Closing,
    /// A script threw; payload is three strings: name, message, stack.
    JsException,
    /// A script produced a value; payload is one handle identifier.
    JsValue,
}

/// Tags of the requests the peer sends to the session.
#[derive(Debug, PartialEq, Eq, Structural)]
pub enum PythonEventType {
    /// End the session; no payload.
    CloseIsolate,
    /// Run a script; payload is one string of source code.
    RunScript,
    /// Drop a previously returned value; payload is one handle identifier.
    DropValue,
    /// Reserved and unimplemented; never decoded, always rejected.
    Orchestrate,
}

/// The response-tag byte assignment.
pub open spec fn spec_response_tag(t: RustEventType) -> u8 {
    match t {
        RustEventType::Error => 0,
        RustEventType::Closing => 1,
        RustEventType::JsException => 2,
        RustEventType::JsValue => 3,
    }
}

/// The request tag a byte decodes to, if any. The reserved byte 3 and every
/// unassigned byte decode to nothing.
pub open spec fn spec_request_tag(x: u8) -> Option<PythonEventType> {
    if x == 0 {
        Some(PythonEventType::CloseIsolate)
    } else if x == 1 {
        Some(PythonEventType::RunScript)
    } else if x == 2 {
        Some(PythonEventType::DropValue)
    } else {
        None
    }
}

impl RustEventType {
    /// The response tag a byte decodes to, if any. Only the tags a peer
    /// implementation reads back are assigned here; `JsValue` frames are
    /// produced, never consumed, by this side.
    pub fn from_u8(x: u8) -> (r: Option<RustEventType>)
        ensures
            x == 0 ==> r == Some(RustEventType::Error),
            x == 1 ==> r == Some(RustEventType::Closing),
            x == 2 ==> r == Some(RustEventType::JsException),
            x >= 3 ==> r is None,
    {
        if x == 0 {
            Some(RustEventType::Error)
        } else if x == 1 {
            Some(RustEventType::Closing)
        } else if x == 2 {
            Some(RustEventType::JsException)
        } else {
            None
        }
    }
}

impl PythonEventType {
    /// The request tag a byte decodes to, if any.
    pub fn from_u8(x: u8) -> (r: Option<PythonEventType>)
        ensures
            r == spec_request_tag(x),
    {
        if x == 0 {
            Some(PythonEventType::CloseIsolate)
        } else if x == 1 {
            Some(PythonEventType::RunScript)
        } else if x == 2 {
            Some(PythonEventType::DropValue)
        } else {
            None
        }
    }
}

/// Protocol-level failures that desynchronize the stream.
#[derive(Debug, PartialEq, Eq, Structural)]
pub enum LocalSocketStreamError {
    /// The peer sent a request tag this side does not understand.
    UnknownEventType,
}

impl LocalSocketStreamError {
    /// Human-readable reason, suitable for an `Error` response payload.
    pub fn message(&self) -> (s: String)
        ensures
            s@ == "unknown event type"@,
    {
        "unknown event type".to_owned()
    }
}

/// A decoded request from the peer. An unknown tag decodes to `Errored`: the
/// stream is presumed desynchronized and the session must end after
/// reporting it.
#[derive(Debug, PartialEq, Eq)]
pub enum PythonEvent {
    Errored(LocalSocketStreamError),
    RunScript(String),
    DropValue(u64),
}

/// Why a buffer does not decode to a request.
#[derive(Debug, PartialEq, Eq, Structural)]
pub enum DecodeError {
    /// The buffer holds a proper prefix of a frame; more bytes are needed.
    Incomplete,
    /// The frame's string payload is not valid UTF-8.
    InvalidPayload,
}

/// Whether a string's UTF-8 encoding fits the 4-byte length prefix.
pub open spec fn string_payload_fits(s: Seq<char>) -> bool {
    encode_utf8(s).len() <= u32::MAX
}

/// A length-prefixed string payload: 4-byte little-endian byte count, then
/// the UTF-8 bytes.
pub open spec fn spec_string_payload(s: Seq<char>) -> Seq<u8> {
    spec_u32_to_le_bytes(encode_utf8(s).len() as u32) + encode_utf8(s)
}

/// An `Error` response frame.
pub open spec fn spec_error_frame(reason: Seq<char>) -> Seq<u8> {
    seq![spec_response_tag(RustEventType::Error)] + spec_string_payload(reason)
}

/// A `Closing` response frame.
pub open spec fn spec_closing_frame() -> Seq<u8> {
    seq![spec_response_tag(RustEventType::Closing)]
}

/// A `JsException` response frame: name, message and stack, in that order.
pub open spec fn spec_exception_frame(name: Seq<char>, message: Seq<char>, stack: Seq<char>) -> Seq<
    u8,
> {
    seq![spec_response_tag(RustEventType::JsException)] + spec_string_payload(name)
        + spec_string_payload(message) + spec_string_payload(stack)
}

/// A `JsValue` response frame carrying a handle identifier.
pub open spec fn spec_value_frame(id: u64) -> Seq<u8> {
    seq![spec_response_tag(RustEventType::JsValue)] + spec_u64_to_le_bytes(id)
}

/// Append a length-prefixed string payload, reporting whether the string's
/// byte length fits the 4-byte prefix; an unencodable string leaves the
/// buffer untouched.
fn push_string_payload(out: &mut Vec<u8>, s: &str) -> (ok: bool)
    ensures
        ok == string_payload_fits(s@),
        ok ==> final(out)@ == old(out)@ + spec_string_payload(s@),
        !ok ==> final(out)@ == old(out)@,
{
    let bytes = s.as_bytes();
    if bytes.len() > u32::MAX as usize {
        return false;
    }
    let mut len_bytes = u32_to_le_bytes(bytes.len() as u32);
    out.append(&mut len_bytes);
    let mut data = slice_to_vec(bytes);
    out.append(&mut data);
    assert(final(out)@ =~= old(out)@ + spec_string_payload(s@));
    true
}

/// Encode an `Error` response. Yields `None` exactly when the reason's
/// UTF-8 form does not fit the 4-byte length prefix.
pub fn encode_error(reason: &str) -> (r: Option<Vec<u8>>)
    ensures
        r is Some <==> string_payload_fits(reason@),
        r matches Some(frame) ==> frame@ == spec_error_frame(reason@),
{
    let mut out: Vec<u8> = Vec::new();
    out.push(0u8);
    if push_string_payload(&mut out, reason) {
        assert(out@ =~= spec_error_frame(reason@));
        Some(out)
    } else {
        None
    }
}

/// Encode the `Closing` response, the session's final message.
pub fn encode_closing() -> (r: Vec<u8>)
    ensures
        r@ == spec_closing_frame(),
{
    let mut out: Vec<u8> = Vec::new();
    out.push(1u8);
    assert(out@ =~= spec_closing_frame());
    out
}

/// Encode a `JsException` response from the marshaled exception fields.
/// Yields `None` exactly when some field's UTF-8 form does not fit its
/// 4-byte length prefix.
pub fn encode_js_exception(name: &str, message: &str, stack: &str) -> (r: Option<Vec<u8>>)
    ensures
        r is Some <==> string_payload_fits(name@) && string_payload_fits(message@)
            && string_payload_fits(stack@),
        r matches Some(frame) ==> frame@ == spec_exception_frame(name@, message@, stack@),
{
    let mut out: Vec<u8> = Vec::new();
    out.push(2u8);
    if !push_string_payload(&mut out, name) {
        return None;
    }
    if !push_string_payload(&mut out, message) {
        return None;
    }
    if !push_string_payload(&mut out, stack) {
        return None;
    }
    assert(out@ =~= spec_exception_frame(name@, message@, stack@));
    Some(out)
}

/// Encode a `JsValue` response carrying a freshly allocated identifier.
pub fn encode_js_value_id(id: u64) -> (r: Vec<u8>)
    ensures
        r@ == spec_value_frame(id),
{
    let mut out: Vec<u8> = Vec::new();
    out.push(3u8);
    let mut id_bytes = u64_to_le_bytes(id);
    out.append(&mut id_bytes);
    assert(out@ =~= spec_value_frame(id));
    out
}

/// Relies on `String::from_utf8`: it succeeds exactly on valid UTF-8 input,
/// and the returned string's byte encoding is the input, unchanged.
#[verifier::external_body]
fn bytes_to_string(bytes: Vec<u8>) -> (r: Option<String>)
    ensures
        r is Some <==> valid_utf8(bytes@),
        r matches Some(s) ==> encode_utf8(s@) == bytes@,
{
    String::from_utf8(bytes).ok()
}

/// Decode one request frame from the front of `buf`.
///
/// On success the result carries the decoded event — `None` standing for
/// `CloseIsolate`, which carries no data — and the number of bytes consumed.
/// An unassigned tag byte decodes to `Errored(UnknownEventType)` so the
/// session can report it before ending. `Incomplete` means `buf` holds a
/// proper prefix of a frame; `InvalidPayload` means the string payload is
/// not valid UTF-8.
pub fn decode_request(buf: &[u8]) -> (r: Result<(Option<PythonEvent>, usize), DecodeError>)
    ensures
        match r {
            Ok((ev, n)) => {
                &&& 1 <= n <= buf@.len()
                &&& match ev {
                    None => buf@[0] == 0 && n == 1,
                    Some(PythonEvent::Errored(e)) => e is UnknownEventType && buf@[0] >= 3 && n
                        == 1,
                    Some(PythonEvent::RunScript(s)) => {
                        &&& buf@[0] == 1
                        &&& buf@.len() >= 5
                        &&& n == 5 + spec_u32_from_le_bytes(buf@.subrange(1, 5))
                        &&& valid_utf8(buf@.subrange(5, n as int))
                        &&& encode_utf8(s@) == buf@.subrange(5, n as int)
                    },
                    Some(PythonEvent::DropValue(id)) => buf@[0] == 2 && n == 9 && id
                        == spec_u64_from_le_bytes(buf@.subrange(1, 9)),
                }
            },
            Err(DecodeError::Incomplete) => {
                ||| buf@.len() == 0
                ||| buf@[0] == 1 && buf@.len() < 5
                ||| buf@[0] == 1 && buf@.len() >= 5 && buf@.len() < 5 + spec_u32_from_le_bytes(
                    buf@.subrange(1, 5),
                )
                ||| buf@[0] == 2 && buf@.len() < 9
            },
            Err(DecodeError::InvalidPayload) => {
                &&& buf@[0] == 1
                &&& buf@.len() >= 5 + spec_u32_from_le_bytes(buf@.subrange(1, 5))
                &&& !valid_utf8(
                    buf@.subrange(5, 5 + spec_u32_from_le_bytes(buf@.subrange(1, 5)) as int),
                )
            },
        },
{
    if buf.len() == 0 {
        return Err(DecodeError::Incomplete);
    }
    let tag = buf[0];
    if tag == 0 {
        Ok((None, 1))
    } else if tag == 1 {
        if buf.len() < 5 {
            return Err(DecodeError::Incomplete);
        }
        let len = u32_from_le_bytes(slice_subrange(buf, 1, 5)) as usize;
        if buf.len() - 5 < len {
            return Err(DecodeError::Incomplete);
        }
        let n = 5 + len;
        let payload = slice_to_vec(slice_subrange(buf, 5, n));
        match bytes_to_string(payload) {
            Some(s) => Ok((Some(PythonEvent::RunScript(s)), n)),
            None => Err(DecodeError::InvalidPayload),
        }
    } else if tag == 2 {
        if buf.len() < 9 {
            return Err(DecodeError::Incomplete);
        }
        let id = u64_from_le_bytes(slice_subrange(buf, 1, 9));
        Ok((Some(PythonEvent::DropValue(id)), 9))
    } else {
        Ok((Some(PythonEvent::Errored(LocalSocketStreamError::UnknownEventType)), 1))
    }
}

} // verus!
