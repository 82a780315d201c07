//! Messages of the bridge between the app and the Android host. A message
//! travels as JSON wrapped in standard base64; the JSON itself is written and
//! read outside this library, which checks the messages and does the base64
//! framing.
use vstd::prelude::*;

use base64::engine::general_purpose::STANDARD;
use base64::Engine;

use crate::text::{
    chars_of, decimal, push_decimal, push_str, string_from_chars, trim, trimmed_chars,
};

verus! {

/// The bridge protocol version that this library speaks.
pub const PROTOCOL_VERSION: u8 = 1;

#[verifier::external_type_specification]
#[verifier::external_body]
pub struct ExDecodeError(base64::DecodeError);

#[verifier::external_type_specification]
#[verifier::external_body]
pub struct ExJsonError(serde_json::Error);

/// What standard base64 (RFC 4648 alphabet, `=` padding) makes of bytes.
pub uninterp spec fn base64_encoding(bytes: Seq<u8>) -> Seq<char>;

/// The bytes that a text decodes to under standard base64, if it is valid.
pub uninterp spec fn base64_decoding(text: Seq<char>) -> Option<Seq<u8>>;

/// A character of the standard base64 alphabet, or the `=` padding.
pub open spec fn is_base64_char(c: char) -> bool {
    ||| ('A' <= c && c <= 'Z')
    ||| ('a' <= c && c <= 'z')
    ||| ('0' <= c && c <= '9')
    ||| c == '+'
    ||| c == '/'
    ||| c == '='
}

/// `STANDARD.encode`: the encoding is made of the alphabet and `=` only, and
/// decoding it gives the bytes back.
#[verifier::external_body]
fn encode_base64(bytes: &[u8]) -> (r: String)
    requires
        bytes@.len() <= (usize::MAX / 4) * 3,
    ensures
        r@ == base64_encoding(bytes@),
        base64_decoding(r@) == Some(bytes@),
        forall|i: int| 0 <= i < r@.len() ==> is_base64_char(#[trigger] r@[i]),
{
    STANDARD.encode(bytes)
}

/// `STANDARD.decode` of a text's bytes.
#[verifier::external_body]
fn decode_base64(text: &str) -> (r: Result<Vec<u8>, base64::DecodeError>)
    ensures
        match r {
            Ok(v) => base64_decoding(text@) == Some(v@),
            Err(_) => base64_decoding(text@) is None,
        },
{
    STANDARD.decode(text)
}

/// Standard base64 of bytes that travel inside a message.
pub fn encode_payload(bytes: &[u8]) -> (r: String)
    requires
        bytes@.len() <= (usize::MAX / 4) * 3,
    ensures
        r@ == base64_encoding(bytes@),
        base64_decoding(r@) == Some(bytes@),
{
    encode_base64(bytes)
}

/// A request from the app to the Android host.
#[derive(Debug, Clone, PartialEq, Eq)]
pub struct NativeRequest {
    pub version: u8,
    pub request_id: String,
    pub operation: NativeOperation,
}

/// What the app asks the host to do.
#[derive(Debug, Clone, PartialEq, Eq)]
pub enum NativeOperation {
    AppDataDirectory,
    PickDocument { prefer_downloads: bool },
    CreateDocument { file_name: String, mime_type: String, content_base64: String },
    ReadTextDocument { uri: String },
    OpenDocument { uri: String, mime_type: Option<String> },
    OpenUrl { url: String },
    ReleaseReadPermission { uri: String },
}

/// The host's answer to a request.
#[derive(Debug, Clone, PartialEq, Eq)]
pub struct NativeResponse {
    pub version: u8,
    pub request_id: String,
    pub result: NativeResult,
}

/// The outcome that the host reports.
#[derive(Debug, Clone, PartialEq, Eq)]
pub enum NativeResult {
    AppDataDirectory { path: String },
    DocumentSelected { uri: String, display_name: Option<String>, mime_type: Option<String> },
    TextDocument { content: String },
    Cancelled,
    Completed,
    Error { code: String, message: String },
}

/// Why a bridge message was refused.
#[derive(Debug)]
pub enum ProtocolError {
    UnsupportedVersion(u8),
    MissingRequestId,
    RequestIdMismatch { expected: String, actual: String },
    Json(serde_json::Error),
    Base64(base64::DecodeError),
}

/// The error a request's version and id give, if any.
pub open spec fn request_problem(version: u8, request_id: Seq<char>) -> Option<ProtocolErrorKind> {
    if version != PROTOCOL_VERSION {
        Some(ProtocolErrorKind::UnsupportedVersion(version))
    } else if trim(request_id).len() == 0 {
        Some(ProtocolErrorKind::MissingRequestId)
    } else {
        None
    }
}

/// The refusals of `ProtocolError` that carry plain values.
pub enum ProtocolErrorKind {
    UnsupportedVersion(u8),
    MissingRequestId,
    RequestIdMismatch { expected: Seq<char>, actual: Seq<char> },
    Json,
    Base64,
}

impl ProtocolError {
    /// The refusal without its outside details.
    pub open spec fn kind(&self) -> ProtocolErrorKind {
        match self {
            ProtocolError::UnsupportedVersion(v) => ProtocolErrorKind::UnsupportedVersion(*v),
            ProtocolError::MissingRequestId => ProtocolErrorKind::MissingRequestId,
            ProtocolError::RequestIdMismatch { expected, actual } =>
                ProtocolErrorKind::RequestIdMismatch { expected: expected@, actual: actual@ },
            ProtocolError::Json(_) => ProtocolErrorKind::Json,
            ProtocolError::Base64(_) => ProtocolErrorKind::Base64,
        }
    }

    /// The text that the error reads as; the JSON and base64 errors add the
    /// text of the outside error after their prefix.
    pub fn message(&self) -> (r: String)
        ensures
            match self.kind() {
                ProtocolErrorKind::UnsupportedVersion(v) => r@
                    == "unsupported native bridge protocol version "@ + decimal(v as nat),
                ProtocolErrorKind::MissingRequestId => r@
                    == "native bridge request ID cannot be blank"@,
                ProtocolErrorKind::RequestIdMismatch { expected, actual } => r@
                    == "native bridge request ID mismatch: expected "@ + expected
                    + ", received "@ + actual,
                ProtocolErrorKind::Json => "invalid native bridge JSON: "@.is_prefix_of(r@),
                ProtocolErrorKind::Base64 => "invalid native bridge base64 payload: "@.is_prefix_of(
                    r@,
                ),
            },
    {
        let mut out: Vec<char> = Vec::new();
        match self {
            ProtocolError::UnsupportedVersion(v) => {
                push_str(&mut out, "unsupported native bridge protocol version ");
                push_decimal(&mut out, *v as u64);
            },
            ProtocolError::MissingRequestId => {
                push_str(&mut out, "native bridge request ID cannot be blank");
            },
            ProtocolError::RequestIdMismatch { expected, actual } => {
                push_str(&mut out, "native bridge request ID mismatch: expected ");
                push_str(&mut out, expected.as_str());
                push_str(&mut out, ", received ");
                push_str(&mut out, actual.as_str());
            },
            ProtocolError::Json(e) => {
                push_str(&mut out, "invalid native bridge JSON: ");
                let ghost prefix = out@;
                push_str(&mut out, json_error_text(e).as_str());
                assert(prefix.is_prefix_of(out@)) by {
                    assert(out@.subrange(0, prefix.len() as int) =~= prefix);
                }
            },
            ProtocolError::Base64(e) => {
                push_str(&mut out, "invalid native bridge base64 payload: ");
                let ghost prefix = out@;
                push_str(&mut out, decode_error_text(e).as_str());
                assert(prefix.is_prefix_of(out@)) by {
                    assert(out@.subrange(0, prefix.len() as int) =~= prefix);
                }
            },
        }
        string_from_chars(out.as_slice())
    }
}

/// The `Display` text of a JSON error.
#[verifier::external_body]
fn json_error_text(e: &serde_json::Error) -> String {
    format!("{e}")
}

/// The `Display` text of a base64 error.
#[verifier::external_body]
fn decode_error_text(e: &base64::DecodeError) -> String {
    format!("{e}")
}

impl NativeRequest {
    /// A request of the current protocol version.
    pub fn new(request_id: String, operation: NativeOperation) -> (r: Self)
        ensures
            r.version == PROTOCOL_VERSION,
            r.request_id == request_id,
            r.operation == operation,
    {
        NativeRequest { version: PROTOCOL_VERSION, request_id, operation }
    }

    /// Refuses another protocol version, then a blank request id.
    pub fn validate(&self) -> (r: Result<(), ProtocolError>)
        ensures
            match r {
                Ok(()) => request_problem(self.version, self.request_id@) is None,
                Err(e) => request_problem(self.version, self.request_id@) == Some(e.kind()),
            },
    {
        if self.version != PROTOCOL_VERSION {
            return Err(ProtocolError::UnsupportedVersion(self.version));
        }
        let id = trimmed_chars(self.request_id.as_str());
        if id.len() == 0 {
            return Err(ProtocolError::MissingRequestId);
        }
        Ok(())
    }
}

impl NativeResponse {
    /// A response of the current protocol version.
    pub fn success(request_id: String, result: NativeResult) -> (r: Self)
        ensures
            r.version == PROTOCOL_VERSION,
            r.request_id == request_id,
            r.result == result,
    {
        NativeResponse { version: PROTOCOL_VERSION, request_id, result }
    }

    /// Refuses another protocol version, then a response to another request.
    pub fn validate_for(&self, request: &NativeRequest) -> (r: Result<(), ProtocolError>)
        ensures
            match r {
                Ok(()) => self.version == PROTOCOL_VERSION && self.request_id@
                    == request.request_id@,
                Err(e) => if self.version != PROTOCOL_VERSION {
                    e.kind() == ProtocolErrorKind::UnsupportedVersion(self.version)
                } else {
                    self.request_id@ != request.request_id@ && e.kind()
                        == (ProtocolErrorKind::RequestIdMismatch {
                        expected: request.request_id@,
                        actual: self.request_id@,
                    })
                },
            },
    {
        if self.version != PROTOCOL_VERSION {
            return Err(ProtocolError::UnsupportedVersion(self.version));
        }
        if !(self.request_id == request.request_id) {
            return Err(
                ProtocolError::RequestIdMismatch {
                    expected: request.request_id.clone(),
                    actual: self.request_id.clone(),
                },
            );
        }
        Ok(())
    }
}

/// Frames the JSON of a request for the bridge: the request is checked
/// first, then the JSON bytes are base64-encoded.
pub fn frame_request(request: &NativeRequest, json: &[u8]) -> (r: Result<String, ProtocolError>)
    requires
        json@.len() <= (usize::MAX / 4) * 3,
    ensures
        match r {
            Ok(text) => request_problem(request.version, request.request_id@) is None && text@
                == base64_encoding(json@) && base64_decoding(text@) == Some(json@) && forall|
                i: int,
            | 0 <= i < text@.len() ==> is_base64_char(#[trigger] text@[i]),
            Err(e) => request_problem(request.version, request.request_id@) == Some(e.kind()),
        },
{
    request.validate()?;
    Ok(encode_base64(json))
}

/// Frames the JSON of a response; only the current version is sent.
pub fn frame_response(response: &NativeResponse, json: &[u8]) -> (r: Result<String, ProtocolError>)
    requires
        json@.len() <= (usize::MAX / 4) * 3,
    ensures
        match r {
            Ok(text) => response.version == PROTOCOL_VERSION && text@ == base64_encoding(json@)
                && base64_decoding(text@) == Some(json@),
            Err(e) => response.version != PROTOCOL_VERSION && e.kind()
                == ProtocolErrorKind::UnsupportedVersion(response.version),
        },
{
    if response.version != PROTOCOL_VERSION {
        return Err(ProtocolError::UnsupportedVersion(response.version));
    }
    Ok(encode_base64(json))
}

/// The JSON bytes inside a bridge payload.
pub fn unframe(payload: &str) -> (r: Result<Vec<u8>, ProtocolError>)
    ensures
        match r {
            Ok(bytes) => base64_decoding(payload@) == Some(bytes@),
            Err(e) => base64_decoding(payload@) is None && e.kind() == ProtocolErrorKind::Base64,
        },
{
    match decode_base64(payload) {
        Ok(bytes) => Ok(bytes),
        Err(e) => Err(ProtocolError::Base64(e)),
    }
}

/// Refuses a decoded response of another protocol version.
pub fn check_response_version(response: &NativeResponse) -> (r: Result<(), ProtocolError>)
    ensures
        match r {
            Ok(()) => response.version == PROTOCOL_VERSION,
            Err(e) => response.version != PROTOCOL_VERSION && e.kind()
                == ProtocolErrorKind::UnsupportedVersion(response.version),
        },
{
    if response.version != PROTOCOL_VERSION {
        return Err(ProtocolError::UnsupportedVersion(response.version));
    }
    Ok(())
}

} // verus!
