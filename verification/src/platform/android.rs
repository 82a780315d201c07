//! What the Android platform decides around its bridge calls: which request
//! an operation sends, and what each answer of the host means.
use vstd::prelude::*;

use crate::domain::document::AttachmentRef;
use crate::error::PlatformError;
use crate::platform::protocol::{
    NativeOperation, NativeRequest, NativeResponse, NativeResult, PROTOCOL_VERSION,
};
use crate::platform::PickDocumentOutcome;
use crate::text::{
    decimal, push_all, push_decimal, push_str, same_text, string_from_chars, trim,
    trimmed_chars, chars_of,
};

verus! {

/// What `str`'s `Debug` makes of a text: the text in double quotes, with
/// quotes, backslashes and unprintable characters escaped.
pub uninterp spec fn str_debug(text: Seq<char>) -> Seq<char>;

/// `format!("{:?}", text)`, the `Debug` of `str`.
#[verifier::external_body]
fn debug_str(text: &str) -> (r: String)
    ensures
        r@ == str_debug(text@),
{
    format!("{text:?}")
}

/// The derived `Debug` of an optional text: `Some(..)` or `None`.
pub open spec fn option_debug(value: Option<String>) -> Seq<char> {
    match value {
        Some(s) => "Some("@ + str_debug(s@) + ")"@,
        None => "None"@,
    }
}

/// The derived `Debug` of a host result: the variant's name, and its fields
/// as `{ name: value, .. }`.
pub open spec fn debug_rendering(result: NativeResult) -> Seq<char> {
    match result {
        NativeResult::AppDataDirectory { path } => "AppDataDirectory { path: "@ + str_debug(path@)
            + " }"@,
        NativeResult::DocumentSelected { uri, display_name, mime_type } =>
            "DocumentSelected { uri: "@ + str_debug(uri@) + ", display_name: "@ + option_debug(
            display_name,
        ) + ", mime_type: "@ + option_debug(mime_type) + " }"@,
        NativeResult::TextDocument { content } => "TextDocument { content: "@ + str_debug(
            content@,
        ) + " }"@,
        NativeResult::Cancelled => "Cancelled"@,
        NativeResult::Completed => "Completed"@,
        NativeResult::Error { code, message } => "Error { code: "@ + str_debug(code@)
            + ", message: "@ + str_debug(message@) + " }"@,
    }
}

fn push_option_debug(out: &mut Vec<char>, value: &Option<String>)
    ensures
        final(out)@ == old(out)@ + option_debug(*value),
{
    match value {
        Some(s) => {
            push_str(out, "Some(");
            push_str(out, debug_str(s.as_str()).as_str());
            push_str(out, ")");
        },
        None => push_str(out, "None"),
    }
    assert(out@ =~= old(out)@ + option_debug(*value));
}

/// The derived `Debug` text of a host result.
fn debug_text(result: &NativeResult) -> (r: String)
    ensures
        r@ == debug_rendering(*result),
{
    let mut out: Vec<char> = Vec::new();
    match result {
        NativeResult::AppDataDirectory { path } => {
            push_str(&mut out, "AppDataDirectory { path: ");
            push_str(&mut out, debug_str(path.as_str()).as_str());
            push_str(&mut out, " }");
        },
        NativeResult::DocumentSelected { uri, display_name, mime_type } => {
            push_str(&mut out, "DocumentSelected { uri: ");
            push_str(&mut out, debug_str(uri.as_str()).as_str());
            push_str(&mut out, ", display_name: ");
            push_option_debug(&mut out, display_name);
            push_str(&mut out, ", mime_type: ");
            push_option_debug(&mut out, mime_type);
            push_str(&mut out, " }");
        },
        NativeResult::TextDocument { content } => {
            push_str(&mut out, "TextDocument { content: ");
            push_str(&mut out, debug_str(content.as_str()).as_str());
            push_str(&mut out, " }");
        },
        NativeResult::Cancelled => push_str(&mut out, "Cancelled"),
        NativeResult::Completed => push_str(&mut out, "Completed"),
        NativeResult::Error { code, message } => {
            push_str(&mut out, "Error { code: ");
            push_str(&mut out, debug_str(code.as_str()).as_str());
            push_str(&mut out, ", message: ");
            push_str(&mut out, debug_str(message.as_str()).as_str());
            push_str(&mut out, " }");
        },
    }
    assert(out@ =~= debug_rendering(*result));
    string_from_chars(out.as_slice())
}

/// The scheme and the serialisation of a text that `Url::parse` accepts.
pub uninterp spec fn parsed_url(input: Seq<char>) -> Option<(Seq<char>, Seq<char>)>;

/// `url::Url::parse`, giving the URL's scheme and its serialisation.
#[verifier::external_body]
pub(crate) fn parse_url(input: &str) -> (r: Option<(String, String)>)
    ensures
        match r {
            Some((scheme, text)) => parsed_url(input@) == Some((scheme@, text@)),
            None => parsed_url(input@) is None,
        },
{
    url::Url::parse(input).ok().map(|url| (url.scheme().to_string(), url.to_string()))
}

/// Only web links may be handed to the browser.
pub open spec fn is_web_scheme(scheme: Seq<char>) -> bool {
    scheme == "http"@ || scheme == "https"@
}

/// The platform error that an unexpected host result stands for.
pub open spec fn spec_result_error(result: NativeResult) -> PlatformError {
    match result {
        NativeResult::Error { code, message } => if code@ == "permission_denied"@ {
            PlatformError::PersistablePermissionDenied
        } else if code@ == "attachment_unavailable"@ {
            PlatformError::AttachmentUnavailable
        } else if code@ == "no_handler"@ {
            PlatformError::NoActivityHandler
        } else {
            PlatformError::Native(arbitrary())
        },
        NativeResult::Cancelled => PlatformError::Native(arbitrary()),
        _ => PlatformError::Protocol(arbitrary()),
    }
}

/// The text that `result_error` puts in its `Native` or `Protocol` error.
pub open spec fn result_error_text(result: NativeResult) -> Seq<char> {
    match result {
        NativeResult::Error { code, message } => code@ + ": "@ + message@,
        NativeResult::Cancelled => "operation was cancelled"@,
        _ => "unexpected native response: "@ + debug_rendering(result),
    }
}

/// The error variant of `result_error`, ignoring its text.
pub open spec fn same_error_kind(a: PlatformError, b: PlatformError) -> bool {
    match (a, b) {
        (PlatformError::Native(_), PlatformError::Native(_)) => true,
        (PlatformError::Protocol(_), PlatformError::Protocol(_)) => true,
        _ => a == b,
    }
}

/// What `result_error` returns: the error kind, and for `Native` and
/// `Protocol` errors the text `result_error_text`.
pub open spec fn is_result_error(result: NativeResult, e: PlatformError) -> bool {
    &&& same_error_kind(e, spec_result_error(result))
    &&& (e matches PlatformError::Native(t) ==> t@ == result_error_text(result))
    &&& (e matches PlatformError::Protocol(t) ==> t@ == result_error_text(result))
}

/// Maps a host result that the operation did not expect to a platform error:
/// known error codes to their errors, other errors to `Native("code: message")`,
/// a cancellation to `Native`, anything else to `Protocol`.
pub fn result_error(result: NativeResult) -> (r: PlatformError)
    ensures
        is_result_error(result, r),
{
    match result {
        NativeResult::Error { code, message } => {
            if same_text(code.as_str(), "permission_denied") {
                PlatformError::PersistablePermissionDenied
            } else if same_text(code.as_str(), "attachment_unavailable") {
                PlatformError::AttachmentUnavailable
            } else if same_text(code.as_str(), "no_handler") {
                PlatformError::NoActivityHandler
            } else {
                let mut out: Vec<char> = Vec::new();
                push_str(&mut out, code.as_str());
                push_str(&mut out, ": ");
                push_str(&mut out, message.as_str());
                PlatformError::Native(string_from_chars(out.as_slice()))
            }
        },
        NativeResult::Cancelled => {
            let text = chars_of("operation was cancelled");
            PlatformError::Native(string_from_chars(text.as_slice()))
        },
        other => {
            let mut out: Vec<char> = Vec::new();
            push_str(&mut out, "unexpected native response: ");
            push_str(&mut out, debug_text(&other).as_str());
            PlatformError::Protocol(string_from_chars(out.as_slice()))
        },
    }
}

/// The Android platform, reached through the bridge protocol.
#[derive(Clone, Copy)]
pub struct AndroidPlatform;

impl Default for AndroidPlatform {
    fn default() -> (r: Self) {
        AndroidPlatform
    }
}

impl AndroidPlatform {
    /// The id of the `sequence`-th request: `android-<sequence>`.
    pub fn request_id(sequence: u64) -> (r: String)
        ensures
            r@ == "android-"@ + decimal(sequence as nat),
    {
        let mut out: Vec<char> = Vec::new();
        push_str(&mut out, "android-");
        push_decimal(&mut out, sequence);
        string_from_chars(out.as_slice())
    }

    /// The request that the `sequence`-th bridge call sends.
    pub fn request(sequence: u64, operation: NativeOperation) -> (r: NativeRequest)
        ensures
            r.version == PROTOCOL_VERSION,
            r.request_id@ == "android-"@ + decimal(sequence as nat),
            r.operation == operation,
    {
        NativeRequest::new(Self::request_id(sequence), operation)
    }

    /// The host's answer to `request`, or a protocol error when the answer is
    /// of another version or belongs to another request.
    pub fn response_result(request: &NativeRequest, response: NativeResponse) -> (r: Result<
        NativeResult,
        PlatformError,
    >)
        ensures
            match r {
                Ok(result) => response.version == PROTOCOL_VERSION && response.request_id@
                    == request.request_id@ && result == response.result,
                Err(e) => e matches PlatformError::Protocol(t) && if response.version
                    != PROTOCOL_VERSION {
                    t@ == "unsupported native bridge protocol version "@ + decimal(
                        response.version as nat,
                    )
                } else {
                    response.request_id@ != request.request_id@ && t@
                        == "native bridge request ID mismatch: expected "@ + request.request_id@
                        + ", received "@ + response.request_id@
                },
            },
    {
        match response.validate_for(request) {
            Ok(()) => Ok(response.result),
            Err(error) => Err(PlatformError::Protocol(error.message())),
        }
    }

    /// The app's data directory from the host's answer; a blank path is a
    /// protocol error.
    pub fn app_data_directory_result(result: NativeResult) -> (r: Result<String, PlatformError>)
        ensures
            match result {
                NativeResult::AppDataDirectory { path } => if trim(path@).len() > 0 {
                    r == Ok::<String, PlatformError>(path)
                } else {
                    r matches Err(PlatformError::Protocol(t))
                        && t@ == "Android returned an empty app data directory"@
                },
                other => r matches Err(e) && is_result_error(other, e),
            },
    {
        match result {
            NativeResult::AppDataDirectory { path } => {
                let t = trimmed_chars(path.as_str());
                if t.len() > 0 {
                    Ok(path)
                } else {
                    let text = chars_of("Android returned an empty app data directory");
                    Err(PlatformError::Protocol(string_from_chars(text.as_slice())))
                }
            },
            other => Err(result_error(other)),
        }
    }

    /// The operation that asks the host for a document.
    pub fn pick_document_operation(prefer_downloads: bool) -> (r: NativeOperation)
        ensures
            r == (NativeOperation::PickDocument { prefer_downloads }),
    {
        NativeOperation::PickDocument { prefer_downloads }
    }

    /// The picked document: a selection with a non-blank URI, or a
    /// cancellation; a blank URI means the attachment is unavailable.
    pub fn pick_document_result(result: NativeResult) -> (r: Result<
        PickDocumentOutcome,
        PlatformError,
    >)
        ensures
            match result {
                NativeResult::DocumentSelected { uri, display_name, mime_type } => if trim(
                    uri@,
                ).len() > 0 {
                    r == Ok::<PickDocumentOutcome, PlatformError>(
                        PickDocumentOutcome::Selected(AttachmentRef { uri, display_name, mime_type }),
                    )
                } else {
                    r == Err::<PickDocumentOutcome, PlatformError>(
                        PlatformError::AttachmentUnavailable,
                    )
                },
                NativeResult::Cancelled => r == Ok::<PickDocumentOutcome, PlatformError>(
                    PickDocumentOutcome::Cancelled,
                ),
                other => r matches Err(e) && is_result_error(other, e),
            },
    {
        match result {
            NativeResult::DocumentSelected { uri, display_name, mime_type } => {
                let t = trimmed_chars(uri.as_str());
                if t.len() > 0 {
                    Ok(PickDocumentOutcome::Selected(AttachmentRef { uri, display_name, mime_type }))
                } else {
                    Err(PlatformError::AttachmentUnavailable)
                }
            },
            NativeResult::Cancelled => Ok(PickDocumentOutcome::Cancelled),
            other => Err(result_error(other)),
        }
    }

    /// The operation that saves a new document; its content travels in base64.
    pub fn create_document_operation(file_name: &str, mime_type: &str, content: &[u8]) -> (r:
        NativeOperation)
        requires
            content@.len() <= (usize::MAX / 4) * 3,
        ensures
            r matches NativeOperation::CreateDocument { file_name: f, mime_type: m, content_base64: c }
                && f@ == file_name@ && m@ == mime_type@
                && c@ == crate::platform::protocol::base64_encoding(content@),
    {
        NativeOperation::CreateDocument {
            file_name: string_from_chars(chars_of(file_name).as_slice()),
            mime_type: string_from_chars(chars_of(mime_type).as_slice()),
            content_base64: crate::platform::protocol::encode_payload(content),
        }
    }

    /// Whether the document was saved (`false` when the user cancelled).
    pub fn create_document_result(result: NativeResult) -> (r: Result<bool, PlatformError>)
        ensures
            match result {
                NativeResult::Completed => r == Ok::<bool, PlatformError>(true),
                NativeResult::Cancelled => r == Ok::<bool, PlatformError>(false),
                other => r matches Err(e) && is_result_error(other, e),
            },
    {
        match result {
            NativeResult::Completed => Ok(true),
            NativeResult::Cancelled => Ok(false),
            other => Err(result_error(other)),
        }
    }

    /// The operation that reads a text document.
    pub fn read_text_document_operation(uri: &str) -> (r: NativeOperation)
        ensures
            r matches NativeOperation::ReadTextDocument { uri: u } && u@ == uri@,
    {
        NativeOperation::ReadTextDocument { uri: string_from_chars(chars_of(uri).as_slice()) }
    }

    /// The text that the host read.
    pub fn read_text_document_result(result: NativeResult) -> (r: Result<String, PlatformError>)
        ensures
            match result {
                NativeResult::TextDocument { content } => r == Ok::<String, PlatformError>(content),
                other => r matches Err(e) && is_result_error(other, e),
            },
    {
        match result {
            NativeResult::TextDocument { content } => Ok(content),
            other => Err(result_error(other)),
        }
    }

    /// The operation that opens an attachment in a viewer.
    pub fn open_document_operation(attachment: &AttachmentRef) -> (r: NativeOperation)
        ensures
            r == (NativeOperation::OpenDocument {
                uri: attachment.uri,
                mime_type: attachment.mime_type,
            }),
    {
        NativeOperation::OpenDocument {
            uri: attachment.uri.clone(),
            mime_type: match &attachment.mime_type {
                Some(m) => Some(m.clone()),
                None => None,
            },
        }
    }

    /// The operation that opens a web link: the text must parse as a URL
    /// with the `http` or `https` scheme, and its serialisation is sent.
    pub fn open_url_operation(url: &str) -> (r: Result<NativeOperation, PlatformError>)
        ensures
            match parsed_url(url@) {
                Some((scheme, text)) => if is_web_scheme(scheme) {
                    r matches Ok(NativeOperation::OpenUrl { url: u }) && u@ == text
                } else {
                    r == Err::<NativeOperation, PlatformError>(PlatformError::UnsupportedUrlScheme)
                },
                None => r == Err::<NativeOperation, PlatformError>(
                    PlatformError::UnsupportedUrlScheme,
                ),
            },
    {
        match parse_url(url) {
            Some((scheme, text)) => {
                if same_text(scheme.as_str(), "http") || same_text(scheme.as_str(), "https") {
                    Ok(NativeOperation::OpenUrl { url: text })
                } else {
                    Err(PlatformError::UnsupportedUrlScheme)
                }
            },
            None => Err(PlatformError::UnsupportedUrlScheme),
        }
    }

    /// The operation that releases a read grant; nothing is sent for a blank
    /// URI.
    pub fn release_read_permission_operation(uri: &str) -> (r: Option<NativeOperation>)
        ensures
            match r {
                Some(op) => trim(uri@).len() > 0 && (op matches NativeOperation::ReleaseReadPermission {
                    uri: u,
                } && u@ == uri@),
                None => trim(uri@).len() == 0,
            },
    {
        let t = trimmed_chars(uri);
        if t.len() == 0 {
            None
        } else {
            Some(
                NativeOperation::ReleaseReadPermission {
                    uri: string_from_chars(chars_of(uri).as_slice()),
                },
            )
        }
    }

    /// The outcome of an operation that only completes (opening a document
    /// or a link, releasing a grant).
    pub fn completion_result(result: NativeResult) -> (r: Result<(), PlatformError>)
        ensures
            match result {
                NativeResult::Completed => r == Ok::<(), PlatformError>(()),
                other => r matches Err(e) && is_result_error(other, e),
            },
    {
        match result {
            NativeResult::Completed => Ok(()),
            other => Err(result_error(other)),
        }
    }
}

} // verus!
