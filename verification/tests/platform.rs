use china_travel_app::domain::AttachmentRef;
use china_travel_app::error::PlatformError;
use china_travel_app::platform::protocol::{frame_request, frame_response, unframe};
use china_travel_app::platform::{
    AndroidPlatform, FakePlatform, NativeOperation, NativeRequest, NativeResponse, NativeResult,
    PickDocumentOutcome, ProtocolError,
};

#[test]
fn fake_platform_models_picker_cancellation_and_permission_release() {
    let attachment = AttachmentRef::new(
        "content://provider/document/99".to_string(),
        Some("visa.pdf".to_string()),
        Some("application/pdf".to_string()),
    )
    .unwrap();
    let mut platform =
        FakePlatform::with_pick_result(PickDocumentOutcome::Selected(attachment.clone()));
    assert_eq!(
        platform.pick_document(true).unwrap(),
        PickDocumentOutcome::Selected(attachment.clone())
    );
    assert_eq!(
        platform.pick_document(true).unwrap(),
        PickDocumentOutcome::Cancelled
    );
    platform.release_read_permission(&attachment.uri).unwrap();
    assert_eq!(platform.released_uris(), vec![attachment.uri]);
}

#[test]
fn fake_platform_creates_and_reads_backup_documents() {
    let mut platform = FakePlatform::default();
    platform.set_text_document("content://backup/file", "{\"version\":1}");
    assert_eq!(
        platform.read_text_document("content://backup/file").unwrap(),
        "{\"version\":1}"
    );
    assert!(platform
        .create_document(
            "china_travel_app_backup.json",
            "application/json",
            b"{\"version\":1}",
        )
        .unwrap());
    let created = platform.created_documents();
    assert_eq!(created.len(), 1);
    assert_eq!(created[0].0, "china_travel_app_backup.json");
    assert_eq!(created[0].2, b"{\"version\":1}");
}

#[test]
fn fake_platform_replaces_texts_and_reports_missing_ones() {
    let mut platform = FakePlatform::default();
    platform.set_text_document("content://a", "one");
    platform.set_text_document("content://a", "two");
    assert_eq!(platform.read_text_document("content://a").unwrap(), "two");
    assert_eq!(
        platform.read_text_document("content://b"),
        Err(PlatformError::AttachmentUnavailable)
    );
}

#[test]
fn fake_platform_open_error_blocks_opening() {
    let mut platform = FakePlatform::default();
    let attachment = AttachmentRef::new("content://x".to_string(), None, None).unwrap();
    platform.open_document(&attachment).unwrap();
    platform.open_url("https://example.test").unwrap();
    platform.set_open_error(Some(PlatformError::NoActivityHandler));
    assert_eq!(
        platform.open_document(&attachment),
        Err(PlatformError::NoActivityHandler)
    );
    assert_eq!(
        platform.open_url("https://example.test/b"),
        Err(PlatformError::NoActivityHandler)
    );
    assert_eq!(platform.opened_documents(), vec!["content://x".to_string()]);
    assert_eq!(platform.opened_urls(), vec!["https://example.test".to_string()]);
    assert_eq!(platform.app_data_directory(None).unwrap(), ":memory:");
    assert_eq!(
        platform.app_data_directory(Some("/data".to_string())).unwrap(),
        "/data"
    );
}

#[test]
fn malformed_payloads_and_mismatched_ids_are_rejected() {
    assert!(matches!(unframe("not-base64"), Err(ProtocolError::Base64(_))));
    let request = NativeRequest::new("expected".to_string(), NativeOperation::AppDataDirectory);
    let response = NativeResponse::success("actual".to_string(), NativeResult::Completed);
    assert!(matches!(
        response.validate_for(&request),
        Err(ProtocolError::RequestIdMismatch { .. })
    ));
    assert!(matches!(
        NativeRequest {
            version: 9,
            ..request
        }
        .validate(),
        Err(ProtocolError::UnsupportedVersion(9))
    ));
}

#[test]
fn framing_round_trips_payload_bytes() {
    let request = NativeRequest::new("request-0".to_string(), NativeOperation::AppDataDirectory);
    let json = "{\"version\":1,\"request_id\":\"request-0\",\"operation\":{\"kind\":\"app_data_directory\"}}";
    let framed = frame_request(&request, json.as_bytes()).unwrap();
    assert_ne!(framed.as_bytes(), json.as_bytes());
    assert!(framed
        .bytes()
        .all(|byte| byte.is_ascii_alphanumeric() || matches!(byte, b'+' | b'/' | b'=')));
    assert_eq!(unframe(&framed).unwrap(), json.as_bytes());
    assert_eq!(frame_request(&request, b"hi").unwrap(), "aGk=");
    let blank = NativeRequest::new("  ".to_string(), NativeOperation::AppDataDirectory);
    assert!(matches!(
        frame_request(&blank, b"{}"),
        Err(ProtocolError::MissingRequestId)
    ));
    let response = NativeResponse {
        version: 2,
        ..NativeResponse::success("cancel".to_string(), NativeResult::Cancelled)
    };
    assert!(matches!(
        frame_response(&response, b"{}"),
        Err(ProtocolError::UnsupportedVersion(2))
    ));
}

#[test]
fn protocol_errors_read_as_messages() {
    assert_eq!(
        ProtocolError::UnsupportedVersion(9).message(),
        "unsupported native bridge protocol version 9"
    );
    assert_eq!(
        ProtocolError::RequestIdMismatch {
            expected: "a".to_string(),
            actual: "b".to_string()
        }
        .message(),
        "native bridge request ID mismatch: expected a, received b"
    );
    let error = unframe("@@").unwrap_err();
    assert!(error
        .message()
        .starts_with("invalid native bridge base64 payload: "));
}

#[test]
fn android_requests_and_results_are_interpreted() {
    let request = AndroidPlatform::request(7, NativeOperation::AppDataDirectory);
    assert_eq!(request.request_id, "android-7");
    assert_eq!(request.validate().is_ok(), true);
    assert_eq!(
        AndroidPlatform::app_data_directory_result(NativeResult::AppDataDirectory {
            path: "/data/app".to_string()
        }),
        Ok("/data/app".to_string())
    );
    assert_eq!(
        AndroidPlatform::app_data_directory_result(NativeResult::AppDataDirectory {
            path: " ".to_string()
        }),
        Err(PlatformError::Protocol(
            "Android returned an empty app data directory".to_string()
        ))
    );
    assert_eq!(
        AndroidPlatform::pick_document_result(NativeResult::DocumentSelected {
            uri: "".to_string(),
            display_name: None,
            mime_type: None
        }),
        Err(PlatformError::AttachmentUnavailable)
    );
    assert_eq!(
        AndroidPlatform::pick_document_result(NativeResult::Cancelled),
        Ok(PickDocumentOutcome::Cancelled)
    );
    assert_eq!(
        AndroidPlatform::create_document_result(NativeResult::Cancelled),
        Ok(false)
    );
    assert_eq!(
        AndroidPlatform::completion_result(NativeResult::Error {
            code: "no_handler".to_string(),
            message: "No compatible app".to_string()
        }),
        Err(PlatformError::NoActivityHandler)
    );
    assert_eq!(
        AndroidPlatform::completion_result(NativeResult::Error {
            code: "timeout".to_string(),
            message: "Native operation timed out".to_string()
        }),
        Err(PlatformError::Native(
            "timeout: Native operation timed out".to_string()
        ))
    );
    assert_eq!(
        AndroidPlatform::completion_result(NativeResult::Cancelled),
        Err(PlatformError::Native("operation was cancelled".to_string()))
    );
    assert_eq!(
        AndroidPlatform::read_text_document_result(NativeResult::Completed),
        Err(PlatformError::Protocol(
            "unexpected native response: Completed".to_string()
        ))
    );
    assert_eq!(AndroidPlatform::release_read_permission_operation("  "), None);
}

#[test]
fn android_links_must_be_web_urls() {
    assert_eq!(
        AndroidPlatform::open_url_operation("https://example.test/a b"),
        Ok(NativeOperation::OpenUrl {
            url: "https://example.test/a%20b".to_string()
        })
    );
    assert_eq!(
        AndroidPlatform::open_url_operation("javascript:alert(1)"),
        Err(PlatformError::UnsupportedUrlScheme)
    );
    assert_eq!(
        AndroidPlatform::open_url_operation("not a url"),
        Err(PlatformError::UnsupportedUrlScheme)
    );
    match AndroidPlatform::create_document_operation("a.json", "application/json", b"hi") {
        NativeOperation::CreateDocument {
            content_base64, ..
        } => assert_eq!(content_base64, "aGk="),
        other => panic!("unexpected operation {other:?}"),
    }
}

#[test]
fn response_must_answer_its_request() {
    let request = AndroidPlatform::request(1, NativeOperation::AppDataDirectory);
    let response = NativeResponse::success("android-1".to_string(), NativeResult::Completed);
    assert_eq!(
        AndroidPlatform::response_result(&request, response),
        Ok(NativeResult::Completed)
    );
    let response = NativeResponse::success("android-2".to_string(), NativeResult::Completed);
    assert_eq!(
        AndroidPlatform::response_result(&request, response),
        Err(PlatformError::Protocol(
            "native bridge request ID mismatch: expected android-1, received android-2"
                .to_string()
        ))
    );
}

#[test]
fn unexpected_results_are_reported_with_their_debug_text() {
    let results = vec![
        NativeResult::AppDataDirectory {
            path: "/data/\"app\"\\files".to_string(),
        },
        NativeResult::DocumentSelected {
            uri: "content://provider/秘密.pdf".to_string(),
            display_name: Some("tab\there\n".to_string()),
            mime_type: None,
        },
        NativeResult::TextDocument {
            content: "{\"version\":1}".to_string(),
        },
        NativeResult::Completed,
    ];
    for result in results {
        let expected = format!("unexpected native response: {result:?}");
        match china_travel_app::platform::android::result_error(result) {
            PlatformError::Protocol(text) => assert_eq!(text, expected),
            other => panic!("unexpected {other:?}"),
        }
    }
}
