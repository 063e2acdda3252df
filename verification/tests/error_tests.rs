use stt_client::error::{RequestKind, SttError};
use stt_client::text::decimal_string;

#[test]
fn decimal_strings() {
    for n in [0u16, 1, 9, 10, 11, 99, 100, 101, 999, 1000, 4096, 9999, 10000, 65535] {
        assert_eq!(decimal_string(n), n.to_string());
    }
}

#[test]
fn messages_of_every_failure() {
    let d = || "why".to_string();
    assert_eq!(
        SttError::HeaderConstruction { detail: d() }.message(),
        "Invalid authorization header value: why"
    );
    assert_eq!(SttError::ClientBuild { detail: d() }.message(), "Failed to build HTTP client: why");
    assert_eq!(SttError::Encoding { detail: d() }.message(), "Failed to encode WAV data: why");
    assert_eq!(SttError::Multipart { detail: d() }.message(), "Failed to build multipart file: why");
    assert_eq!(
        SttError::Network { request: RequestKind::Transcription, detail: d() }.message(),
        "HTTP request failed: why"
    );
    assert_eq!(
        SttError::Network { request: RequestKind::ModelList, detail: d() }.message(),
        "Failed to fetch models: why"
    );
    assert_eq!(
        SttError::HttpStatus { request: RequestKind::Transcription, status: 500, body: d() }
            .message(),
        "Transcription request failed with status 500 Internal Server Error: why"
    );
    assert_eq!(
        SttError::HttpStatus { request: RequestKind::ModelList, status: 403, body: d() }.message(),
        "Model list request failed (403 Forbidden): why"
    );
    assert_eq!(
        SttError::ResponseParse { request: RequestKind::Transcription, detail: d() }.message(),
        "Failed to parse transcription response: why"
    );
    assert_eq!(
        SttError::ResponseParse { request: RequestKind::ModelList, detail: d() }.message(),
        "Failed to parse response: why"
    );
}

#[test]
fn failure_status_message_with_empty_body() {
    assert_eq!(
        SttError::HttpStatus {
            request: RequestKind::Transcription,
            status: 400,
            body: String::new()
        }
        .message(),
        "Transcription request failed with status 400 Bad Request: "
    );
}
