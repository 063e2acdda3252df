use stt_client::error::{status_string, RequestKind, SttError};
use stt_client::response::{
    entry_id_of, model_ids_of, read_model_list, read_transcription, status_is_success,
    transcript_of,
};

fn body(text: &str) -> Result<Vec<u8>, String> {
    Ok(text.as_bytes().to_vec())
}

fn json(text: &str) -> serde_json::Value {
    serde_json::from_str(text).unwrap()
}

fn names(items: &[&str]) -> Vec<String> {
    items.iter().map(|s| s.to_string()).collect()
}

#[test]
fn transcription_returns_text_verbatim() {
    assert_eq!(read_transcription(200, body(r#"{"text": "hello world"}"#)), Ok("hello world".to_string()));
    assert_eq!(read_transcription(201, body(r#"{"text": "  spaced \n"}"#)), Ok("  spaced \n".to_string()));
    assert_eq!(read_transcription(200, body(r#"{"text": ""}"#)), Ok(String::new()));
}

#[test]
fn transcription_ignores_other_members() {
    assert_eq!(
        read_transcription(200, body(r#"{"language":"en","text":"hi","duration":1.5}"#)),
        Ok("hi".to_string())
    );
}

#[test]
fn transcription_failure_status_carries_code_and_body() {
    let error = read_transcription(401, body("invalid key")).unwrap_err();
    assert_eq!(
        error,
        SttError::HttpStatus {
            request: RequestKind::Transcription,
            status: 401,
            body: "invalid key".to_string()
        }
    );
    let message = error.message();
    assert!(message.contains("401"));
    assert!(message.contains("invalid key"));
    assert_eq!(message, "Transcription request failed with status 401 Unauthorized: invalid key");
}

#[test]
fn transcription_failure_status_wins_over_valid_json() {
    let error = read_transcription(500, body(r#"{"text": "hello"}"#)).unwrap_err();
    assert!(matches!(error, SttError::HttpStatus { status: 500, .. }));
}

#[test]
fn unreadable_failure_body_gets_placeholder() {
    let error = read_transcription(503, Err("connection reset".to_string())).unwrap_err();
    assert_eq!(
        error,
        SttError::HttpStatus {
            request: RequestKind::Transcription,
            status: 503,
            body: "Failed to read error response".to_string()
        }
    );
    let error = read_model_list(503, Err("connection reset".to_string())).unwrap_err();
    assert_eq!(
        error,
        SttError::HttpStatus {
            request: RequestKind::ModelList,
            status: 503,
            body: "Unknown error".to_string()
        }
    );
    assert_eq!(
        error.message(),
        "Model list request failed (503 Service Unavailable): Unknown error"
    );
}

#[test]
fn unreadable_success_body_is_a_parse_failure() {
    assert_eq!(
        read_transcription(200, Err("body cut short".to_string())),
        Err(SttError::ResponseParse {
            request: RequestKind::Transcription,
            detail: "body cut short".to_string()
        })
    );
    assert_eq!(
        read_model_list(200, Err("body cut short".to_string())),
        Err(SttError::ResponseParse {
            request: RequestKind::ModelList,
            detail: "body cut short".to_string()
        })
    );
}

#[test]
fn transcription_wrong_shape_is_a_parse_failure() {
    for text in [r#"{"txt":"x"}"#, r#"{"text": 5}"#, r#"{"text": null}"#, r#"["hello"]"#, r#""hello""#, "null", "{}"] {
        assert_eq!(
            read_transcription(200, body(text)),
            Err(SttError::ResponseParse {
                request: RequestKind::Transcription,
                detail: "missing string field `text`".to_string()
            }),
            "{}",
            text
        );
    }
}

#[test]
fn transcription_bad_json_reports_parser_diagnostic() {
    let expected =
        serde_json::from_slice::<serde_json::Value>(b"not json").unwrap_err().to_string();
    match read_transcription(200, body("not json")) {
        Err(SttError::ResponseParse { request: RequestKind::Transcription, detail }) => {
            assert_eq!(detail, expected);
            assert_eq!(
                (SttError::ResponseParse { request: RequestKind::Transcription, detail }).message(),
                format!("Failed to parse transcription response: {}", expected)
            );
        }
        other => panic!("unexpected outcome {:?}", other),
    }
}

#[test]
fn model_list_data_entries_by_id_then_name() {
    assert_eq!(
        read_model_list(200, body(r#"{"data":[{"id":"whisper-1"},{"name":"nova-2"}]}"#)),
        Ok(names(&["whisper-1", "nova-2"]))
    );
}

#[test]
fn model_list_bare_array() {
    assert_eq!(read_model_list(200, body(r#"["a","b","c"]"#)), Ok(names(&["a", "b", "c"])));
}

#[test]
fn model_list_unknown_shape_is_empty() {
    assert_eq!(read_model_list(200, body(r#"{"unexpected":true}"#)), Ok(Vec::new()));
    for text in ["null", "42", r#""models""#, "{}", r#"{"data":"x"}"#, r#"{"data":{"id":"m"}}"#] {
        assert_eq!(read_model_list(200, body(text)), Ok(Vec::new()), "{}", text);
    }
}

#[test]
fn model_list_failure_status() {
    assert_eq!(
        read_model_list(404, body("no such route")),
        Err(SttError::HttpStatus {
            request: RequestKind::ModelList,
            status: 404,
            body: "no such route".to_string()
        })
    );
}

#[test]
fn model_list_bad_json_is_a_parse_failure() {
    let expected = serde_json::from_slice::<serde_json::Value>(b"{").unwrap_err().to_string();
    let error = read_model_list(200, body("{")).unwrap_err();
    assert_eq!(
        error,
        SttError::ResponseParse { request: RequestKind::ModelList, detail: expected.clone() }
    );
    assert_eq!(error.message(), format!("Failed to parse response: {}", expected));
}

#[test]
fn model_ids_prefer_id_and_skip_entries_without_either() {
    let document = json(
        r#"{"data":[{"id":"a","name":"A"},{"id":7,"name":"b"},{"name":null},{},"c",{"id":"d"},{"id":"a"}]}"#,
    );
    assert_eq!(model_ids_of(&document), names(&["a", "b", "d", "a"]));
}

#[test]
fn model_ids_keep_order_and_duplicates() {
    assert_eq!(model_ids_of(&json(r#"["z","a","z","m"]"#)), names(&["z", "a", "z", "m"]));
}

#[test]
fn bare_array_skips_what_is_no_string() {
    assert_eq!(model_ids_of(&json(r#"["a",1,null,{"id":"x"},["b"],"c"]"#)), names(&["a", "c"]));
}

#[test]
fn data_form_is_tried_first() {
    assert_eq!(model_ids_of(&json(r#"{"data":[],"models":["x"]}"#)), Vec::<String>::new());
    assert_eq!(model_ids_of(&json(r#"{"data":[{"id":"only"}]}"#)), names(&["only"]));
}

#[test]
fn entry_id_cases() {
    assert_eq!(entry_id_of(&json(r#"{"id":"i","name":"n"}"#)), Some("i".to_string()));
    assert_eq!(entry_id_of(&json(r#"{"id":1,"name":"n"}"#)), Some("n".to_string()));
    assert_eq!(entry_id_of(&json(r#"{"id":1,"name":2}"#)), None);
    assert_eq!(entry_id_of(&json(r#""plain""#)), None);
}

#[test]
fn transcript_cases() {
    assert_eq!(transcript_of(&json(r#"{"text":"t"}"#)), Some("t".to_string()));
    assert_eq!(transcript_of(&json(r#"{"text":["t"]}"#)), None);
    assert_eq!(transcript_of(&json(r#"[{"text":"t"}]"#)), None);
}

#[test]
fn success_is_the_2xx_range() {
    assert!(!status_is_success(199));
    assert!(status_is_success(200));
    assert!(status_is_success(204));
    assert!(status_is_success(299));
    assert!(!status_is_success(300));
    assert!(!status_is_success(0));
    assert!(!status_is_success(u16::MAX));
}

#[test]
fn status_strings() {
    assert_eq!(status_string(401), "401 Unauthorized");
    assert_eq!(status_string(200), "200 OK");
    assert_eq!(status_string(429), "429 Too Many Requests");
    assert_eq!(status_string(999), "999 <unknown status code>");
    assert_eq!(status_string(42), "42 <unknown status code>");
    assert_eq!(status_string(0), "0 <unknown status code>");
    assert_eq!(status_string(65535), "65535 <unknown status code>");
    assert_eq!(
        status_string(404),
        reqwest::StatusCode::from_u16(404).unwrap().to_string()
    );
}

#[test]
fn success_body_that_is_no_utf8_is_a_parse_failure() {
    let bytes = b"{\"text\": \"\xff\"}".to_vec();
    let expected = serde_json::from_slice::<serde_json::Value>(&bytes).unwrap_err().to_string();
    assert_eq!(
        read_transcription(200, Ok(bytes.clone())),
        Err(SttError::ResponseParse { request: RequestKind::Transcription, detail: expected.clone() })
    );
    assert_eq!(
        read_model_list(200, Ok(bytes)),
        Err(SttError::ResponseParse { request: RequestKind::ModelList, detail: expected })
    );
}

#[test]
fn failure_body_that_is_no_utf8_is_shown_with_replacements() {
    assert_eq!(
        read_transcription(500, Ok(b"bad \xff byte".to_vec())),
        Err(SttError::HttpStatus {
            request: RequestKind::Transcription,
            status: 500,
            body: "bad \u{fffd} byte".to_string()
        })
    );
}

#[test]
fn failure_body_keeps_non_ascii_text() {
    assert_eq!(
        read_model_list(402, body("cl\u{e9} invalide")),
        Err(SttError::HttpStatus {
            request: RequestKind::ModelList,
            status: 402,
            body: "cl\u{e9} invalide".to_string()
        })
    );
}

#[test]
fn empty_success_body_is_a_parse_failure() {
    assert!(matches!(
        read_transcription(200, Ok(Vec::new())),
        Err(SttError::ResponseParse { request: RequestKind::Transcription, .. })
    ));
    assert!(matches!(
        read_model_list(204, Ok(Vec::new())),
        Err(SttError::ResponseParse { request: RequestKind::ModelList, .. })
    ));
}
