use aicommit::error::CommitError;
use aicommit::reconcile::{pick_candidate, reconcile, status_is_success, APIError, ChatCompletionResponse, Choice, ErrorDetail};
use aicommit::request::ApiMessage;
use aicommit::text::extract_candidates;

fn completion(contents: &[&str]) -> ChatCompletionResponse {
    ChatCompletionResponse {
        choices: contents
            .iter()
            .map(|c| Choice { message: ApiMessage { role: "assistant".to_string(), content: c.to_string() } })
            .collect(),
    }
}

#[test]
fn two_candidates_from_success() {
    let body = r#"{"choices":[{"message":{"role":"assistant","content":"feat: add x\n\nfix: add y\n"}}]}"#;
    let r = reconcile(200, body.to_string(), Ok(completion(&["feat: add x\n\nfix: add y\n"])), None);
    assert_eq!(r.unwrap(), vec!["feat: add x".to_string(), "fix: add y".to_string()]);
}

#[test]
fn empty_choices_is_empty_completion() {
    let r = reconcile(200, r#"{"choices":[]}"#.to_string(), Ok(completion(&[])), None);
    assert!(matches!(r, Err(CommitError::EmptyCompletion)));
}

#[test]
fn structured_error_is_provider_error() {
    let body = r#"{"error":{"message":"invalid key","type":"auth_error"}}"#;
    let e = APIError { error: ErrorDetail { message: "invalid key".to_string(), error_type: "auth_error".to_string() } };
    match reconcile(401, body.to_string(), Err("missing field `choices`".to_string()), Some(e)) {
        Err(CommitError::ProviderError { error_type, message }) => {
            assert_eq!(error_type, "auth_error");
            assert_eq!(message, "invalid key");
        }
        other => panic!("unexpected {:?}", other),
    }
}

#[test]
fn plain_error_body_is_http_error() {
    let r = reconcile(500, "Internal Server Error".to_string(), Err("expected value".to_string()), None);
    match r {
        Err(CommitError::HttpError { status, body }) => {
            assert_eq!(status, 500);
            assert_eq!(body, "Internal Server Error");
        }
        other => panic!("unexpected {:?}", other),
    }
}

#[test]
fn undecodable_success_keeps_body() {
    let r = reconcile(200, "not json".to_string(), Err("expected ident".to_string()), None);
    match r {
        Err(CommitError::MalformedSuccess { diagnostic, body }) => {
            assert_eq!(diagnostic, "expected ident");
            assert_eq!(body, "not json");
        }
        other => panic!("unexpected {:?}", other),
    }
}

#[test]
fn only_first_choice_is_read() {
    let r = reconcile(201, String::new(), Ok(completion(&["a\nb", "c"])), None);
    assert_eq!(r.unwrap(), vec!["a".to_string(), "b".to_string()]);
}

#[test]
fn success_status_range() {
    assert!(!status_is_success(199));
    assert!(status_is_success(200));
    assert!(status_is_success(299));
    assert!(!status_is_success(300));
    assert!(!status_is_success(404));
}

#[test]
fn candidates_trimmed_blank_dropped_order_kept() {
    let c = extract_candidates("  feat: one  \r\n\t\n \u{a0}\nfix: two\n\n  docs: three");
    assert_eq!(c, vec!["feat: one".to_string(), "fix: two".to_string(), "docs: three".to_string()]);
}

#[test]
fn candidates_of_empty_reply() {
    assert!(extract_candidates("").is_empty());
    assert!(extract_candidates("\n \n\t").is_empty());
}

#[test]
fn candidates_keep_duplicates() {
    let c = extract_candidates("same\nsame\n");
    assert_eq!(c, vec!["same".to_string(), "same".to_string()]);
}

#[test]
fn pick_is_one_based() {
    let c = vec!["a".to_string(), "b".to_string()];
    assert_eq!(pick_candidate(&c, 1), Some("a".to_string()));
    assert_eq!(pick_candidate(&c, 2), Some("b".to_string()));
    assert_eq!(pick_candidate(&c, 0), None);
    assert_eq!(pick_candidate(&c, 3), None);
}

#[test]
fn error_messages_are_distinct() {
    let all = vec![
        CommitError::ConfigMissing,
        CommitError::ConfigMalformed("x".to_string()),
        CommitError::ProviderNotFound("x".to_string()),
        CommitError::CredentialMissing,
        CommitError::SerializationError("x".to_string()),
        CommitError::TransportError("x".to_string()),
        CommitError::ResponseReadError("x".to_string()),
        CommitError::MalformedSuccess { diagnostic: "x".to_string(), body: "y".to_string() },
        CommitError::EmptyCompletion,
        CommitError::ProviderError { error_type: "x".to_string(), message: "y".to_string() },
        CommitError::HttpError { status: 500, body: "x".to_string() },
    ];
    let texts: Vec<String> = all.iter().map(|e| e.message()).collect();
    for i in 0..texts.len() {
        for j in 0..texts.len() {
            if i != j {
                assert_ne!(texts[i], texts[j]);
            }
        }
    }
}

#[test]
fn error_message_texts() {
    assert_eq!(
        CommitError::HttpError { status: 503, body: "down".to_string() }.message(),
        "HTTP Error 503: down"
    );
    assert_eq!(
        CommitError::ProviderError { error_type: "auth_error".to_string(), message: "invalid key".to_string() }.message(),
        "API Error (auth_error): invalid key"
    );
    assert_eq!(CommitError::EmptyCompletion.message(), "Error no content in response");
    assert_eq!(CommitError::TransportError("timed out".to_string()).message(), "Error while requesting api: timed out");
    assert_eq!(CommitError::ResponseReadError("eof".to_string()).message(), "Error while reading response: eof");
}
